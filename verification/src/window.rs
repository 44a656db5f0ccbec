//! The presentation state of a host-owned window, as far as the command
//! surface touches it: effective opacity and the always-on-top flag. The GUI
//! host runtime owns the real window resource; this model is what the
//! commands promise about it, and the host's outcome of an actual property
//! change is mapped to the command's result here.

use vstd::prelude::*;

use crate::error::ErrorKind;
use crate::opacity::effective_opacity;
use crate::opacity::effective_spec;
use crate::opacity::MAX_OPACITY_MILLIS;
use crate::opacity::MIN_OPACITY_MILLIS;

verus! {

/// The window-presentation properties the command surface controls.
pub struct WindowState {
    /// The effective opacity last applied, in thousandths.
    pub opacity_millis: i64,
    /// Whether the window is kept above all others.
    pub always_on_top: bool,
}

/// A window state is well formed when its opacity is an effective one:
/// already clamped to [0.3, 1.0].
pub open spec fn wf(w: WindowState) -> bool {
    MIN_OPACITY_MILLIS <= w.opacity_millis <= MAX_OPACITY_MILLIS
}

/// The state after an opacity command: the clamped request, everything else
/// untouched.
pub open spec fn set_opacity_spec(w: WindowState, requested: int) -> WindowState {
    WindowState { opacity_millis: effective_spec(requested) as i64, always_on_top: w.always_on_top }
}

/// The state after an always-on-top command: the requested flag, everything
/// else untouched.
pub open spec fn set_always_on_top_spec(w: WindowState, enabled: bool) -> WindowState {
    WindowState { opacity_millis: w.opacity_millis, always_on_top: enabled }
}

impl WindowState {
    /// A freshly shown window: fully opaque, not pinned above others.
    pub fn new() -> (r: WindowState)
        ensures
            wf(r),
            r.opacity_millis == MAX_OPACITY_MILLIS,
            !r.always_on_top,
    {
        WindowState { opacity_millis: MAX_OPACITY_MILLIS, always_on_top: false }
    }

    /// Apply an opacity command: the requested value is clamped, never
    /// rejected, and no other property changes.
    pub fn apply_set_window_opacity(&mut self, requested: i64)
        ensures
            *final(self) == set_opacity_spec(*old(self), requested as int),
            wf(*final(self)),
    {
        self.opacity_millis = effective_opacity(requested);
    }

    /// Apply an always-on-top command: the flag is set to exactly the
    /// requested value, and no other property changes.
    pub fn apply_set_always_on_top(&mut self, enabled: bool)
        ensures
            *final(self) == set_always_on_top_spec(*old(self), enabled),
            final(self).always_on_top == enabled,
            wf(*old(self)) ==> wf(*final(self)),
    {
        self.always_on_top = enabled;
    }
}

/// Law: of two always-on-top commands in sequence, the last one wins — the
/// flag ends at the second requested value, with no memory of the first.
pub proof fn lemma_always_on_top_last_write_wins(w: WindowState, first: bool, second: bool)
    ensures
        set_always_on_top_spec(set_always_on_top_spec(w, first), second).always_on_top == second,
        set_always_on_top_spec(set_always_on_top_spec(w, first), second) == set_always_on_top_spec(
            w,
            second,
        ),
{
}

/// Map the host runtime's outcome of a window-property change to the
/// command's result: success where the host reports none, and a
/// `WindowOpError` carrying the host's error description otherwise.
pub fn window_op_result(outcome: Option<String>) -> (r: Result<(), ErrorKind>)
    ensures
        outcome is None ==> r is Ok,
        outcome matches Some(m) ==> (r matches Err(e) && e matches ErrorKind::WindowOpError(s)
            && s@ == m@),
{
    match outcome {
        None => Ok(()),
        Some(m) => Err(ErrorKind::WindowOpError(m)),
    }
}

} // verus!

//! Window opacity, in thousandths of full opacity so that the clamping rule
//! is exact integer arithmetic. A request may carry any value; the effective
//! opacity actually applied is the request clamped to the closed interval
//! [0.3, 1.0], that is [300, 1000] thousandths. Out-of-range requests are
//! clamped, never rejected.

use vstd::prelude::*;

verus! {

/// The least effective opacity, in thousandths (0.3).
pub const MIN_OPACITY_MILLIS: i64 = 300;

/// The greatest effective opacity, in thousandths (1.0, fully opaque).
pub const MAX_OPACITY_MILLIS: i64 = 1000;

/// The effective opacity for a requested opacity: the request clamped to
/// [`MIN_OPACITY_MILLIS`, `MAX_OPACITY_MILLIS`].
pub open spec fn effective_spec(requested: int) -> int {
    if requested < MIN_OPACITY_MILLIS as int {
        MIN_OPACITY_MILLIS as int
    } else if requested > MAX_OPACITY_MILLIS as int {
        MAX_OPACITY_MILLIS as int
    } else {
        requested
    }
}

/// Clamp a requested opacity to the effective range.
pub fn effective_opacity(requested: i64) -> (r: i64)
    ensures
        r as int == effective_spec(requested as int),
        MIN_OPACITY_MILLIS <= r <= MAX_OPACITY_MILLIS,
        MIN_OPACITY_MILLIS <= requested <= MAX_OPACITY_MILLIS ==> r == requested,
{
    if requested < MIN_OPACITY_MILLIS {
        MIN_OPACITY_MILLIS
    } else if requested > MAX_OPACITY_MILLIS {
        MAX_OPACITY_MILLIS
    } else {
        requested
    }
}

/// Law: every effective opacity lies in [0.3, 1.0], and a request already in
/// that range is applied unchanged.
pub proof fn lemma_effective_opacity_bounds(requested: int)
    ensures
        MIN_OPACITY_MILLIS as int <= effective_spec(requested) <= MAX_OPACITY_MILLIS as int,
        MIN_OPACITY_MILLIS as int <= requested <= MAX_OPACITY_MILLIS as int
            ==> effective_spec(requested) == requested,
{
}

/// Decide what an opacity command applies to the window: the clamped value
/// where the platform supports native opacity control, and nothing — a
/// deliberate no-op reported as success — where it does not.
pub fn opacity_request(requested: i64, native_supported: bool) -> (r: Option<i64>)
    ensures
        native_supported ==> (r matches Some(v) && v as int == effective_spec(
            requested as int,
        )),
        !native_supported ==> r is None,
{
    if native_supported {
        Some(effective_opacity(requested))
    } else {
        None
    }
}

} // verus!

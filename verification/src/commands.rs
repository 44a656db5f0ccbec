//! The command surface itself, over plain values. The host runtime does the
//! filesystem reads and hands their outcome in; each command here turns that
//! outcome into exactly the payload or error the caller is owed.

use vstd::prelude::*;

use crate::error::ErrorKind;
use crate::payload::base64_of;
use crate::payload::encode_payload;

verus! {

/// The placeholder width that `image_info_from_open` reports.
pub const PLACEHOLDER_WIDTH: u32 = 800;

/// The placeholder height that `image_info_from_open` reports.
pub const PLACEHOLDER_HEIGHT: u32 = 600;

/// Load an image for display, given the outcome of reading its file: the
/// file's bytes, or the read error's description. Succeeds exactly when the
/// read did, with the bytes encoded as a text-safe payload; fails with an
/// `IoError` carrying the read error's description otherwise. All-or-nothing:
/// no partial payload exists.
///
/// The precondition is the machine limit alone: the payload, four characters
/// for every three bytes, must have a length representable in `usize`.
pub fn load_image_from_read(read: Result<Vec<u8>, String>) -> (r: Result<String, ErrorKind>)
    requires
        read matches Ok(bytes) ==> 4 * ((bytes@.len() + 2) / 3) <= usize::MAX,
    ensures
        read matches Ok(bytes) ==> (r matches Ok(p) && p@ == base64_of(bytes@)),
        read matches Err(m) ==> (r matches Err(e) && e matches ErrorKind::IoError(s) && s@
            == m@),
{
    match read {
        Ok(bytes) => Ok(encode_payload(&bytes)),
        Err(m) => Err(ErrorKind::IoError(m)),
    }
}

/// Report an image's dimensions, given the outcome of opening its file: fails
/// with an `IoError` carrying the open error's description when the file
/// could not be opened, and otherwise returns the fixed placeholder
/// dimensions 800×600 whatever the file holds — the deliberate stub contract,
/// kept rather than replaced by real header parsing.
pub fn image_info_from_open(open: Result<(), String>) -> (r: Result<(u32, u32), ErrorKind>)
    ensures
        open is Ok ==> r == Result::<(u32, u32), ErrorKind>::Ok((PLACEHOLDER_WIDTH,
        PLACEHOLDER_HEIGHT)),
        open matches Err(m) ==> (r matches Err(e) && e matches ErrorKind::IoError(s) && s@
            == m@),
{
    match open {
        Ok(()) => Ok((PLACEHOLDER_WIDTH, PLACEHOLDER_HEIGHT)),
        Err(m) => Err(ErrorKind::IoError(m)),
    }
}

/// Greet a caller by name, exactly as the sample command does.
pub fn greet(name: &str) -> (r: String)
    ensures
        r@ == "Hello, "@ + name@ + "! You've been greeted from Rust!"@,
{
    let mut s = String::from_str("Hello, ");
    s.append(name);
    s.append("! You've been greeted from Rust!");
    s
}

} // verus!

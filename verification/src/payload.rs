//! The file-to-display pipeline: raw file bytes become a text-safe payload
//! through the standard radix-64 encoding, and the payload decodes back to
//! exactly the original bytes. The encoding itself is done by the `base64`
//! crate; its two calls stand behind trusted wrappers, and everything the
//! library states about payloads is phrased over the encoding's name,
//! [`base64_of`].

use vstd::prelude::*;

verus! {

/// The standard radix-64 encoding (with padding) of a byte sequence, as a
/// sequence of characters. What the encoding is on given bytes is left to the
/// `base64` crate; the library states only how its functions relate to it.
pub uninterp spec fn base64_of(b: Seq<u8>) -> Seq<char>;

/// Relies on `base64::engine::general_purpose::STANDARD`'s `encode`: the
/// output is a function of the input bytes alone, and the same engine's
/// `decode` accepts it and returns the input bytes. The length bound keeps
/// the engine's internal output-size computation from overflowing, the one
/// condition under which `encode` panics.
#[verifier::external_body]
fn b64_encode(bytes: &[u8]) -> (r: String)
    requires
        4 * ((bytes@.len() + 2) / 3) <= usize::MAX,
    ensures
        r@ == base64_of(bytes@),
{
    base64::Engine::encode(&base64::engine::general_purpose::STANDARD, bytes)
}

/// What decoding a payload returns: the bytes whose encoding the payload is,
/// where there are such bytes, and nothing otherwise.
pub open spec fn decodes_to(payload: Seq<char>, r: Option<Vec<u8>>) -> bool {
    &&& (r matches Some(v) ==> payload == base64_of(v@))
    &&& forall|b: Seq<u8>| payload == base64_of(b) ==> (r matches Some(v) && v@ == b)
}

/// Relies on `base64::engine::general_purpose::STANDARD`'s `decode`: it
/// inverts `encode`, and — since this engine requires canonical padding and
/// rejects nonzero trailing bits — it accepts exactly the strings that
/// `encode` produces, failing on every other input.
#[verifier::external_body]
fn b64_decode(payload: &str) -> (r: Option<Vec<u8>>)
    ensures
        decodes_to(payload@, r),
{
    match base64::Engine::decode(&base64::engine::general_purpose::STANDARD, payload) {
        Ok(v) => Some(v),
        Err(_) => None,
    }
}

/// Encode file bytes as a text-safe payload suitable for a data URI.
///
/// The precondition is the machine limit alone: the encoded form, four
/// characters for every three bytes, must have a length representable in
/// `usize`.
pub fn encode_payload(bytes: &Vec<u8>) -> (r: String)
    requires
        4 * ((bytes@.len() + 2) / 3) <= usize::MAX,
    ensures
        r@ == base64_of(bytes@),
{
    b64_encode(bytes.as_slice())
}

/// Decode a payload back to bytes: the inverse of [`encode_payload`].
/// Returns `Some` exactly on the strings that the encoding produces.
pub fn decode_payload(payload: &str) -> (r: Option<Vec<u8>>)
    ensures
        decodes_to(payload@, r),
        r is None ==> forall|b: Seq<u8>| payload@ != base64_of(b),
{
    b64_decode(payload)
}

/// Law: encoding bytes and decoding the result reproduces the bytes exactly.
pub fn payload_round_trip(bytes: &Vec<u8>) -> (r: Vec<u8>)
    requires
        4 * ((bytes@.len() + 2) / 3) <= usize::MAX,
    ensures
        r@ == bytes@,
{
    let encoded = encode_payload(bytes);
    match decode_payload(encoded.as_str()) {
        Some(v) => v,
        None => {
            proof {
                assert(false);
            }
            Vec::new()
        },
    }
}

} // verus!

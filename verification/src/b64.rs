//! Base64 at the call boundary: the database travels as standard base64 text
//! between the UI and the engine.

use vstd::prelude::*;
use base64::Engine;

verus! {

/// What the standard padded base64 encoding returns for a given input; the
/// text depends on the input bytes alone.
pub uninterp spec fn b64_of(bytes: Seq<u8>) -> Seq<char>;

/// Relies on `base64::engine::general_purpose::STANDARD.encode`: the output
/// is a pure function of the input, four characters for every three input
/// bytes, padded.
#[verifier::external_body]
pub fn b64_encode(bytes: &Vec<u8>) -> (r: String)
    ensures
        r@ == b64_of(bytes@),
        r@.len() == 4 * ((bytes@.len() + 2) / 3),
{
    base64::engine::general_purpose::STANDARD.encode(bytes)
}

/// Relies on `base64::engine::general_purpose::STANDARD.decode`: the engine
/// requires canonical padding and rejects non-canonical trailing bits, so a
/// decode succeeds exactly on the canonical encoding of its result, and
/// decoding an encoding returns the encoded bytes.
#[verifier::external_body]
pub fn b64_decode(text: &str) -> (r: Result<Vec<u8>, ()>)
    ensures
        r is Ok ==> text@ == b64_of(r->Ok_0@),
        forall|bs: Seq<u8>| text@ == b64_of(bs) ==> r is Ok && r->Ok_0@ == bs,
{
    base64::engine::general_purpose::STANDARD.decode(text.as_bytes()).map_err(|_| ())
}

} // verus!

//! Content hashing: SHA-256 of a byte buffer rendered as lowercase hex, the
//! content identity used for change detection, state files and quarantine
//! names.

use vstd::prelude::*;
use sha2::Digest;
use crate::text::digit_char;

verus! {

/// What the SHA-256 function returns for a given input; the digest depends on
/// the input bytes alone.
pub uninterp spec fn sha256_of(bytes: Seq<u8>) -> Seq<u8>;

/// Relies on `sha2::Sha256` (via the `Digest` trait): the digest is a pure
/// function of the input bytes and is 32 bytes long.
#[verifier::external_body]
fn sha256_digest(bytes: &Vec<u8>) -> (r: Vec<u8>)
    ensures
        r@ == sha256_of(bytes@),
        r@.len() == 32,
{
    sha2::Sha256::digest(bytes).to_vec()
}

/// The character for one hex nibble, lowercase.
pub open spec fn hex_digit_char(d: int) -> char {
    if d < 10 {
        digit_char(d)
    } else {
        ((d + 87) as u8) as char
    }
}

/// Lowercase hex rendering of a byte sequence: two digits per byte, high
/// nibble first.
pub open spec fn hex_of(bytes: Seq<u8>) -> Seq<char> {
    Seq::new(
        2 * bytes.len(),
        |i: int|
            if i % 2 == 0 {
                hex_digit_char(bytes[i / 2] as int / 16)
            } else {
                hex_digit_char(bytes[i / 2] as int % 16)
            },
    )
}

/// Relies on `hex::encode`: two lowercase hex digits per input byte, high
/// nibble first.
#[verifier::external_body]
fn hex_encode(bytes: &Vec<u8>) -> (r: String)
    ensures
        r@ == hex_of(bytes@),
{
    hex::encode(bytes)
}

/// A lowercase hex digit.
pub open spec fn is_lower_hex(c: char) -> bool {
    ('0' <= c && c <= '9') || ('a' <= c && c <= 'f')
}

/// Every character of a hex rendering is a lowercase hex digit, and the
/// rendering is ASCII.
pub proof fn lemma_hex_of_chars(bytes: Seq<u8>)
    ensures
        hex_of(bytes).len() == 2 * bytes.len(),
        forall|i: int| 0 <= i < hex_of(bytes).len() ==> is_lower_hex(#[trigger] hex_of(bytes)[i]),
        vstd::utf8::is_ascii_chars(hex_of(bytes)),
{
    assert forall|i: int| 0 <= i < hex_of(bytes).len() implies is_lower_hex(
        #[trigger] hex_of(bytes)[i],
    ) by {
        let b = bytes[i / 2] as int;
        assert(0 <= b < 256);
        if i % 2 == 0 {
            assert(0 <= b / 16 < 16);
        } else {
            assert(0 <= b % 16 < 16);
        }
    }
    assert forall|i: int| 0 <= i < hex_of(bytes).len() implies (#[trigger] hex_of(
        bytes,
    )[i] as u32) < 128 by {
        assert(is_lower_hex(hex_of(bytes)[i]));
    }
}

/// The content identity of a byte buffer: its SHA-256 digest in lowercase
/// hex.
pub open spec fn sha256_hex_of(bytes: Seq<u8>) -> Seq<char> {
    hex_of(sha256_of(bytes))
}

/// Hashes a byte buffer and renders the digest as 64 lowercase hex
/// characters.
pub fn sha256_hex(bytes: &Vec<u8>) -> (r: String)
    ensures
        r@ == sha256_hex_of(bytes@),
        r@.len() == 64,
        forall|i: int| 0 <= i < r@.len() ==> is_lower_hex(#[trigger] r@[i]),
        vstd::utf8::is_ascii_chars(r@),
{
    let d = sha256_digest(bytes);
    let r = hex_encode(&d);
    proof {
        lemma_hex_of_chars(d@);
    }
    r
}

} // verus!

//! The transport policy of the WebDAV client: which HTTP status codes each
//! method accepts, and the Basic authorization header value. The requests
//! themselves are the caller's; every acceptance decision is made here.

use vstd::prelude::*;
use crate::b64::{b64_of, b64_encode};
use crate::text::{push_chars, chars_to_string};
use vstd::string::StringSliceAdditionalSpecFns;
use vstd::string::StrSliceExecFns;

verus! {

/// An HTTP success status.
pub open spec fn is_http_success(status: int) -> bool {
    200 <= status < 300
}

/// A collection creation succeeds on created or on already-exists.
pub fn mkcol_ok(status: u16) -> (r: bool)
    ensures
        r == (status == 201 || status == 405),
{
    status == 201 || status == 405
}

/// How a read of a remote object ended.
pub enum GetOutcome {
    /// The body is the object's bytes.
    Success,
    /// The object is absent; modeled as absence, not as an error.
    NotFound,
    /// Any other non-success status.
    Failure,
}

/// Classifies a read's status: absent on 404, the body on success, an error
/// otherwise.
pub fn get_outcome(status: u16) -> (r: GetOutcome)
    ensures
        r is NotFound <==> status == 404,
        r is Success <==> is_http_success(status as int),
        r is Failure <==> !is_http_success(status as int) && status != 404,
{
    if status == 404 {
        GetOutcome::NotFound
    } else if 200 <= status && status < 300 {
        GetOutcome::Success
    } else {
        GetOutcome::Failure
    }
}

/// A write succeeds only on a success status.
pub fn put_ok(status: u16) -> (r: bool)
    ensures
        r == is_http_success(status as int),
{
    200 <= status && status < 300
}

/// A move succeeds only on a success status.
pub fn move_ok(status: u16) -> (r: bool)
    ensures
        r == is_http_success(status as int),
{
    200 <= status && status < 300
}

/// A delete succeeds on a success status and on absence (idempotent).
pub fn delete_ok(status: u16) -> (r: bool)
    ensures
        r == (status == 404 || is_http_success(status as int)),
{
    status == 404 || (200 <= status && status < 300)
}

/// The Basic authorization header value for a user and a password: the word
/// `Basic`, a space, and the base64 of `user:pass` in UTF-8.
pub fn basic_auth_header(user: &str, pass: &str) -> (r: String)
    ensures
        r@ == "Basic "@ + b64_of(vstd::utf8::encode_utf8(user@ + seq![':'] + pass@)),
{
    let mut v: Vec<char> = Vec::new();
    push_chars(&mut v, user);
    v.push(':');
    push_chars(&mut v, pass);
    assert(v@ =~= user@ + seq![':'] + pass@);
    let joined = chars_to_string(&v);
    let bytes = joined.as_str().as_bytes_vec();
    let encoded = b64_encode(&bytes);
    let mut out: Vec<char> = Vec::new();
    push_chars(&mut out, "Basic ");
    push_chars(&mut out, encoded.as_str());
    chars_to_string(&out)
}

} // verus!

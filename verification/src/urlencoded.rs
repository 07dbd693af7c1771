//! Decoding of `application/x-www-form-urlencoded` payloads.
//!
//! The decoding itself is done by the `serde_urlencoded` crate. This module
//! is the boundary to it: what is stated here about the decoder is taken on
//! trust, everything built on top of it is proved.

use vstd::prelude::*;

verus! {

/// The error with which `serde_urlencoded` refuses a payload.
#[verifier::external_type_specification]
#[verifier::external_body]
pub struct ExDecodeError(serde_urlencoded::de::Error);

/// The decoded `(key, value)` pairs of a payload, in the order in which they
/// appear in it, or `None` for a payload that the decoder refuses.
///
/// This names the result of `serde_urlencoded::from_bytes` at the type
/// `Vec<(String, String)>`; it depends on the bytes alone.
pub uninterp spec fn urlencoded_pairs(body: Seq<u8>) -> Option<Seq<(Seq<char>, Seq<char>)>>;

/// Calls `serde_urlencoded::from_bytes::<Vec<(String, String)>>`.
///
/// Trusted: the pairs that come back are the ones named by
/// [`urlencoded_pairs`], an error comes back exactly when that is `None`, and
/// a payload of length zero decodes to no pairs at all (the decoder's
/// iterator ends at once on empty input).
#[verifier::external_body]
pub(crate) fn decode_pairs(body: &[u8]) -> (decoded: Result<
    Vec<(String, String)>,
    serde_urlencoded::de::Error,
>)
    ensures
        match decoded {
            Ok(pairs) => urlencoded_pairs(body@) == Some(pairs.deep_view()),
            Err(_) => urlencoded_pairs(body@) is None,
        },
        body@.len() == 0 ==> decoded is Ok && decoded->Ok_0@.len() == 0,
{
    serde_urlencoded::from_bytes::<Vec<(String, String)>>(body)
}

} // verus!

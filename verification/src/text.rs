//! Turning decrypted bytes back into text.
use vstd::prelude::*;
use vstd::utf8::{decode_utf8, valid_utf8};

verus! {

/// The text that `String::from_utf8_lossy` makes of bytes that are not valid UTF-8:
/// each invalid sequence becomes U+FFFD.
pub uninterp spec fn utf8_repaired(bytes: Seq<u8>) -> Seq<char>;

/// The text that `String::from_utf8_lossy` makes of `bytes`: their decoding when they
/// are valid UTF-8, the repaired text otherwise.
pub open spec fn utf8_lossy(bytes: Seq<u8>) -> Seq<char> {
    if valid_utf8(bytes) {
        decode_utf8(bytes)
    } else {
        utf8_repaired(bytes)
    }
}

/// Calls `String::from_utf8_lossy`. Claimed: valid UTF-8 is decoded as it is (as std
/// documents); other input gives the named repaired text.
#[verifier::external_body]
pub(crate) fn decode_lossy(bytes: &[u8]) -> (s: String)
    ensures
        valid_utf8(bytes@) ==> s@ == decode_utf8(bytes@),
        !valid_utf8(bytes@) ==> s@ == utf8_repaired(bytes@),
{
    String::from_utf8_lossy(bytes).into_owned()
}

/// The text of the error that `String::from_utf8` reports for `bytes` (its `Display`).
pub uninterp spec fn utf8_error_text(bytes: Seq<u8>) -> Seq<char>;

/// Calls `String::from_utf8` and, on failure, formats its error. Claimed: it succeeds
/// exactly on valid UTF-8 and then holds the decoded characters (as std documents);
/// otherwise the error text is the named one.
#[verifier::external_body]
pub(crate) fn decode_strict(bytes: Vec<u8>) -> (s: Result<String, String>)
    ensures
        s is Ok <==> valid_utf8(bytes@),
        s matches Ok(t) ==> t@ == decode_utf8(bytes@),
        s matches Err(e) ==> e@ == utf8_error_text(bytes@),
{
    String::from_utf8(bytes).map_err(|e| e.to_string())
}

} // verus!

//! UTF-8 validation of guest-supplied bytes.
use vstd::prelude::*;

use vstd::utf8::{decode_utf8, valid_utf8};

verus! {

/// `std::str::from_utf8`: the bytes as a string slice when they are valid
/// UTF-8, `None` otherwise.  Trusted: the contract claims that std's notion
/// of valid UTF-8 is vstd's `valid_utf8` and that the characters of the
/// result are those that `decode_utf8` reads from the bytes.
#[verifier::external_body]
pub(crate) fn str_from_utf8(bytes: &[u8]) -> (r: Option<&str>)
    ensures
        r is Some <==> valid_utf8(bytes@),
        r matches Some(s) ==> s@ == decode_utf8(bytes@),
{
    std::str::from_utf8(bytes).ok()
}

/// The bytes as an owned string when they are valid UTF-8.
pub fn utf8_string(bytes: &[u8]) -> (r: Option<String>)
    ensures
        r is Some <==> valid_utf8(bytes@),
        r matches Some(s) ==> s@ == decode_utf8(bytes@),
{
    match str_from_utf8(bytes) {
        Some(s) => Some(s.to_owned()),
        None => None,
    }
}

} // verus!

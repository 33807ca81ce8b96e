//! Text from bytes. The two conversions are std's; their contracts are
//! stated here and not proved.

use vstd::prelude::*;
use vstd::utf8::{decode_utf8, valid_utf8};

verus! {

/// The text that `String::from_utf8_lossy` makes of `bytes`: each
/// ill-formed part replaced by U+FFFD.
pub uninterp spec fn lossy_text(bytes: Seq<u8>) -> Seq<char>;

/// Calls `String::from_utf8`. Assumed: it accepts exactly the well-formed
/// UTF-8 sequences, and the accepted string holds the decoded characters.
#[verifier::external_body]
pub(crate) fn string_from_utf8(bytes: Vec<u8>) -> (out: Option<String>)
    ensures
        out is Some <==> valid_utf8(bytes@),
        out matches Some(s) ==> s@ == decode_utf8(bytes@),
{
    String::from_utf8(bytes).ok()
}

/// Calls `String::from_utf8_lossy`. Assumed: the result depends on the bytes
/// alone, and well-formed input is decoded unchanged.
#[verifier::external_body]
pub(crate) fn string_from_utf8_lossy(bytes: &[u8]) -> (out: String)
    ensures
        out@ == lossy_text(bytes@),
        valid_utf8(bytes@) ==> out@ == decode_utf8(bytes@),
{
    String::from_utf8_lossy(bytes).into_owned()
}

} // verus!

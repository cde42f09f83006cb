//! The wall clock that stamps inserted documents.

use vstd::prelude::*;

verus! {

/// `text` names a time in UTC: it ends in ` UTC`.
pub open spec fn is_utc_text(text: Seq<char>) -> bool {
    &&& text.len() >= 4
    &&& text.subrange(text.len() - 4, text.len() as int) == " UTC"@
}

/// `chrono::Utc::now`, written out by the `Display` of `chrono::DateTime`: the
/// current UTC time as text such as `2024-05-01 12:30:00.123456789 UTC`.
/// Every call reads the system clock, so of the text only its ending is
/// stated: the time zone's name, `UTC`, after a space.
/// `chrono` gives up on a system clock that is set before 1970.
#[verifier::external_body]
pub(crate) fn utc_now_text() -> (r: String)
    ensures
        is_utc_text(r@),
{
    chrono::Utc::now().to_string()
}

} // verus!

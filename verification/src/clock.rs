//! The wall clock, as the fetcher reads it.

use vstd::prelude::*;

verus! {

/// Whether a text has the shape of a time in UTC written in RFC 3339 form:
/// at least the 25 characters of a date, a time of day and an offset, the
/// last six of them the offset `+00:00`.
pub open spec fn spec_is_utc_stamp(text: Seq<char>) -> bool {
    &&& text.len() >= 25
    &&& text.subrange(text.len() - 6, text.len() as int) == seq!['+', '0', '0', ':', '0', '0']
}

/// The current time in UTC, written in RFC 3339 form.
///
/// The system clock is read with `SystemTime::now` and handed to the
/// `chrono` crate: its conversion of a `SystemTime` to a `DateTime<Utc>`,
/// which also takes a clock that stands before 1970, and its `to_rfc3339`,
/// which writes the date, `T`, the time of day, a fraction of the second
/// where there is one, and the offset. Only the shape of the text is
/// claimed, since the text itself changes from one call to the next: the
/// year takes at least four characters, the rest of date and time fifteen,
/// and the offset of UTC is always written `+00:00`.
#[verifier::external_body]
pub(crate) fn utc_now_rfc3339() -> (r: String)
    ensures
        spec_is_utc_stamp(r@),
{
    chrono::DateTime::<chrono::Utc>::from(std::time::SystemTime::now()).to_rfc3339()
}

} // verus!

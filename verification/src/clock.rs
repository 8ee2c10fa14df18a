use vstd::prelude::*;
use crate::text::is_digit;

verus! {

/// The first moment that has no year of four digits: the start of the year 10000, in
/// milliseconds since the Unix epoch.
pub const STAMP_LIMIT: i64 = 253_402_300_800_000;

/// Whether a moment, in milliseconds since the Unix epoch, lies in the years 1970 to 9999:
/// the moments that the stamps below are made for.
pub open spec fn in_stamp_range(millis: int) -> bool {
    0 <= millis < 253_402_300_800_000
}

/// The moment in the years 1970 to 9999 that is nearest to `millis`.
pub open spec fn nearest_in_range(millis: int) -> int {
    if millis < 0 {
        0
    } else if millis >= 253_402_300_800_000 {
        253_402_300_800_000 - 1
    } else {
        millis
    }
}

/// The name that a cache file written at `millis` gets, as chrono formats it: year, month,
/// day, hour, minute and second of the moment in UTC.
pub uninterp spec fn stamp_of(millis: int) -> Seq<char>;

/// The moment `millis` in the notation of RFC 2822, as chrono formats it in UTC.
pub uninterp spec fn rfc2822_of(millis: int) -> Seq<char>;

/// The shape of the name of a timestamped cache file: `YYYY-MM-DD_HH-MM-SS`.
pub open spec fn is_file_stamp(text: Seq<char>) -> bool {
    &&& text.len() == 19
    &&& forall|i: int|
        0 <= i < 19 ==> if i == 4 || i == 7 || i == 13 || i == 16 {
            #[trigger] text[i] == '-'
        } else if i == 10 {
            text[i] == '_'
        } else {
            is_digit(text[i])
        }
}

/// The shape that every timestamp of a record has: 30 or 31 characters, a comma after the
/// day of the week, and the offset of UTC at the end.
pub open spec fn is_record_stamp(text: Seq<char>) -> bool {
    &&& 30 <= text.len() <= 31
    &&& text[3] == ','
    &&& text.subrange(text.len() - 6, text.len() as int) == " +0000"@
}

/// The moment in the years 1970 to 9999 that is nearest to `now`.
pub fn clamp_to_range(now: i64) -> (r: i64)
    ensures
        r == nearest_in_range(now as int),
        in_stamp_range(r as int),
{
    if now < 0 {
        0
    } else if now >= STAMP_LIMIT {
        STAMP_LIMIT - 1
    } else {
        now
    }
}

/// Calls chrono's `Utc::now` and `DateTime::timestamp_millis`: the current time in
/// milliseconds since the Unix epoch. The result depends on the clock, so nothing is claimed
/// of it. On a machine whose clock stands before 1970 `Utc::now` unwinds; that is a state of
/// the machine that no caller can rule out.
#[verifier::external_body]
pub(crate) fn now_millis() -> (r: i64) {
    chrono::Utc::now().timestamp_millis()
}

/// Calls chrono's `DateTime::from_timestamp_millis` and `DateTime::format` with the pattern
/// of cache file names. The result is named `stamp_of`. For a moment in the years 1970 to
/// 9999 chrono writes the year with four digits and every other part with two, so the result
/// has the shape `YYYY-MM-DD_HH-MM-SS`; other moments are left out.
#[verifier::external_body]
pub(crate) fn file_stamp(millis: i64) -> (r: String)
    requires
        in_stamp_range(millis as int),
    ensures
        r@ == stamp_of(millis as int),
        is_file_stamp(r@),
{
    let moment = chrono::DateTime::from_timestamp_millis(millis).unwrap();
    moment.format("%Y-%m-%d_%H-%M-%S").to_string()
}

/// Calls chrono's `DateTime::from_timestamp_millis` and `DateTime::to_rfc2822`. The result is
/// named `rfc2822_of`. chrono writes the day of the week, a comma, the day with one or two
/// digits, the month, the year with four digits, the time and the offset `+0000`. It unwinds
/// for a year of more than four digits; those moments are left out.
#[verifier::external_body]
pub(crate) fn rfc2822(millis: i64) -> (r: String)
    requires
        in_stamp_range(millis as int),
    ensures
        r@ == rfc2822_of(millis as int),
        is_record_stamp(r@),
{
    chrono::DateTime::from_timestamp_millis(millis).unwrap().to_rfc2822()
}

} // verus!

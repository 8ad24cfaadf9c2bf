//! The current time in UTC, as text, from the `chrono` crate.

use vstd::prelude::*;

verus! {

/// The pattern of the timestamp in a dump's file name: year, month and day,
/// then hour, minute and second, as `YYYY-MM-DD-HHMMSS`.
pub open spec fn timestamp_pattern() -> Seq<char> {
    "%Y-%m-%d-%H%M%S"@
}

/// `c` is one of the ten decimal digits.
pub open spec fn is_digit(c: char) -> bool {
    '0' as int <= c as int <= '9' as int
}

/// The characters of `text` from `from` up to, not including, `to` are digits.
pub open spec fn all_digits(text: Seq<char>, from: int, to: int) -> bool {
    forall|k: int| from <= k < to ==> is_digit(#[trigger] text[k])
}

/// `text` is a year from 1970 on: four digits up to the year 9999, and
/// beyond it a `'+'` followed by five digits or more.
pub open spec fn is_year(text: Seq<char>) -> bool {
    ||| text.len() == 4 && all_digits(text, 0, 4)
    ||| text.len() >= 6 && text[0] == '+' && all_digits(text, 1, text.len() as int)
}

/// `text` is a timestamp of the form `YYYY-MM-DD-HHMMSS`: a year, then
/// thirteen characters that hold month, day, hour, minute and second with two
/// digits each.
pub open spec fn is_timestamp(text: Seq<char>) -> bool {
    let year_end = text.len() - 13;
    &&& 4 <= year_end
    &&& is_year(text.subrange(0, year_end))
    &&& text[year_end] == '-'
    &&& all_digits(text, year_end + 1, year_end + 3)
    &&& text[year_end + 3] == '-'
    &&& all_digits(text, year_end + 4, year_end + 6)
    &&& text[year_end + 6] == '-'
    &&& all_digits(text, year_end + 7, year_end + 13)
}

/// Calls `chrono::Utc::now()`, formats the result with `DateTime::format` and
/// turns it into a `String`.
///
/// Which time the text tells depends on the clock; its form does not. For
/// this pattern `chrono` writes the year with four digits, or with a sign and
/// more digits beyond the year 9999, and month, day, hour, minute and second
/// with two digits each, zero-padded, with the pattern's `'-'` between them.
/// `chrono` fails to format a pattern it cannot parse, which is why only the
/// one pattern this library uses is admitted. `Utc::now()` itself panics only
/// where the system clock lies before 1970, so the year is no earlier.
#[verifier::external_body]
pub(crate) fn utc_now_formatted(pattern: &str) -> (text: String)
    requires
        pattern@ == timestamp_pattern(),
    ensures
        is_timestamp(text@),
{
    chrono::Utc::now().format(pattern).to_string()
}

} // verus!

//! Names for uploaded files, made from the local time.

use vstd::prelude::*;
use vstd::string::StringExecFns;

verus! {

/// Whether `c` is one of `0`-`9`.
pub open spec fn is_digit(c: char) -> bool {
    '0' <= c && c <= '9'
}

/// Whether `text` is one or more decimal digits.
pub open spec fn is_digits(text: Seq<char>) -> bool {
    text.len() > 0 && forall|i: int| 0 <= i < text.len() ==> is_digit(#[trigger] text[i])
}

/// Whether `text` is exactly two decimal digits.
pub open spec fn is_digit_pair(text: Seq<char>) -> bool {
    text.len() == 2 && is_digits(text)
}

/// Whether `text` is a year as the time library writes it: four digits for
/// the years 0 to 9999, and a sign followed by four digits or more for any
/// other year.
pub open spec fn is_year_text(text: Seq<char>) -> bool {
    (text.len() == 4 && is_digits(text)) || (text.len() >= 5 && (text[0] == '+' || text[0] == '-')
        && is_digits(text.skip(1)))
}

/// A time stamp put together from its six fields.
pub open spec fn stamp_text(
    year: Seq<char>,
    month: Seq<char>,
    day: Seq<char>,
    hour: Seq<char>,
    minute: Seq<char>,
    second: Seq<char>,
) -> Seq<char> {
    year + seq!['-'] + month + seq!['-'] + day + seq!['_'] + hour + seq!['-'] + minute + seq!['-']
        + second
}

/// Whether `text` is a time stamp of the local clock: a year, then month,
/// day, hour, minute and second with two digits each.
pub open spec fn is_local_stamp(text: Seq<char>) -> bool {
    exists|
        year: Seq<char>,
        month: Seq<char>,
        day: Seq<char>,
        hour: Seq<char>,
        minute: Seq<char>,
        second: Seq<char>,
    |
        {
            &&& is_year_text(year)
            &&& is_digit_pair(month)
            &&& is_digit_pair(day)
            &&& is_digit_pair(hour)
            &&& is_digit_pair(minute)
            &&& is_digit_pair(second)
            &&& text == #[trigger] stamp_text(year, month, day, hour, minute, second)
        }
}

/// The format of the time stamp in a file name.
pub open spec fn stamp_format() -> Seq<char> {
    "%Y-%m-%d_%H-%M-%S"@
}

/// The file name for a time stamp.
pub open spec fn file_name_text(stamp: Seq<char>) -> Seq<char> {
    "bin_resp_"@ + stamp + ".json"@
}

/// Whether `name` is the file name for some time stamp of the local clock.
pub open spec fn is_generated_name(name: Seq<char>) -> bool {
    exists|stamp: Seq<char>| is_local_stamp(stamp) && name == #[trigger] file_name_text(stamp)
}

/// Whether `name` has the form
/// `bin_resp_<digits>-<digits>-<digits>_<digits>-<digits>-<digits>.json`.
pub open spec fn matches_name_pattern(name: Seq<char>) -> bool {
    exists|
        year: Seq<char>,
        month: Seq<char>,
        day: Seq<char>,
        hour: Seq<char>,
        minute: Seq<char>,
        second: Seq<char>,
    |
        {
            &&& is_digits(year)
            &&& is_digits(month)
            &&& is_digits(day)
            &&& is_digits(hour)
            &&& is_digits(minute)
            &&& is_digits(second)
            &&& name == file_name_text(
                #[trigger] stamp_text(year, month, day, hour, minute, second),
            )
        }
}

/// Calls `chrono::Local::now`, formats the time with `DateTime::format` and
/// collects the text. Trusted, of every reading of the clock: with the
/// format of a time stamp, the year comes out as four digits (with a sign and
/// possibly more digits outside the years 0 to 9999) and each other field as
/// two digits, separated as the format says. The call panics only where the
/// system clock stands before 1970 or beyond the dates that `chrono` holds.
#[verifier::external_body]
fn local_time_text(format: &str) -> (text: String)
    requires
        format@ == stamp_format(),
    ensures
        is_local_stamp(text@),
{
    chrono::Local::now().format(format).to_string()
}

/// The file name for the time stamp `stamp`.
pub fn file_name_for(stamp: &str) -> (name: String)
    ensures
        name@ == file_name_text(stamp@),
{
    let mut name = String::from_str("bin_resp_");
    name.append(stamp);
    name.append(".json");
    name
}

/// A file name for the present moment, to the second, by the local clock.
/// Calls within one second can give the same name. While the clock stands
/// in the years 0 to 9999 the name has the form
/// `bin_resp_<digits>-<digits>-<digits>_<digits>-<digits>-<digits>.json`.
pub fn generate_file_name() -> (name: String)
    ensures
        is_generated_name(name@),
        is_digit(name@[9]) ==> matches_name_pattern(name@),
{
    let stamp = local_time_text("%Y-%m-%d_%H-%M-%S");
    let name = file_name_for(stamp.as_str());
    proof {
        if is_digit(name@[9]) {
            lemma_generated_name_matches_pattern(name@);
        }
    }
    name
}

/// A generated name whose year is written without a sign, as it is for the
/// years 0 to 9999, has the form
/// `bin_resp_<digits>-<digits>-<digits>_<digits>-<digits>-<digits>.json`.
/// The year begins at the tenth character of the name.
pub proof fn lemma_generated_name_matches_pattern(name: Seq<char>)
    requires
        is_generated_name(name),
        is_digit(name[9]),
    ensures
        matches_name_pattern(name),
{
    reveal_strlit("bin_resp_");
    let stamp = choose|stamp: Seq<char>| is_local_stamp(stamp) && name == file_name_text(stamp);
    let (year, month, day, hour, minute, second) = choose|
        year: Seq<char>,
        month: Seq<char>,
        day: Seq<char>,
        hour: Seq<char>,
        minute: Seq<char>,
        second: Seq<char>,
    |
        {
            &&& is_year_text(year)
            &&& is_digit_pair(month)
            &&& is_digit_pair(day)
            &&& is_digit_pair(hour)
            &&& is_digit_pair(minute)
            &&& is_digit_pair(second)
            &&& stamp == #[trigger] stamp_text(year, month, day, hour, minute, second)
        };
    assert(stamp[0] == year[0]);
    assert(name[9] == stamp[0]);
    assert(is_digits(year));
}

} // verus!

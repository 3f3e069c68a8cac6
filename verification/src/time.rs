//! Calendar dates and epochs.
//!
//! Epoch arithmetic itself (leap seconds, time scales) is the business of
//! the `hifitime` crate; an [`hifitime::Epoch`] passes through this module
//! as an opaque value.  What is verified here is everything around it: the
//! calendar validity rules, the exact text of the truncated date string the
//! visibility container embeds, and the parsing of the start-date string a
//! metafits file carries.

use vstd::prelude::*;

use crate::errors::FormatError;
use crate::numfmt::int_digits;
use crate::numfmt::i64_to_string;
use crate::numfmt::pad2_digits;
use crate::numfmt::u64_to_string_pad2;

verus! {

#[verifier::external_type_specification]
#[verifier::external_body]
pub struct ExEpoch(hifitime::Epoch);

/// Whether `year` is a Gregorian leap year.
pub open spec fn leap_year(year: int) -> bool {
    (year % 4 == 0 && year % 100 != 0) || year % 400 == 0
}

/// The number of days of `month` (1-based) in `year`.
pub open spec fn days_in_month(year: int, month: int) -> int {
    if month == 2 {
        if leap_year(year) {
            29
        } else {
            28
        }
    } else if month == 4 || month == 6 || month == 9 || month == 11 {
        30
    } else {
        31
    }
}

/// A calendar date and time-of-day that the epoch library accepts.
pub open spec fn valid_gregorian(
    year: int,
    month: int,
    day: int,
    hour: int,
    minute: int,
    second: int,
) -> bool {
    &&& 1 <= month <= 12
    &&& 1 <= day <= days_in_month(year, month)
    &&& 0 <= hour <= 23
    &&& 0 <= minute <= 59
    &&& 0 <= second <= 59
}

/// Relies on `hifitime::Epoch::from_gregorian_utc_hms`: builds the epoch of
/// a UTC calendar date.  It panics on dates `is_gregorian_valid` refuses,
/// and its year arithmetic (`365 * (year - 1900)` in 32 bits) overflows
/// far outside the historical range; the precondition rules both out.
#[verifier::external_body]
fn epoch_from_gregorian_utc_hms(
    year: i32,
    month: u8,
    day: u8,
    hour: u8,
    minute: u8,
    second: u8,
) -> hifitime::Epoch
    requires
        0 <= year <= 9999,
        valid_gregorian(year as int, month as int, day as int, hour as int, minute as int, second as int),
{
    hifitime::Epoch::from_gregorian_utc_hms(year, month, day, hour, minute, second)
}

/// The year of an epoch's UTC calendar date, as
/// `hifitime::Epoch::to_gregorian_utc` computes it — a pure function of the
/// epoch alone.
pub uninterp spec fn epoch_utc_year(e: hifitime::Epoch) -> int;

/// The month of an epoch's UTC calendar date, as
/// `hifitime::Epoch::to_gregorian_utc` computes it.
pub uninterp spec fn epoch_utc_month(e: hifitime::Epoch) -> int;

/// The day of an epoch's UTC calendar date, as
/// `hifitime::Epoch::to_gregorian_utc` computes it.
pub uninterp spec fn epoch_utc_day(e: hifitime::Epoch) -> int;

/// Relies on `hifitime::Epoch::to_gregorian_utc`: the UTC calendar parts of
/// an epoch, `(year, month, day, hour, minute, second, nanoseconds)`, a
/// pure function of the epoch named by `epoch_utc_year`, `epoch_utc_month`
/// and `epoch_utc_day`.  Its `compute_gregorian` only produces months 1 to
/// 12; no day range is claimed, because for epochs before the 1900
/// reference its day estimate can run past 31 and saturate the `u8` cast.
#[verifier::external_body]
fn epoch_to_gregorian_utc(e: &hifitime::Epoch) -> (r: (i32, u8, u8, u8, u8, u8, u32))
    ensures
        r.0 == epoch_utc_year(*e),
        r.1 == epoch_utc_month(*e),
        r.2 == epoch_utc_day(*e),
        1 <= r.1 <= 12,
{
    e.to_gregorian_utc()
}

/// The date of `year`-`month`-`day` with the time of day zeroed, in the
/// exact text the container header carries: the month and day are
/// zero-padded to two digits.
pub open spec fn truncated_date_chars(year: int, month: int, day: int) -> Seq<char> {
    int_digits(year) + seq!['-'] + pad2_digits(month as nat) + seq!['-'] + pad2_digits(day as nat)
        + "T00:00:00.0"@
}

/// Renders a calendar date with the hours, minutes and seconds set to 0.
pub fn format_truncated_date(year: i32, month: u8, day: u8) -> (s: String)
    ensures
        s@ == truncated_date_chars(year as int, month as int, day as int),
{
    proof {
        reveal_strlit("-");
    }
    let mut s = i64_to_string(year as i64);
    s.append("-");
    let m = u64_to_string_pad2(month as u64);
    s.append(m.as_str());
    s.append("-");
    let d = u64_to_string_pad2(day as u64);
    s.append(d.as_str());
    s.append("T00:00:00.0");
    s
}

/// From an epoch, the formatted date string: the epoch's UTC calendar
/// date with the hours, minutes and seconds set to 0.
pub fn get_truncated_date_string(epoch: &hifitime::Epoch) -> (s: String)
    ensures
        s@ == truncated_date_chars(
            epoch_utc_year(*epoch),
            epoch_utc_month(*epoch),
            epoch_utc_day(*epoch),
        ),
{
    let (year, month, day, _hour, _minute, _second, _nanos) = epoch_to_gregorian_utc(epoch);
    format_truncated_date(year, month, day)
}

/// A parsed start date.
#[derive(Clone, Copy, Debug, PartialEq, Eq, Structural)]
pub struct DateTime {
    pub year: i32,
    pub month: u8,
    pub day: u8,
    pub hour: u8,
    pub minute: u8,
    pub second: u8,
}

impl DateTime {
    /// The fields form a calendar date and time the epoch library accepts.
    pub open spec fn valid(self) -> bool {
        valid_gregorian(
            self.year as int,
            self.month as int,
            self.day as int,
            self.hour as int,
            self.minute as int,
            self.second as int,
        )
    }
}

pub open spec fn is_digit(c: char) -> bool {
    '0' <= c <= '9'
}

pub open spec fn digit_val(c: char) -> int {
    c as int - '0' as int
}

/// The number encoded by digit characters `s[from..from + width]`.
pub open spec fn digits_value(s: Seq<char>, from: int, width: int) -> int
    decreases width,
{
    if width <= 0 {
        0
    } else {
        digits_value(s, from, width - 1) * 10 + digit_val(s[from + width - 1])
    }
}

pub open spec fn all_digits(s: Seq<char>, from: int, width: int) -> bool {
    forall|j: int| from <= j < from + width ==> is_digit(#[trigger] s[j])
}

/// The shape a metafits start date must have: 19 characters, digits in the
/// date and time fields, the fixed separators in between.
pub open spec fn datetime_shape(s: Seq<char>) -> bool {
    &&& s.len() == 19
    &&& all_digits(s, 0, 4)
    &&& s[4] == '-'
    &&& all_digits(s, 5, 2)
    &&& s[7] == '-'
    &&& all_digits(s, 8, 2)
    &&& s[10] == 'T'
    &&& all_digits(s, 11, 2)
    &&& s[13] == ':'
    &&& all_digits(s, 14, 2)
    &&& s[16] == ':'
    &&& all_digits(s, 17, 2)
}

/// The date encoded by a string of that shape.
pub open spec fn parsed_datetime(s: Seq<char>) -> DateTime {
    DateTime {
        year: digits_value(s, 0, 4) as i32,
        month: digits_value(s, 5, 2) as u8,
        day: digits_value(s, 8, 2) as u8,
        hour: digits_value(s, 11, 2) as u8,
        minute: digits_value(s, 14, 2) as u8,
        second: digits_value(s, 17, 2) as u8,
    }
}

/// `10^n`.
pub open spec fn pow10(n: nat) -> int
    decreases n,
{
    if n == 0 {
        1
    } else {
        10 * pow10((n - 1) as nat)
    }
}

proof fn lemma_pow10_vals()
    ensures
        pow10(0) == 1,
        pow10(1) == 10,
        pow10(2) == 100,
        pow10(3) == 1000,
        pow10(4) == 10000,
{
    assert(pow10(0) == 1);
    assert(pow10(1) == 10);
    assert(pow10(2) == 100);
    assert(pow10(3) == 1000);
    assert(pow10(4) == 10000);
}

/// Reads the digit characters `s[from..from + width]` as a number.
fn parse_digits(s: &str, from: usize, width: usize) -> (r: Option<u32>)
    requires
        from + width <= s@.len() <= usize::MAX,
        width <= 4,
    ensures
        match r {
            Some(v) => {
                &&& all_digits(s@, from as int, width as int)
                &&& v == digits_value(s@, from as int, width as int)
                &&& v < pow10(width as nat)
            },
            None => !all_digits(s@, from as int, width as int),
        },
{
    let mut v: u32 = 0;
    let mut j: usize = 0;
    while j < width
        invariant
            from + width <= s@.len() <= usize::MAX,
            width <= 4,
            j <= width,
            all_digits(s@, from as int, j as int),
            v == digits_value(s@, from as int, j as int),
            v < pow10(j as nat),
        decreases width - j,
    {
        proof {
            assert(pow10(j as nat) <= 1000) by {
                lemma_pow10_vals();
                if j == 0 {
                } else if j == 1 {
                } else if j == 2 {
                } else {
                    assert(j == 3);
                }
            }
        }
        let c = s.get_char(from + j);
        if c < '0' || c > '9' {
            proof {
                assert(!is_digit(s@[from + j]));
            }
            return None;
        }
        let d: u32 = c as u32 - 48;
        proof {
            assert(is_digit(s@[from + j]));
            assert(d == digit_val(s@[from + j]));
            assert(pow10(j as nat + 1) == 10 * pow10(j as nat));
        }
        let ghost j0 = j as nat;
        v = v * 10 + d;
        j = j + 1;
        proof {
            assert(j as nat == j0 + 1);
            assert(digits_value(s@, from as int, j as nat as int) == digits_value(
                s@,
                from as int,
                j0 as int,
            ) * 10 + digit_val(s@[from + j0]));
            assert(v < pow10(j0 + 1));
        }
    }
    Some(v)
}

/// Parses a metafits start-date string, `YYYY-MM-DDTHH:MM:SS`.  Succeeds
/// exactly on strings of that shape whose fields form a valid calendar
/// date, and then returns exactly the encoded date.
pub fn parse_datetime(s: &str) -> (r: Result<DateTime, FormatError>)
    ensures
        match r {
            Ok(dt) => {
                &&& datetime_shape(s@)
                &&& dt == parsed_datetime(s@)
                &&& dt.valid()
                &&& 0 <= dt.year <= 9999
            },
            Err(FormatError::BadDateString) => !datetime_shape(s@) || !parsed_datetime(s@).valid(),
            Err(_) => false,
        },
{
    if s.unicode_len() != 19 {
        return Err(FormatError::BadDateString);
    }
    if !(s.get_char(4) == '-' && s.get_char(7) == '-' && s.get_char(10) == 'T' && s.get_char(13)
        == ':' && s.get_char(16) == ':') {
        return Err(FormatError::BadDateString);
    }
    let year = match parse_digits(s, 0, 4) {
        Some(v) => v,
        None => {
            return Err(FormatError::BadDateString);
        },
    };
    let month = match parse_digits(s, 5, 2) {
        Some(v) => v,
        None => {
            return Err(FormatError::BadDateString);
        },
    };
    let day = match parse_digits(s, 8, 2) {
        Some(v) => v,
        None => {
            return Err(FormatError::BadDateString);
        },
    };
    let hour = match parse_digits(s, 11, 2) {
        Some(v) => v,
        None => {
            return Err(FormatError::BadDateString);
        },
    };
    let minute = match parse_digits(s, 14, 2) {
        Some(v) => v,
        None => {
            return Err(FormatError::BadDateString);
        },
    };
    let second = match parse_digits(s, 17, 2) {
        Some(v) => v,
        None => {
            return Err(FormatError::BadDateString);
        },
    };
    proof {
        lemma_pow10_vals();
        assert(year < 10000);
    }
    let dt = DateTime {
        year: year as i32,
        month: month as u8,
        day: day as u8,
        hour: hour as u8,
        minute: minute as u8,
        second: second as u8,
    };
    let ok = month >= 1 && month <= 12 && day >= 1 && hour <= 23 && minute <= 59 && second <= 59
        && {
        let dim: u32 = if month == 2 {
            if (year % 4 == 0 && year % 100 != 0) || year % 400 == 0 {
                29
            } else {
                28
            }
        } else if month == 4 || month == 6 || month == 9 || month == 11 {
            30
        } else {
            31
        };
        day <= dim
    };
    if ok {
        Ok(dt)
    } else {
        Err(FormatError::BadDateString)
    }
}

/// From the `DATESTRT` text of a metafits file, the epoch of the
/// observation start.  Fails exactly on strings [`parse_datetime`] refuses.
pub fn get_metafits_epoch(date_text: &str) -> (r: Result<hifitime::Epoch, FormatError>)
    ensures
        r is Ok <==> datetime_shape(date_text@) && parsed_datetime(date_text@).valid(),
{
    let dt = parse_datetime(date_text)?;
    Ok(epoch_from_gregorian_utc_hms(dt.year, dt.month, dt.day, dt.hour, dt.minute, dt.second))
}

} // verus!

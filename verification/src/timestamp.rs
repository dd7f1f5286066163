use crate::text::{digit, digit_value, is_digit};
use vstd::prelude::*;

verus! {

/// A civil date and time of day together with the offset from UTC at which it
/// was written.
#[derive(Debug, Clone, Copy, PartialEq, Eq, Structural)]
pub struct Timestamp {
    pub year: u16,
    pub month: u8,
    pub day: u8,
    pub hour: u8,
    pub minute: u8,
    pub second: u8,
    /// Seconds east of UTC; negative west of it.
    pub offset_seconds: i32,
}

/// Why a text is not a timestamp.
#[derive(Debug, Clone, Copy, PartialEq, Eq, Structural)]
pub enum TimestampError {
    /// The text does not have the shape `YYYY-MM-DD HH:MM:SS ±HHMM`.
    Malformed,
    /// The text has the shape, but one of its fields lies outside its range.
    OutOfRange,
}

pub open spec fn is_leap_year(year: int) -> bool {
    year % 4 == 0 && (year % 100 != 0 || year % 400 == 0)
}

pub open spec fn days_in_year(year: int) -> int {
    if is_leap_year(year) {
        366
    } else {
        365
    }
}

pub open spec fn days_in_month(year: int, month: int) -> int {
    if month == 2 {
        if is_leap_year(year) {
            29
        } else {
            28
        }
    } else if month == 4 || month == 6 || month == 9 || month == 11 {
        30
    } else {
        31
    }
}

/// The days from 1 January of year 0 to 1 January of `year`.
pub open spec fn days_before_year(year: int) -> int
    decreases year,
{
    if year <= 0 {
        0
    } else {
        days_before_year(year - 1) + days_in_year(year - 1)
    }
}

/// The days from 1 January of `year` to the first day of `month`.
pub open spec fn days_before_month(year: int, month: int) -> int
    decreases month,
{
    if month <= 1 {
        0
    } else {
        days_before_month(year, month - 1) + days_in_month(year, month - 1)
    }
}

/// The shape of a timestamp: `0` stands for any digit, `+` for either sign,
/// every other character for itself.
pub open spec fn shape() -> Seq<char> {
    "0000-00-00 00:00:00 +0000"@
}

/// Whether the character `c` may stand where the shape has `p`.
pub open spec fn fits(p: char, c: char) -> bool {
    if p == '0' {
        is_digit(c)
    } else if p == '+' {
        c == '+' || c == '-'
    } else {
        c == p
    }
}

/// Whether `s` is written as `YYYY-MM-DD HH:MM:SS ±HHMM`.
pub open spec fn has_shape(s: Seq<char>) -> bool {
    &&& s.len() == shape().len()
    &&& forall|i: int| 0 <= i < s.len() ==> fits(#[trigger] shape()[i], s[i])
}

/// The number written by the two digits of `s` at `i` and `i + 1`.
pub open spec fn pair(s: Seq<char>, i: int) -> int {
    10 * digit_value(s[i]) + digit_value(s[i + 1])
}

/// The seconds east of UTC that the last five characters of a text of the
/// timestamp shape write.
pub open spec fn written_offset(s: Seq<char>) -> int {
    let size = pair(s, 21) * 3600 + pair(s, 23) * 60;
    if s[20] == '-' {
        -size
    } else {
        size
    }
}

/// The fields of a text of the timestamp shape, read off as they stand.
pub open spec fn written(s: Seq<char>) -> Timestamp {
    Timestamp {
        year: (100 * pair(s, 0) + pair(s, 2)) as u16,
        month: pair(s, 5) as u8,
        day: pair(s, 8) as u8,
        hour: pair(s, 11) as u8,
        minute: pair(s, 14) as u8,
        second: pair(s, 17) as u8,
        offset_seconds: written_offset(s) as i32,
    }
}

/// Whether the fields of a text of the timestamp shape are a date of the
/// calendar, a time of day, and an offset of less than a day with minutes
/// below sixty.
pub open spec fn in_range(s: Seq<char>) -> bool {
    &&& 1 <= pair(s, 5) <= 12
    &&& 1 <= pair(s, 8) <= days_in_month(100 * pair(s, 0) + pair(s, 2), pair(s, 5))
    &&& pair(s, 11) <= 23
    &&& pair(s, 14) <= 59
    &&& pair(s, 17) <= 59
    &&& pair(s, 21) <= 23
    &&& pair(s, 23) <= 59
}

/// The timestamp that `s` writes, or why it writes none.
pub open spec fn timestamp_of(s: Seq<char>) -> Result<Timestamp, TimestampError> {
    if !has_shape(s) {
        Err(TimestampError::Malformed)
    } else if !in_range(s) {
        Err(TimestampError::OutOfRange)
    } else {
        Ok(written(s))
    }
}

impl Timestamp {
    /// Whether the fields are a date of the calendar, a time of day and an
    /// offset of whole minutes within a day of UTC.
    pub open spec fn valid(self) -> bool {
        &&& self.year <= 9999
        &&& 1 <= self.month <= 12
        &&& 1 <= self.day <= days_in_month(self.year as int, self.month as int)
        &&& self.hour <= 23
        &&& self.minute <= 59
        &&& self.second <= 59
        &&& -86400 < self.offset_seconds < 86400
        &&& self.offset_seconds % 60 == 0
    }

    /// The days from 1 January 1970 to the civil date.
    pub open spec fn civil_days(self) -> int {
        days_before_year(self.year as int) + days_before_month(
            self.year as int,
            self.month as int,
        ) + (self.day - 1) - days_before_year(1970)
    }

    /// The instant in UTC, in seconds since the start of 1970: the civil
    /// time counted in seconds, less the offset at which it was written.
    pub open spec fn instant(self) -> int {
        self.civil_days() * 86400 + self.hour * 3600 + self.minute * 60 + self.second
            - self.offset_seconds
    }

    /// The instant in UTC, in seconds since the start of 1970.
    pub fn unix_seconds(&self) -> (seconds: i64)
        ensures
            seconds == self.instant(),
    {
        let year = self.year as i64;
        let before_year = 365 * year + (year + 3) / 4 - (year + 99) / 100 + (year + 399) / 400;
        let mut month: u8 = 1;
        let mut before_month: i64 = 0;
        while month < self.month
            invariant
                1 <= month,
                month <= self.month || month == 1,
                before_month == days_before_month(self.year as int, month as int),
                0 <= before_month <= 31 * (month - 1),
            decreases self.month - month,
        {
            before_month = before_month + length_of_month(self.year, month) as i64;
            month = month + 1;
        }
        proof {
            lemma_days_before_year(self.year as int);
            lemma_days_before_year(1970);
        }
        let days = before_year + before_month + (self.day as i64 - 1) - 719528;
        days * 86400 + self.hour as i64 * 3600 + self.minute as i64 * 60 + self.second as i64
            - self.offset_seconds as i64
    }
}

/// The days before a year in closed form: 365 for each year, and one more
/// for each leap year among them.
pub proof fn lemma_days_before_year(year: int)
    requires
        year >= 0,
    ensures
        days_before_year(year) == 365 * year + (year + 3) / 4 - (year + 99) / 100 + (year + 399)
            / 400,
    decreases year,
{
    if year > 0 {
        lemma_days_before_year(year - 1);
    }
}

/// Whether `year` has a 29 February.
pub fn leap_year(year: u16) -> (leap: bool)
    ensures
        leap == is_leap_year(year as int),
{
    year % 4 == 0 && (year % 100 != 0 || year % 400 == 0)
}

/// The number of days of `month` in `year`.
pub fn length_of_month(year: u16, month: u8) -> (days: u8)
    ensures
        days == days_in_month(year as int, month as int),
{
    if month == 2 {
        if leap_year(year) {
            29
        } else {
            28
        }
    } else if month == 4 || month == 6 || month == 9 || month == 11 {
        30
    } else {
        31
    }
}

/// Reads the two digits of `text` at `at` and `at + 1`.
fn read_pair(text: &str, at: usize) -> (n: u8)
    requires
        at <= 23,
        at + 1 < text@.len(),
        is_digit(text@[at as int]),
        is_digit(text@[at + 1]),
    ensures
        n == pair(text@, at as int),
        n <= 99,
{
    let high = digit(text.get_char(at));
    let low = digit(text.get_char(at + 1));
    10 * high.unwrap() + low.unwrap()
}

/// Reads a timestamp written as `YYYY-MM-DD HH:MM:SS ±HHMM`: a date of the
/// calendar, a time of day from `00:00:00` to `23:59:59`, and an offset from
/// UTC of up to `2359`, with nothing before, between or after them.
pub fn parse_datetime(text: &str) -> (r: Result<Timestamp, TimestampError>)
    ensures
        r == timestamp_of(text@),
        r matches Ok(t) ==> t.valid(),
{
    let pattern = "0000-00-00 00:00:00 +0000";
    proof {
        reveal_strlit("0000-00-00 00:00:00 +0000");
    }
    if text.unicode_len() != 25 {
        return Err(TimestampError::Malformed);
    }
    let mut i: usize = 0;
    while i < 25
        invariant
            i <= 25,
            text@.len() == 25,
            pattern@ == shape(),
            pattern@.len() == 25,
            forall|j: int| 0 <= j < i ==> fits(#[trigger] shape()[j], text@[j]),
        decreases 25 - i,
    {
        let p = pattern.get_char(i);
        let c = text.get_char(i);
        let ok = if p == '0' {
            digit(c).is_some()
        } else if p == '+' {
            c == '+' || c == '-'
        } else {
            c == p
        };
        if !ok {
            assert(!fits(shape()[i as int], text@[i as int]));
            return Err(TimestampError::Malformed);
        }
        i += 1;
    }
    assert(has_shape(text@));
    proof {
        let s = text@;
        assert(fits(shape()[0], s[0]) && fits(shape()[1], s[1]) && fits(shape()[2], s[2]) && fits(
            shape()[3],
            s[3],
        ));
        assert(fits(shape()[5], s[5]) && fits(shape()[6], s[6]) && fits(shape()[8], s[8]) && fits(
            shape()[9],
            s[9],
        ));
        assert(fits(shape()[11], s[11]) && fits(shape()[12], s[12]) && fits(shape()[14], s[14])
            && fits(shape()[15], s[15]));
        assert(fits(shape()[17], s[17]) && fits(shape()[18], s[18]) && fits(shape()[20], s[20]));
        assert(fits(shape()[21], s[21]) && fits(shape()[22], s[22]) && fits(shape()[23], s[23])
            && fits(shape()[24], s[24]));
    }
    let year: u16 = 100 * (read_pair(text, 0) as u16) + read_pair(text, 2) as u16;
    let month = read_pair(text, 5);
    let day = read_pair(text, 8);
    let hour = read_pair(text, 11);
    let minute = read_pair(text, 14);
    let second = read_pair(text, 17);
    let offset_hours = read_pair(text, 21);
    let offset_minutes = read_pair(text, 23);
    if month < 1 || month > 12 || day < 1 || day > length_of_month(year, month) || hour > 23
        || minute > 59 || second > 59 || offset_hours > 23 || offset_minutes > 59 {
        return Err(TimestampError::OutOfRange);
    }
    let size: i32 = offset_hours as i32 * 3600 + offset_minutes as i32 * 60;
    let offset_seconds: i32 = if text.get_char(20) == '-' {
        -size
    } else {
        size
    };
    Ok(Timestamp { year, month, day, hour, minute, second, offset_seconds })
}

} // verus!

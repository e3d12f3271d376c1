//! The last-modified timestamp: a UTC instant and the parser for the fixed
//! textual layout `"<weekday>, <day> <month> <year> <HH>:<MM>:<SS> GMT"`.
//!
//! The parser strips a trailing `" GMT"` literal if present, reads the
//! remainder as a naive date-time and treats it as UTC; no other time zone is
//! ever produced. Any input that does not fit the layout (wrong field count,
//! non-numeric fields, invalid calendar values, a weekday name that does not
//! match the date) is rejected with `MalformedTimestamp`.

use vstd::prelude::*;
use vstd::string::StringSliceAdditionalSpecFns;
use crate::error::Error;

verus! {

/// A UTC instant, one second resolution. The representation is canonical:
/// two equal instants have equal fields.
#[derive(Clone, Copy, Debug, PartialEq, Eq, Structural)]
pub struct DateTime {
    /// Calendar year, `0..=9999`.
    pub year: u16,
    /// Calendar month, `1..=12`.
    pub month: u8,
    /// Day of month, `1..=days_in_month(year, month)`.
    pub day: u8,
    /// Hour of day, `0..=23`.
    pub hour: u8,
    /// Minute, `0..=59`.
    pub minute: u8,
    /// Second, `0..=59`.
    pub second: u8,
}

pub open spec fn is_leap_year(y: int) -> bool {
    (y % 4 == 0 && y % 100 != 0) || y % 400 == 0
}

pub open spec fn days_in_month(y: int, m: int) -> int {
    if m == 2 {
        if is_leap_year(y) {
            29
        } else {
            28
        }
    } else if m == 4 || m == 6 || m == 9 || m == 11 {
        30
    } else {
        31
    }
}

/// The day of the week of a proleptic-Gregorian date, `0` standing for
/// Sunday through `6` for Saturday.
pub open spec fn weekday_of(y: int, m: int, d: int) -> int {
    let yp = if m <= 2 { y + 399 } else { y + 400 };
    let yoe = yp % 400;
    let mp = if m <= 2 { m + 9 } else { m - 3 };
    let doy = (153 * mp + 2) / 5 + d - 1;
    let doe = yoe * 365 + yoe / 4 - yoe / 100 + doy;
    (doe + 3) % 7
}

/// Whether the fields of `dt` name a real calendar date and time of day.
pub open spec fn datetime_valid(dt: DateTime) -> bool {
    &&& dt.year <= 9999
    &&& 1 <= dt.month <= 12
    &&& 1 <= dt.day <= days_in_month(dt.year as int, dt.month as int)
    &&& dt.hour <= 23
    &&& dt.minute <= 59
    &&& dt.second <= 59
}

pub open spec fn is_digit(b: u8) -> bool {
    0x30 <= b <= 0x39
}

pub open spec fn digit(b: u8) -> int {
    b - 0x30
}

/// The index of a three-letter weekday abbreviation, Sunday first.
pub open spec fn weekday_code(a: u8, b: u8, c: u8) -> Option<int> {
    if a == 0x53 && b == 0x75 && c == 0x6e {
        Some(0)  // Sun
    } else if a == 0x4d && b == 0x6f && c == 0x6e {
        Some(1)  // Mon
    } else if a == 0x54 && b == 0x75 && c == 0x65 {
        Some(2)  // Tue
    } else if a == 0x57 && b == 0x65 && c == 0x64 {
        Some(3)  // Wed
    } else if a == 0x54 && b == 0x68 && c == 0x75 {
        Some(4)  // Thu
    } else if a == 0x46 && b == 0x72 && c == 0x69 {
        Some(5)  // Fri
    } else if a == 0x53 && b == 0x61 && c == 0x74 {
        Some(6)  // Sat
    } else {
        None
    }
}

/// The number of a three-letter month abbreviation, January = 1.
pub open spec fn month_code(a: u8, b: u8, c: u8) -> Option<int> {
    if a == 0x4a && b == 0x61 && c == 0x6e {
        Some(1)  // Jan
    } else if a == 0x46 && b == 0x65 && c == 0x62 {
        Some(2)  // Feb
    } else if a == 0x4d && b == 0x61 && c == 0x72 {
        Some(3)  // Mar
    } else if a == 0x41 && b == 0x70 && c == 0x72 {
        Some(4)  // Apr
    } else if a == 0x4d && b == 0x61 && c == 0x79 {
        Some(5)  // May
    } else if a == 0x4a && b == 0x75 && c == 0x6e {
        Some(6)  // Jun
    } else if a == 0x4a && b == 0x75 && c == 0x6c {
        Some(7)  // Jul
    } else if a == 0x41 && b == 0x75 && c == 0x67 {
        Some(8)  // Aug
    } else if a == 0x53 && b == 0x65 && c == 0x70 {
        Some(9)  // Sep
    } else if a == 0x4f && b == 0x63 && c == 0x74 {
        Some(10)  // Oct
    } else if a == 0x4e && b == 0x6f && c == 0x76 {
        Some(11)  // Nov
    } else if a == 0x44 && b == 0x65 && c == 0x63 {
        Some(12)  // Dec
    } else {
        None
    }
}

/// The four bytes of the `" GMT"` suffix.
pub open spec fn gmt_suffix() -> Seq<u8> {
    seq![0x20, 0x47, 0x4d, 0x54]
}

/// `raw` with every trailing `" GMT"` removed.
pub open spec fn strip_gmt(raw: Seq<u8>) -> Seq<u8>
    decreases raw.len(),
{
    if raw.len() >= 4 && raw.subrange(raw.len() - 4, raw.len() as int) == gmt_suffix() {
        strip_gmt(raw.take(raw.len() - 4))
    } else {
        raw
    }
}

/// Whether `s` (the input with the GMT suffix already stripped) has every
/// literal, name and digit of the layout in place; `dlen` is the width of
/// the day field, one or two digits.
pub open spec fn timespec_fields_ok(s: Seq<u8>, dlen: int) -> bool {
    &&& s.len() == 23 + dlen
    &&& weekday_code(s[0], s[1], s[2]) is Some
    &&& s[3] == 0x2c  // ','
    &&& s[4] == 0x20  // ' '
    &&& is_digit(s[5])
    &&& (dlen == 2 ==> is_digit(s[6]))
    &&& s[5 + dlen] == 0x20
    &&& month_code(s[6 + dlen], s[7 + dlen], s[8 + dlen]) is Some
    &&& s[9 + dlen] == 0x20
    &&& is_digit(s[10 + dlen])
    &&& is_digit(s[11 + dlen])
    &&& is_digit(s[12 + dlen])
    &&& is_digit(s[13 + dlen])
    &&& s[14 + dlen] == 0x20
    &&& is_digit(s[15 + dlen])
    &&& is_digit(s[16 + dlen])
    &&& s[17 + dlen] == 0x3a  // ':'
    &&& is_digit(s[18 + dlen])
    &&& is_digit(s[19 + dlen])
    &&& s[20 + dlen] == 0x3a
    &&& is_digit(s[21 + dlen])
    &&& is_digit(s[22 + dlen])
}

pub open spec fn field_day(s: Seq<u8>, dlen: int) -> int {
    if dlen == 1 {
        digit(s[5])
    } else {
        10 * digit(s[5]) + digit(s[6])
    }
}

pub open spec fn field_year(s: Seq<u8>, dlen: int) -> int {
    1000 * digit(s[10 + dlen]) + 100 * digit(s[11 + dlen]) + 10 * digit(s[12 + dlen])
        + digit(s[13 + dlen])
}

pub open spec fn field_hour(s: Seq<u8>, dlen: int) -> int {
    10 * digit(s[15 + dlen]) + digit(s[16 + dlen])
}

pub open spec fn field_minute(s: Seq<u8>, dlen: int) -> int {
    10 * digit(s[18 + dlen]) + digit(s[19 + dlen])
}

pub open spec fn field_second(s: Seq<u8>, dlen: int) -> int {
    10 * digit(s[21 + dlen]) + digit(s[22 + dlen])
}

/// What the timestamp parser yields on the UTF-8 bytes of its input:
/// the denoted UTC instant, or `None` where the input does not fit the
/// layout or names an impossible date, time or weekday.
pub open spec fn timespec_model(raw: Seq<u8>) -> Option<DateTime> {
    let s = strip_gmt(raw);
    if s.len() != 24 && s.len() != 25 {
        None
    } else {
        let dlen = s.len() - 23;
        if !timespec_fields_ok(s, dlen) {
            None
        } else {
            match (weekday_code(s[0], s[1], s[2]),
                month_code(s[6 + dlen], s[7 + dlen], s[8 + dlen])) {
                (Some(wd), Some(m)) => {
                    let y = field_year(s, dlen);
                    let d = field_day(s, dlen);
                    let h = field_hour(s, dlen);
                    let mi = field_minute(s, dlen);
                    let sec = field_second(s, dlen);
                    if 1 <= d <= days_in_month(y, m) && h <= 23 && mi <= 59 && sec <= 59
                        && weekday_of(y, m, d) == wd {
                        Some(DateTime {
                            year: y as u16,
                            month: m as u8,
                            day: d as u8,
                            hour: h as u8,
                            minute: mi as u8,
                            second: sec as u8,
                        })
                    } else {
                        None
                    }
                }
                _ => None,
            }
        }
    }
}

/// Whatever instant the parser accepts has valid calendar fields.
pub proof fn lemma_timespec_model_valid(raw: Seq<u8>)
    requires
        timespec_model(raw) is Some,
    ensures
        datetime_valid(timespec_model(raw).unwrap()),
{
}

fn weekday_code_exec(a: u8, b: u8, c: u8) -> (r: Option<u32>)
    ensures
        (match weekday_code(a, b, c) {
            Some(w) => r == Some(w as u32),
            None => r is None,
        }),
{
    if a == 0x53 && b == 0x75 && c == 0x6e {
        Some(0)
    } else if a == 0x4d && b == 0x6f && c == 0x6e {
        Some(1)
    } else if a == 0x54 && b == 0x75 && c == 0x65 {
        Some(2)
    } else if a == 0x57 && b == 0x65 && c == 0x64 {
        Some(3)
    } else if a == 0x54 && b == 0x68 && c == 0x75 {
        Some(4)
    } else if a == 0x46 && b == 0x72 && c == 0x69 {
        Some(5)
    } else if a == 0x53 && b == 0x61 && c == 0x74 {
        Some(6)
    } else {
        None
    }
}

fn month_code_exec(a: u8, b: u8, c: u8) -> (r: Option<u32>)
    ensures
        (match month_code(a, b, c) {
            Some(m) => r == Some(m as u32),
            None => r is None,
        }),
{
    if a == 0x4a && b == 0x61 && c == 0x6e {
        Some(1)
    } else if a == 0x46 && b == 0x65 && c == 0x62 {
        Some(2)
    } else if a == 0x4d && b == 0x61 && c == 0x72 {
        Some(3)
    } else if a == 0x41 && b == 0x70 && c == 0x72 {
        Some(4)
    } else if a == 0x4d && b == 0x61 && c == 0x79 {
        Some(5)
    } else if a == 0x4a && b == 0x75 && c == 0x6e {
        Some(6)
    } else if a == 0x4a && b == 0x75 && c == 0x6c {
        Some(7)
    } else if a == 0x41 && b == 0x75 && c == 0x67 {
        Some(8)
    } else if a == 0x53 && b == 0x65 && c == 0x70 {
        Some(9)
    } else if a == 0x4f && b == 0x63 && c == 0x74 {
        Some(10)
    } else if a == 0x4e && b == 0x6f && c == 0x76 {
        Some(11)
    } else if a == 0x44 && b == 0x65 && c == 0x63 {
        Some(12)
    } else {
        None
    }
}

fn weekday_of_exec(y: u32, m: u32, d: u32) -> (r: u32)
    requires
        y <= 9999,
        1 <= m <= 12,
        1 <= d <= 31,
    ensures
        r as int == weekday_of(y as int, m as int, d as int),
{
    let yp: u32 = if m <= 2 { y + 399 } else { y + 400 };
    let yoe: u32 = yp % 400;
    let mp: u32 = if m <= 2 { m + 9 } else { m - 3 };
    let doy: u32 = (153 * mp + 2) / 5 + d - 1;
    let doe: u32 = yoe * 365 + yoe / 4 - yoe / 100 + doy;
    (doe + 3) % 7
}

fn days_in_month_exec(y: u32, m: u32) -> (r: u32)
    requires
        1 <= m <= 12,
    ensures
        r as int == days_in_month(y as int, m as int),
{
    if m == 2 {
        if (y % 4 == 0 && y % 100 != 0) || y % 400 == 0 {
            29
        } else {
            28
        }
    } else if m == 4 || m == 6 || m == 9 || m == 11 {
        30
    } else {
        31
    }
}

/// Converts the fixed textual timestamp layout into a canonical UTC
/// instant. Any input out of the layout fails with `MalformedTimestamp`.
pub fn parse_timespec(raw: &str) -> (r: Result<DateTime, Error>)
    ensures
        (match timespec_model(raw.spec_bytes()) {
            Some(dt) => r == Ok::<DateTime, Error>(dt),
            None => r == Err::<DateTime, Error>(Error::MalformedTimestamp),
        }),
{
    parse_timespec_bytes(raw.as_bytes())
}

fn parse_timespec_bytes(b: &[u8]) -> (r: Result<DateTime, Error>)
    ensures
        (match timespec_model(b@) {
            Some(dt) => r == Ok::<DateTime, Error>(dt),
            None => r == Err::<DateTime, Error>(Error::MalformedTimestamp),
        }),
{
    let mut end: usize = b.len();
    proof {
        assert(b@.take(end as int) =~= b@);
    }
    while end >= 4 && b[end - 4] == 0x20 && b[end - 3] == 0x47 && b[end - 2] == 0x4d
        && b[end - 1] == 0x54
        invariant
            end <= b.len(),
            strip_gmt(b@) == strip_gmt(b@.take(end as int)),
        decreases end,
    {
        proof {
            let t = b@.take(end as int);
            assert(t.subrange(t.len() - 4, t.len() as int) =~= gmt_suffix());
            assert(t.take(t.len() - 4) =~= b@.take(end - 4));
        }
        end = end - 4;
    }
    proof {
        let t = b@.take(end as int);
        if t.len() >= 4 && t.subrange(t.len() - 4, t.len() as int) == gmt_suffix() {
            assert(b@[end - 4] == t[t.len() - 4]);
            assert(b@[end - 3] == t[t.len() - 3]);
            assert(b@[end - 2] == t[t.len() - 2]);
            assert(b@[end - 1] == t[t.len() - 1]);
            assert(t[t.len() - 4] == gmt_suffix()[0]);
            assert(t[t.len() - 3] == gmt_suffix()[1]);
            assert(t[t.len() - 2] == gmt_suffix()[2]);
            assert(t[t.len() - 1] == gmt_suffix()[3]);
            assert(false);
        }
        assert(strip_gmt(b@) == t);
    }
    let ghost s = strip_gmt(b@);
    proof {
        assert(forall|j: int| 0 <= j < end ==> s[j] == b@[j]);
    }
    if end != 24 && end != 25 {
        return Err(Error::MalformedTimestamp);
    }
    let dlen: usize = end - 23;
    if !(b[3] == 0x2c && b[4] == 0x20) {
        return Err(Error::MalformedTimestamp);
    }
    let wd = match weekday_code_exec(b[0], b[1], b[2]) {
        Some(w) => w,
        None => {
            return Err(Error::MalformedTimestamp);
        }
    };
    if !is_digit_exec(b[5]) {
        return Err(Error::MalformedTimestamp);
    }
    if dlen == 2 && !is_digit_exec(b[6]) {
        return Err(Error::MalformedTimestamp);
    }
    if b[5 + dlen] != 0x20 {
        return Err(Error::MalformedTimestamp);
    }
    let m = match month_code_exec(b[6 + dlen], b[7 + dlen], b[8 + dlen]) {
        Some(m) => m,
        None => {
            return Err(Error::MalformedTimestamp);
        }
    };
    if b[9 + dlen] != 0x20 {
        return Err(Error::MalformedTimestamp);
    }
    if !(is_digit_exec(b[10 + dlen]) && is_digit_exec(b[11 + dlen])
        && is_digit_exec(b[12 + dlen]) && is_digit_exec(b[13 + dlen])) {
        return Err(Error::MalformedTimestamp);
    }
    if b[14 + dlen] != 0x20 {
        return Err(Error::MalformedTimestamp);
    }
    if !(is_digit_exec(b[15 + dlen]) && is_digit_exec(b[16 + dlen])) {
        return Err(Error::MalformedTimestamp);
    }
    if b[17 + dlen] != 0x3a {
        return Err(Error::MalformedTimestamp);
    }
    if !(is_digit_exec(b[18 + dlen]) && is_digit_exec(b[19 + dlen])) {
        return Err(Error::MalformedTimestamp);
    }
    if b[20 + dlen] != 0x3a {
        return Err(Error::MalformedTimestamp);
    }
    if !(is_digit_exec(b[21 + dlen]) && is_digit_exec(b[22 + dlen])) {
        return Err(Error::MalformedTimestamp);
    }
    assert(timespec_fields_ok(s, dlen as int));
    let d: u32 = if dlen == 1 {
        (b[5] - 0x30) as u32
    } else {
        10 * ((b[5] - 0x30) as u32) + ((b[6] - 0x30) as u32)
    };
    let y: u32 = 1000 * ((b[10 + dlen] - 0x30) as u32) + 100 * ((b[11 + dlen] - 0x30) as u32)
        + 10 * ((b[12 + dlen] - 0x30) as u32) + ((b[13 + dlen] - 0x30) as u32);
    let h: u32 = 10 * ((b[15 + dlen] - 0x30) as u32) + ((b[16 + dlen] - 0x30) as u32);
    let mi: u32 = 10 * ((b[18 + dlen] - 0x30) as u32) + ((b[19 + dlen] - 0x30) as u32);
    let sec: u32 = 10 * ((b[21 + dlen] - 0x30) as u32) + ((b[22 + dlen] - 0x30) as u32);
    if !(1 <= d && d <= days_in_month_exec(y, m) && h <= 23 && mi <= 59 && sec <= 59) {
        return Err(Error::MalformedTimestamp);
    }
    if weekday_of_exec(y, m, d) != wd {
        return Err(Error::MalformedTimestamp);
    }
    Ok(DateTime {
        year: y as u16,
        month: m as u8,
        day: d as u8,
        hour: h as u8,
        minute: mi as u8,
        second: sec as u8,
    })
}

fn is_digit_exec(b: u8) -> (r: bool)
    ensures
        r == is_digit(b),
{
    0x30 <= b && b <= 0x39
}

} // verus!

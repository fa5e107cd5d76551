use vstd::prelude::*;

use crate::common::{dec2_chars, dec4_chars, push_dec2, push_dec4};
use crate::error::Error;

verus! {

// --------------------------------------------------------------------------
// Packed BCD bytes
// --------------------------------------------------------------------------

/// The decimal reading of a packed BCD byte: `0x23` reads as `23`.
pub open spec fn spec_byte_to_dec(b: u8) -> int {
    b / 16 * 10 + b % 16
}

/// The packed BCD byte for a two-digit decimal value: `23` packs as `0x23`.
pub open spec fn spec_dec_to_byte(d: u8) -> int {
    d / 10 * 16 + d % 10
}

/// Reads a packed BCD byte as its decimal value.
pub fn byte_to_dec(byte: u8) -> (r: u8)
    ensures
        r as int == spec_byte_to_dec(byte),
        r <= 165,
{
    byte / 16 * 10 + byte % 16
}

/// Packs a two-digit decimal value as a BCD byte.
pub fn dec_to_byte(dec: u8) -> (r: u8)
    requires
        dec <= 99,
    ensures
        r as int == spec_dec_to_byte(dec),
{
    dec / 10 * 16 + dec % 10
}

/// Packing a two-digit decimal value and reading it back yields the value.
pub proof fn lemma_bcd_round_trip(d: u8)
    requires
        d <= 99,
    ensures
        spec_byte_to_dec(spec_dec_to_byte(d) as u8) == d,
{
    let q = d / 10;
    let r = d % 10;
    assert((q * 16 + r) / 16 == q && (q * 16 + r) % 16 == r && q * 10 + r == d) by (nonlinear_arith)
        requires
            q == d / 10,
            r == d % 10,
            d <= 99,
    ;
}

// --------------------------------------------------------------------------
// Calendar validity and weekdays
// --------------------------------------------------------------------------

pub open spec fn is_leap_year(y: int) -> bool {
    (y % 4 == 0 && y % 100 != 0) || y % 400 == 0
}

pub open spec fn days_in_month(y: int, m: int) -> int {
    if m == 2 {
        if is_leap_year(y) {
            29
        } else {
            28
        }
    } else if m == 4 || m == 6 || m == 9 || m == 11 {
        30
    } else {
        31
    }
}

/// A proleptic Gregorian calendar date that the eight BCD bytes can hold.
pub open spec fn spec_valid_date(y: int, m: int, d: int) -> bool {
    0 <= y <= 9999 && 1 <= m <= 12 && 1 <= d <= days_in_month(y, m)
}

/// The weekday of a proleptic Gregorian date, counted Monday = 1 … Sunday = 7.
pub uninterp spec fn weekday_of(y: int, m: int, d: int) -> int;

/// Relies on chrono's `NaiveDate::from_ymd_opt` (which accepts exactly the
/// valid proleptic Gregorian dates in this year range) and on
/// `Datelike::weekday` with `Weekday::number_from_monday` (Monday = 1 …
/// Sunday = 7): the weekday is a function of year, month and day alone.
#[verifier::external_body]
fn weekday_from_ymd(year: u16, month: u8, day: u8) -> (r: u8)
    requires
        spec_valid_date(year as int, month as int, day as int),
    ensures
        1 <= r <= 7,
        r as int == weekday_of(year as int, month as int, day as int),
{
    let date = chrono::NaiveDate::from_ymd_opt(year as i32, month as u32, day as u32).unwrap();
    chrono::Datelike::weekday(&date).number_from_monday() as u8
}

// --------------------------------------------------------------------------
// SysTime
// --------------------------------------------------------------------------

/// A timestamp in the controller's wire format: eight packed BCD bytes
/// (year-hundreds, year-rest, month, day, weekday, hour, minute, second).
#[derive(Debug, Clone)]
pub struct SysTime {
    raw: [u8; 8],
}

impl View for SysTime {
    type V = Seq<u8>;

    closed spec fn view(&self) -> Seq<u8> {
        self.raw@
    }
}

pub open spec fn spec_year(s: Seq<u8>) -> int {
    spec_byte_to_dec(s[0]) * 100 + spec_byte_to_dec(s[1])
}

pub open spec fn spec_month(s: Seq<u8>) -> int {
    spec_byte_to_dec(s[2])
}

pub open spec fn spec_day(s: Seq<u8>) -> int {
    spec_byte_to_dec(s[3])
}

pub open spec fn spec_hour(s: Seq<u8>) -> int {
    spec_byte_to_dec(s[5])
}

pub open spec fn spec_minute(s: Seq<u8>) -> int {
    spec_byte_to_dec(s[6])
}

pub open spec fn spec_second(s: Seq<u8>) -> int {
    spec_byte_to_dec(s[7])
}

/// Round trip for timestamps: the bytes that encode calendar fields in
/// range read back as the same fields, the weekday byte unchanged.
pub proof fn lemma_systime_round_trip(y: int, mo: int, d: int, wd: int, h: int, mi: int, se: int)
    requires
        0 <= y <= 9999,
        0 <= mo <= 99,
        0 <= d <= 99,
        0 <= wd <= 255,
        0 <= h <= 99,
        0 <= mi <= 99,
        0 <= se <= 99,
    ensures
        ({
            let s = spec_systime_bytes(y, mo, d, wd, h, mi, se);
            &&& spec_year(s) == y
            &&& spec_month(s) == mo
            &&& spec_day(s) == d
            &&& s[4] == wd
            &&& spec_hour(s) == h
            &&& spec_minute(s) == mi
            &&& spec_second(s) == se
        }),
{
    lemma_bcd_round_trip((y / 100) as u8);
    lemma_bcd_round_trip((y % 100) as u8);
    lemma_bcd_round_trip(mo as u8);
    lemma_bcd_round_trip(d as u8);
    lemma_bcd_round_trip(h as u8);
    lemma_bcd_round_trip(mi as u8);
    lemma_bcd_round_trip(se as u8);
}

/// The wire bytes that encode the given timestamp fields.
pub open spec fn spec_systime_bytes(
    y: int,
    mo: int,
    d: int,
    wd: int,
    h: int,
    mi: int,
    se: int,
) -> Seq<u8> {
    seq![
        spec_dec_to_byte((y / 100) as u8) as u8,
        spec_dec_to_byte((y % 100) as u8) as u8,
        spec_dec_to_byte(mo as u8) as u8,
        spec_dec_to_byte(d as u8) as u8,
        wd as u8,
        spec_dec_to_byte(h as u8) as u8,
        spec_dec_to_byte(mi as u8) as u8,
        spec_dec_to_byte(se as u8) as u8,
    ]
}

impl SysTime {
    /// Builds a timestamp from calendar fields; the weekday byte is computed
    /// from the date.
    pub fn new(year: u16, month: u8, day: u8, hour: u8, minute: u8, second: u8) -> (r: SysTime)
        requires
            spec_valid_date(year as int, month as int, day as int),
            hour <= 23,
            minute <= 59,
            second <= 59,
        ensures
            r@ == spec_systime_bytes(
                year as int,
                month as int,
                day as int,
                weekday_of(year as int, month as int, day as int),
                hour as int,
                minute as int,
                second as int,
            ),
            spec_year(r@) == year,
            spec_month(r@) == month,
            spec_day(r@) == day,
            spec_hour(r@) == hour,
            spec_minute(r@) == minute,
            spec_second(r@) == second,
            1 <= r@[4] <= 7,
    {
        let weekday = weekday_from_ymd(year, month, day);
        let raw: [u8; 8] = [
            dec_to_byte((year / 100) as u8),
            dec_to_byte((year % 100) as u8),
            dec_to_byte(month),
            dec_to_byte(day),
            weekday,
            dec_to_byte(hour),
            dec_to_byte(minute),
            dec_to_byte(second),
        ];
        let r = SysTime { raw };
        proof {
            assert(r@ =~= spec_systime_bytes(
                year as int,
                month as int,
                day as int,
                weekday_of(year as int, month as int, day as int),
                hour as int,
                minute as int,
                second as int,
            ));
            lemma_bcd_round_trip((year / 100) as u8);
            lemma_bcd_round_trip((year % 100) as u8);
            lemma_bcd_round_trip(month);
            lemma_bcd_round_trip(day);
            lemma_bcd_round_trip(hour);
            lemma_bcd_round_trip(minute);
            lemma_bcd_round_trip(second);
        }
        r
    }

    /// Wraps eight wire bytes as they stand.
    pub fn from_bytes(bytes: &[u8]) -> (r: SysTime)
        requires
            bytes@.len() == 8,
        ensures
            r@ == bytes@,
    {
        let raw: [u8; 8] = [
            bytes[0],
            bytes[1],
            bytes[2],
            bytes[3],
            bytes[4],
            bytes[5],
            bytes[6],
            bytes[7],
        ];
        let r = SysTime { raw };
        proof {
            assert(r@ =~= bytes@);
        }
        r
    }

    /// The wire bytes as they stand.
    pub fn to_bytes(&self) -> (r: Vec<u8>)
        ensures
            r@ == self@,
            r@.len() == 8,
    {
        let r = vec![
            self.raw[0],
            self.raw[1],
            self.raw[2],
            self.raw[3],
            self.raw[4],
            self.raw[5],
            self.raw[6],
            self.raw[7],
        ];
        proof {
            assert(r@ =~= self@);
        }
        r
    }

    pub fn year(&self) -> (r: u16)
        ensures
            r as int == spec_year(self@),
    {
        byte_to_dec(self.raw[0]) as u16 * 100 + byte_to_dec(self.raw[1]) as u16
    }

    pub fn month(&self) -> (r: u8)
        ensures
            r as int == spec_month(self@),
    {
        byte_to_dec(self.raw[2])
    }

    pub fn day(&self) -> (r: u8)
        ensures
            r as int == spec_day(self@),
    {
        byte_to_dec(self.raw[3])
    }

    pub fn weekday(&self) -> (r: u8)
        ensures
            r == self@[4],
    {
        self.raw[4]
    }

    pub fn hour(&self) -> (r: u8)
        ensures
            r as int == spec_hour(self@),
    {
        byte_to_dec(self.raw[5])
    }

    pub fn minute(&self) -> (r: u8)
        ensures
            r as int == spec_minute(self@),
    {
        byte_to_dec(self.raw[6])
    }

    pub fn second(&self) -> (r: u8)
        ensures
            r as int == spec_second(self@),
    {
        byte_to_dec(self.raw[7])
    }

    /// The timestamp in the form `YYYY-MM-DDTHH:MM:SS`.
    pub fn to_text(&self) -> (r: String)
        ensures
            r@ == spec_systime_text(self@),
    {
        let mut out = String::new();
        proof {
            reveal_strlit("-");
            reveal_strlit("T");
            reveal_strlit(":");
        }
        push_dec4(&mut out, self.year());
        out.append("-");
        push_dec2(&mut out, self.month());
        out.append("-");
        push_dec2(&mut out, self.day());
        out.append("T");
        push_dec2(&mut out, self.hour());
        out.append(":");
        push_dec2(&mut out, self.minute());
        out.append(":");
        push_dec2(&mut out, self.second());
        proof {
            assert(out@ =~= spec_systime_text(self@));
        }
        out
    }
}

/// The text form of a timestamp's bytes.
pub open spec fn spec_systime_text(s: Seq<u8>) -> Seq<char> {
    dec4_chars(spec_year(s)) + seq!['-'] + dec2_chars(spec_month(s)) + seq!['-'] + dec2_chars(
        spec_day(s),
    ) + seq!['T'] + dec2_chars(spec_hour(s)) + seq![':'] + dec2_chars(spec_minute(s)) + seq![':']
        + dec2_chars(spec_second(s))
}

// --------------------------------------------------------------------------
// Parsing the text form
// --------------------------------------------------------------------------

pub open spec fn dec_digit_value(c: char) -> int {
    if '0' as int <= c as int && c as int <= '9' as int {
        c as int - '0' as int
    } else {
        -1
    }
}

pub open spec fn is_dec_digit_char(c: char) -> bool {
    dec_digit_value(c) >= 0
}

/// Whether `s` has the shape `YYYY-MM-DDTHH:MM:SS`.
pub open spec fn spec_systime_shape(s: Seq<char>) -> bool {
    &&& s.len() == 19
    &&& is_dec_digit_char(s[0])
    &&& is_dec_digit_char(s[1])
    &&& is_dec_digit_char(s[2])
    &&& is_dec_digit_char(s[3])
    &&& s[4] == '-'
    &&& is_dec_digit_char(s[5])
    &&& is_dec_digit_char(s[6])
    &&& s[7] == '-'
    &&& is_dec_digit_char(s[8])
    &&& is_dec_digit_char(s[9])
    &&& s[10] == 'T'
    &&& is_dec_digit_char(s[11])
    &&& is_dec_digit_char(s[12])
    &&& s[13] == ':'
    &&& is_dec_digit_char(s[14])
    &&& is_dec_digit_char(s[15])
    &&& s[16] == ':'
    &&& is_dec_digit_char(s[17])
    &&& is_dec_digit_char(s[18])
}

pub open spec fn spec_text_year(s: Seq<char>) -> int {
    dec_digit_value(s[0]) * 1000 + dec_digit_value(s[1]) * 100 + dec_digit_value(s[2]) * 10
        + dec_digit_value(s[3])
}

pub open spec fn spec_text_pair(s: Seq<char>, i: int) -> int {
    dec_digit_value(s[i]) * 10 + dec_digit_value(s[i + 1])
}

/// Whether `s` is the text form of a timestamp whose fields are in range.
pub open spec fn spec_systime_parses(s: Seq<char>) -> bool {
    &&& spec_systime_shape(s)
    &&& spec_valid_date(spec_text_year(s), spec_text_pair(s, 5), spec_text_pair(s, 8))
    &&& spec_text_pair(s, 11) <= 23
    &&& spec_text_pair(s, 14) <= 59
    &&& spec_text_pair(s, 17) <= 59
}

fn dec_digit_of(c: char) -> (r: Option<u8>)
    ensures
        r is Some <==> is_dec_digit_char(c),
        r matches Some(v) ==> v as int == dec_digit_value(c),
{
    let u = c as u32;
    if '0' as u32 <= u && u <= '9' as u32 {
        Some((u - '0' as u32) as u8)
    } else {
        None
    }
}

impl SysTime {
    /// Parses the form `YYYY-MM-DDTHH:MM:SS`, checking that the fields make a
    /// valid calendar timestamp.
    pub fn parse(s: &str) -> (r: Result<SysTime, Error>)
        ensures
            r is Ok <==> spec_systime_parses(s@),
            r matches Ok(st) ==> st@ == spec_systime_bytes(
                spec_text_year(s@),
                spec_text_pair(s@, 5),
                spec_text_pair(s@, 8),
                weekday_of(spec_text_year(s@), spec_text_pair(s@, 5), spec_text_pair(s@, 8)),
                spec_text_pair(s@, 11),
                spec_text_pair(s@, 14),
                spec_text_pair(s@, 17),
            ),
            r matches Err(e) ==> e is InvalidArgument,
    {
        let err_msg = "cannot parse timestamp: expected YYYY-MM-DDTHH:MM:SS";
        if s.unicode_len() != 19 {
            return Err(Error::InvalidArgument(String::from_str(err_msg)));
        }
        if !(s.get_char(4) == '-' && s.get_char(7) == '-' && s.get_char(10) == 'T' && s.get_char(13)
            == ':' && s.get_char(16) == ':') {
            return Err(Error::InvalidArgument(String::from_str(err_msg)));
        }
        let d0 = match dec_digit_of(s.get_char(0)) {
            Some(v) => v,
            None => {
                return Err(Error::InvalidArgument(String::from_str(err_msg)));
            },
        };
        let d1 = match dec_digit_of(s.get_char(1)) {
            Some(v) => v,
            None => {
                return Err(Error::InvalidArgument(String::from_str(err_msg)));
            },
        };
        let d2 = match dec_digit_of(s.get_char(2)) {
            Some(v) => v,
            None => {
                return Err(Error::InvalidArgument(String::from_str(err_msg)));
            },
        };
        let d3 = match dec_digit_of(s.get_char(3)) {
            Some(v) => v,
            None => {
                return Err(Error::InvalidArgument(String::from_str(err_msg)));
            },
        };
        let year: u16 = d0 as u16 * 1000 + d1 as u16 * 100 + d2 as u16 * 10 + d3 as u16;
        let month = match Self::parse_pair(s, 5) {
            Some(v) => v,
            None => {
                return Err(Error::InvalidArgument(String::from_str(err_msg)));
            },
        };
        let day = match Self::parse_pair(s, 8) {
            Some(v) => v,
            None => {
                return Err(Error::InvalidArgument(String::from_str(err_msg)));
            },
        };
        let hour = match Self::parse_pair(s, 11) {
            Some(v) => v,
            None => {
                return Err(Error::InvalidArgument(String::from_str(err_msg)));
            },
        };
        let minute = match Self::parse_pair(s, 14) {
            Some(v) => v,
            None => {
                return Err(Error::InvalidArgument(String::from_str(err_msg)));
            },
        };
        let second = match Self::parse_pair(s, 17) {
            Some(v) => v,
            None => {
                return Err(Error::InvalidArgument(String::from_str(err_msg)));
            },
        };
        let range_msg = "cannot parse timestamp: field out of range";
        if !(1 <= month && month <= 12) {
            return Err(Error::InvalidArgument(String::from_str(range_msg)));
        }
        let dim = Self::days_in(year, month);
        if !(1 <= day && day <= dim) {
            return Err(Error::InvalidArgument(String::from_str(range_msg)));
        }
        if !(hour <= 23 && minute <= 59 && second <= 59) {
            return Err(Error::InvalidArgument(String::from_str(range_msg)));
        }
        Ok(Self::new(year, month, day, hour, minute, second))
    }

    /// The two-digit field at position `i`, if both characters are digits.
    fn parse_pair(s: &str, i: usize) -> (r: Option<u8>)
        requires
            s@.len() == 19,
            i + 1 < 19,
        ensures
            r is Some <==> is_dec_digit_char(s@[i as int]) && is_dec_digit_char(s@[i as int + 1]),
            r matches Some(v) ==> v as int == spec_text_pair(s@, i as int),
    {
        let hi = match dec_digit_of(s.get_char(i)) {
            Some(v) => v,
            None => {
                return None;
            },
        };
        let lo = match dec_digit_of(s.get_char(i + 1)) {
            Some(v) => v,
            None => {
                return None;
            },
        };
        Some(hi * 10 + lo)
    }

    fn days_in(year: u16, month: u8) -> (r: u8)
        requires
            1 <= month <= 12,
        ensures
            r as int == days_in_month(year as int, month as int),
    {
        if month == 2 {
            if (year % 4 == 0 && year % 100 != 0) || year % 400 == 0 {
                29
            } else {
                28
            }
        } else if month == 4 || month == 6 || month == 9 || month == 11 {
            30
        } else {
            31
        }
    }
}

impl core::str::FromStr for SysTime {
    type Err = Error;

    fn from_str(s: &str) -> Result<SysTime, Error> {
        SysTime::parse(s)
    }
}

} // verus!

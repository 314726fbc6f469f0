use vstd::prelude::*;

use crate::calendar::{
    current_local_year, local_instant, local_result, wall_clock_result, parse_rfc3339, rfc3339_instant,
    valid_calendar_date,
};
use crate::errors::ZapError;
use crate::file_time_util::AdjustableFileTime;

verus! {

/// Whether `c` is one of the ASCII digits.
pub open spec fn is_digit(c: char) -> bool {
    '0' <= c && c <= '9'
}

/// The value of the ASCII digit `c`.
pub open spec fn digit_value(c: char) -> int {
    c as int - '0' as int
}

/// Whether every character of `s` is an ASCII digit.
pub open spec fn all_digits(s: Seq<char>) -> bool {
    forall|i: int| 0 <= i < s.len() ==> #[trigger] is_digit(s[i])
}

/// The number written by the two digits of `s` at positions `i` and `i + 1`.
pub open spec fn two_digits(s: Seq<char>, i: int) -> int {
    10 * digit_value(s[i]) + digit_value(s[i + 1])
}

/// Whether an adjustment string starts with a minus sign.
pub open spec fn adjustment_negative(s: Seq<char>) -> bool {
    s.len() > 0 && s[0] == '-'
}

/// The digits of an adjustment string, after its optional minus sign.
pub open spec fn adjustment_digits(s: Seq<char>) -> Seq<char> {
    if adjustment_negative(s) {
        s.drop_first()
    } else {
        s
    }
}

/// `[-][[hh]mm]SS`: an optional minus sign, then two, four or six digits.
pub open spec fn adjustment_well_formed(s: Seq<char>) -> bool {
    let d = adjustment_digits(s);
    &&& d.len() == 2 || d.len() == 4 || d.len() == 6
    &&& all_digits(d)
}

/// The seconds written by the digits `d`, read from the right in groups of two:
/// seconds, minutes, hours.
pub open spec fn adjustment_magnitude(d: Seq<char>) -> int {
    let n = d.len() as int;
    two_digits(d, n - 2) + (if n >= 4 {
        60 * two_digits(d, n - 4)
    } else {
        0
    }) + (if n >= 6 {
        3600 * two_digits(d, n - 6)
    } else {
        0
    })
}

/// The signed number of seconds that a well-formed adjustment string stands for.
pub open spec fn adjustment_seconds(s: Seq<char>) -> int {
    let m = adjustment_magnitude(adjustment_digits(s));
    if adjustment_negative(s) {
        -m
    } else {
        m
    }
}

/// The value of the digit `c`, if it is one.
fn digit_at(s: &str, i: usize) -> (r: Option<u32>)
    requires
        i < s@.len(),
    ensures
        r is Some <==> is_digit(s@[i as int]),
        r is Some ==> r->Some_0 == digit_value(s@[i as int]),
{
    let c = s.get_char(i);
    if '0' <= c && c <= '9' {
        Some((c as u32) - ('0' as u32))
    } else {
        None
    }
}

/// The number written by the two digits of `s` at `i` and `i + 1`, if both are digits.
fn two_digits_at(s: &str, i: usize) -> (r: Option<u32>)
    requires
        i + 1 < s@.len() <= usize::MAX,
    ensures
        r is Some <==> (is_digit(s@[i as int]) && is_digit(s@[i + 1])),
        r is Some ==> r->Some_0 == two_digits(s@, i as int),
        r is Some ==> r->Some_0 < 100,
{
    match (digit_at(s, i), digit_at(s, i + 1)) {
        (Some(a), Some(b)) => Some(10 * a + b),
        _ => None,
    }
}

/// Reads an adjustment `[-][[hh]mm]SS` as a signed number of seconds.
pub fn parse_adjust(s: &str) -> (r: Result<i32, ZapError>)
    ensures
        r is Ok <==> adjustment_well_formed(s@),
        r is Ok ==> r->Ok_0 == adjustment_seconds(s@),
        r is Err ==> r->Err_0 is ParseAdjustment,
{
    let n = s.unicode_len();
    let negative = n > 0 && s.get_char(0) == '-';
    let start: usize = if negative { 1 } else { 0 };
    let len = n - start;
    let ghost d = adjustment_digits(s@);
    assert(d.len() == len);
    assert(forall|i: int| 0 <= i < d.len() ==> d[i] == s@[i + start]);
    if len != 2 && len != 4 && len != 6 {
        return Err(
            ZapError::ParseAdjustment {
                reason: String::from_str("expected two, four or six digits"),
            },
        );
    }
    let seconds = two_digits_at(s, n - 2);
    let minutes = if len >= 4 { two_digits_at(s, n - 4) } else { Some(0) };
    let hours = if len >= 6 { two_digits_at(s, n - 6) } else { Some(0) };
    match (seconds, minutes, hours) {
        (Some(ss), Some(mm), Some(hh)) => {
            proof {
                assert forall|i: int| 0 <= i < d.len() implies is_digit(#[trigger] d[i]) by {
                    assert(d[i] == s@[i + start]);
                }
            }
            let magnitude = (ss + 60 * mm + 3600 * hh) as i32;
            if negative {
                Ok(-magnitude)
            } else {
                Ok(magnitude)
            }
        }
        _ => {
            proof {
                assert(!all_digits(d)) by {
                    if seconds is None {
                        assert(!is_digit(d[len - 2]) || !is_digit(d[len - 1]));
                    } else if minutes is None {
                        assert(!is_digit(d[len - 4]) || !is_digit(d[len - 3]));
                    } else {
                        assert(!is_digit(d[len - 6]) || !is_digit(d[len - 5]));
                    }
                }
            }
            Err(ZapError::ParseAdjustment { reason: String::from_str("expected only digits") })
        }
    }
}

/// Whether no character of `s` in `[from, to)` is a dot.
pub open spec fn no_dot(s: Seq<char>, from: int, to: int) -> bool {
    forall|i: int| from <= i < to ==> #[trigger] s[i] != '.'
}

/// Whether every character of `s` in `[from, to)` is a digit.
pub open spec fn digits_in(s: Seq<char>, from: int, to: int) -> bool {
    forall|i: int| from <= i < to ==> #[trigger] is_digit(s[i])
}

/// `[[CC]YY]MMDDhhmm[.SS]` has at most one dot, with exactly two characters after it.
pub open spec fn compact_shape_ok(s: Seq<char>) -> bool {
    let n = s.len() as int;
    no_dot(s, 0, n) || (n >= 3 && s[n - 3] == '.' && no_dot(s, 0, n - 3) && no_dot(s, n - 2, n))
}

/// Whether a compact timestamp carries a `.SS` suffix.
pub open spec fn compact_has_seconds(s: Seq<char>) -> bool {
    !no_dot(s, 0, s.len() as int)
}

/// The length of the date part of a compact timestamp (before the `.SS` suffix).
pub open spec fn compact_date_len(s: Seq<char>) -> int {
    if compact_has_seconds(s) {
        s.len() - 3
    } else {
        s.len() as int
    }
}

/// Two-digit years 69 to 99 are 1969 to 1999; 00 to 68 are 2000 to 2068.
pub open spec fn pivot_year(yy: int) -> int {
    if yy >= 69 {
        1900 + yy
    } else {
        2000 + yy
    }
}

/// The year of a compact timestamp: `CCYY` from 12 digits, a pivoted `YY` from 10
/// digits, else `current_year`.
pub open spec fn compact_year(s: Seq<char>, current_year: int) -> int {
    let n = compact_date_len(s);
    if n == 12 {
        100 * two_digits(s, 0) + two_digits(s, 2)
    } else if n == 10 {
        pivot_year(two_digits(s, 0))
    } else {
        current_year
    }
}

/// Where `MMDDhhmm` starts in a compact timestamp: after the year digits.
pub open spec fn compact_offset(s: Seq<char>) -> int {
    compact_date_len(s) - 8
}

/// The calendar fields of a compact timestamp.
#[derive(Clone, Copy, Debug, PartialEq, Eq, Structural)]
pub struct CompactTimestamp {
    pub year: i32,
    pub month: u32,
    pub day: u32,
    pub hour: u32,
    pub minute: u32,
    pub second: u32,
}

/// The fields written at their offsets in a compact timestamp.
pub open spec fn compact_fields(s: Seq<char>, current_year: int) -> CompactTimestamp {
    let o = compact_offset(s);
    CompactTimestamp {
        year: compact_year(s, current_year) as i32,
        month: two_digits(s, o) as u32,
        day: two_digits(s, o + 2) as u32,
        hour: two_digits(s, o + 4) as u32,
        minute: two_digits(s, o + 6) as u32,
        second: if compact_has_seconds(s) {
            two_digits(s, s.len() - 2) as u32
        } else {
            0
        },
    }
}

/// The first check that a compact timestamp fails, in the order in which they are made.
pub enum CompactCheck {
    Malformed,
    SecondNotDigits,
    WrongLength,
    OutOfRange,
    SecondTooLarge,
    Valid,
}

pub open spec fn compact_check(s: Seq<char>, current_year: int) -> CompactCheck {
    let n = compact_date_len(s);
    let f = compact_fields(s, current_year);
    if !compact_shape_ok(s) {
        CompactCheck::Malformed
    } else if compact_has_seconds(s) && !digits_in(s, s.len() - 2, s.len() as int) {
        CompactCheck::SecondNotDigits
    } else if !(n == 8 || n == 10 || n == 12) {
        CompactCheck::WrongLength
    } else if !digits_in(s, 0, n) {
        CompactCheck::Malformed
    } else if !valid_calendar_date(compact_year(s, current_year), f.month as int, f.day as int)
        || f.hour > 23 || f.minute > 59 {
        CompactCheck::OutOfRange
    } else if f.second > 60 {
        CompactCheck::SecondTooLarge
    } else {
        CompactCheck::Valid
    }
}

/// The error reported for a compact timestamp that fails a check.
pub open spec fn compact_error(s: Seq<char>, current_year: int, e: ZapError) -> bool {
    match compact_check(s, current_year) {
        CompactCheck::Malformed => e matches ZapError::ParseTOption { input, .. } && input@ == s,
        CompactCheck::SecondNotDigits => e matches ZapError::TOptionInvalidSecondString { second }
            && second@ == s.subrange(s.len() - 2, s.len() as int),
        CompactCheck::WrongLength => e == ZapError::TOptionWrongLength {
            length: compact_date_len(s) as usize,
        },
        CompactCheck::OutOfRange => e matches ZapError::TOptionOutOfRange { input } && input@ == s,
        CompactCheck::SecondTooLarge => e == ZapError::TOptionInvalidSecond {
            second: compact_fields(s, current_year).second,
        },
        CompactCheck::Valid => false,
    }
}

/// Whether `s` has a dot in `[from, to)`.
fn has_dot_in(s: &str, from: usize, to: usize) -> (r: bool)
    requires
        from <= to <= s@.len(),
    ensures
        r == !no_dot(s@, from as int, to as int),
{
    let mut i = from;
    while i < to
        invariant
            from <= i <= to <= s@.len(),
            no_dot(s@, from as int, i as int),
        decreases to - i,
    {
        if s.get_char(i) == '.' {
            return true;
        }
        i = i + 1;
    }
    false
}

/// Whether every character of `s` in `[from, to)` is a digit.
fn all_digits_in(s: &str, from: usize, to: usize) -> (r: bool)
    requires
        from <= to <= s@.len(),
    ensures
        r == digits_in(s@, from as int, to as int),
{
    let mut i = from;
    while i < to
        invariant
            from <= i <= to <= s@.len(),
            digits_in(s@, from as int, i as int),
        decreases to - i,
    {
        let c = s.get_char(i);
        if !('0' <= c && c <= '9') {
            assert(!is_digit(s@[i as int]));
            return false;
        }
        i = i + 1;
    }
    true
}

/// The number written by two characters already known to be digits.
fn two_known_digits(s: &str, i: usize) -> (r: u32)
    requires
        i + 1 < s@.len() <= usize::MAX,
        is_digit(s@[i as int]),
        is_digit(s@[i + 1]),
    ensures
        r == two_digits(s@, i as int),
        r < 100,
{
    let a = s.get_char(i);
    let b = s.get_char(i + 1);
    10 * ((a as u32) - ('0' as u32)) + ((b as u32) - ('0' as u32))
}

/// Reads the calendar fields of a compact timestamp `[[CC]YY]MMDDhhmm[.SS]`, taking
/// `current_year` as the year of an eight-digit one.
pub fn parse_t_fields(s: &str, current_year: i32) -> (r: Result<CompactTimestamp, ZapError>)
    ensures
        compact_check(s@, current_year as int) is Valid ==> r == Ok::<CompactTimestamp, ZapError>(
            compact_fields(s@, current_year as int),
        ),
        !(compact_check(s@, current_year as int) is Valid) ==> (r is Err && compact_error(
            s@,
            current_year as int,
            r->Err_0,
        )),
{
    let n = s.unicode_len();
    let ghost sv = s@;
    let dotted = has_dot_in(s, 0, n);
    let date_len: usize = if !dotted {
        n
    } else if n >= 3 && s.get_char(n - 3) == '.' && !has_dot_in(s, 0, n - 3) && !has_dot_in(
        s,
        n - 2,
        n,
    ) {
        n - 3
    } else {
        return Err(
            ZapError::ParseTOption {
                input: String::from_str(s),
                reason: String::from_str("format must be [[CC]YY]MMDDhhmm[.SS]"),
            },
        );
    };
    assert(compact_shape_ok(sv));
    assert(date_len == compact_date_len(sv));
    let second: u32 = if dotted {
        if !all_digits_in(s, n - 2, n) {
            return Err(
                ZapError::TOptionInvalidSecondString {
                    second: String::from_str(s.substring_char(n - 2, n)),
                },
            );
        }
        two_known_digits(s, n - 2)
    } else {
        0
    };
    if date_len != 8 && date_len != 10 && date_len != 12 {
        return Err(ZapError::TOptionWrongLength { length: date_len });
    }
    if !all_digits_in(s, 0, date_len) {
        return Err(
            ZapError::ParseTOption {
                input: String::from_str(s),
                reason: String::from_str("the date and time must be digits"),
            },
        );
    }
    let year: i32 = if date_len == 12 {
        (100 * two_known_digits(s, 0) + two_known_digits(s, 2)) as i32
    } else if date_len == 10 {
        let yy = two_known_digits(s, 0);
        if yy >= 69 {
            (1900 + yy) as i32
        } else {
            (2000 + yy) as i32
        }
    } else {
        current_year
    };
    let o = date_len - 8;
    let month = two_known_digits(s, o);
    let day = two_known_digits(s, o + 2);
    let hour = two_known_digits(s, o + 4);
    let minute = two_known_digits(s, o + 6);
    let fields = CompactTimestamp { year, month, day, hour, minute, second };
    assert(fields == compact_fields(sv, current_year as int));
    let date_ok = chrono::NaiveDate::from_ymd_opt(year, month, day).is_some();
    if !date_ok || hour > 23 || minute > 59 {
        return Err(ZapError::TOptionOutOfRange { input: String::from_str(s) });
    }
    if second > 60 {
        return Err(ZapError::TOptionInvalidSecond { second });
    }
    Ok(fields)
}

/// The instant of valid compact fields, given the Unix seconds `base` that the time
/// zone gives for them (with the seconds read as at most 59): a leap second is one
/// second later; no answer from the zone is the error for a local time that does not
/// exist or is ambiguous.
pub open spec fn compact_resolved(
    fields: CompactTimestamp,
    base: Option<i64>,
) -> Result<AdjustableFileTime, ZapError> {
    match local_result(base, fields.second == 60, 0) {
        Some(t) => Ok(t),
        None => Err(ZapError::TOptionConvertToLocal),
    }
}

/// What a compact timestamp yields, given the year read from the clock and the answer
/// of the time zone: the error of the first failed check, else the resolved instant.
pub open spec fn compact_outcome(
    s: Seq<char>,
    current_year: int,
    base: Option<i64>,
    r: Result<AdjustableFileTime, ZapError>,
) -> bool {
    if compact_check(s, current_year) is Valid {
        r == compact_resolved(compact_fields(s, current_year), base)
    } else {
        r is Err && compact_error(s, current_year, r->Err_0)
    }
}

/// The instant of a compact timestamp's fields in the machine's time zone.
pub fn resolve_compact(fields: CompactTimestamp) -> (r: Result<AdjustableFileTime, ZapError>)
    requires
        valid_calendar_date(fields.year as int, fields.month as int, fields.day as int),
        fields.hour < 24,
        fields.minute < 60,
        fields.second <= 60,
    ensures
        exists|base: Option<i64>| r == #[trigger] compact_resolved(fields, base),
{
    let t = local_instant(
        fields.year,
        fields.month,
        fields.day,
        fields.hour,
        fields.minute,
        fields.second,
        0,
    );
    let ghost base = choose|base: Option<i64>| t == wall_clock_result(base, fields.second, 0);
    let r = match t {
        Some(t) => Ok(t),
        None => Err(ZapError::TOptionConvertToLocal),
    };
    assert(r == compact_resolved(fields, base));
    r
}

/// Reads a compact timestamp `[[CC]YY]MMDDhhmm[.SS]` as local wall-clock time; an
/// eight-digit one is in the current year.
pub fn parse_t_format(s: &str) -> (r: Result<AdjustableFileTime, ZapError>)
    ensures
        exists|current_year: i32, base: Option<i64>|
            compact_outcome(s@, current_year as int, base, r),
{
    let current_year = current_local_year();
    match parse_t_fields(s, current_year) {
        Ok(fields) => {
            let r = resolve_compact(fields);
            let ghost base = choose|base: Option<i64>| r == compact_resolved(fields, base);
            assert(compact_outcome(s@, current_year as int, base, r));
            r
        },
        Err(e) => {
            let r = Err(e);
            assert(compact_outcome(s@, current_year as int, None, r));
            r
        },
    }
}

/// `YYYY-MM-DD` then `T` or a space, then `hh:mm:ss`, then optionally a dot and one or
/// more digits of fraction.
pub open spec fn iso_local_shape(s: Seq<char>) -> bool {
    let n = s.len() as int;
    &&& n >= 19
    &&& digits_in(s, 0, 4)
    &&& s[4] == '-'
    &&& digits_in(s, 5, 7)
    &&& s[7] == '-'
    &&& digits_in(s, 8, 10)
    &&& (s[10] == 'T' || s[10] == ' ')
    &&& digits_in(s, 11, 13)
    &&& s[13] == ':'
    &&& digits_in(s, 14, 16)
    &&& s[16] == ':'
    &&& digits_in(s, 17, 19)
    &&& (n == 19 || (n >= 21 && s[19] == '.' && digits_in(s, 20, n)))
}

/// The `i`-th digit of a fraction, zero past its end.
pub open spec fn frac_digit(s: Seq<char>, i: int) -> int {
    if 20 + i < s.len() {
        digit_value(s[20 + i])
    } else {
        0
    }
}

/// The number written by the first `k` fraction digits, padded with zeros.
pub open spec fn frac_prefix_value(s: Seq<char>, k: nat) -> int
    decreases k,
{
    if k == 0 {
        0
    } else {
        10 * frac_prefix_value(s, (k - 1) as nat) + frac_digit(s, k - 1)
    }
}

pub open spec fn pow10(k: nat) -> int
    decreases k,
{
    if k == 0 {
        1
    } else {
        10 * pow10((k - 1) as nat)
    }
}

/// A wall-clock date and time without a time zone.
#[derive(Clone, Copy, Debug, PartialEq, Eq, Structural)]
pub struct LocalDateTime {
    pub year: i32,
    pub month: u32,
    pub day: u32,
    pub hour: u32,
    pub minute: u32,
    pub second: u32,
    pub nanos: u32,
}

/// The fields of an ISO date-time without offset; the fraction is cut after nine
/// digits.
pub open spec fn iso_local_fields(s: Seq<char>) -> LocalDateTime {
    LocalDateTime {
        year: (100 * two_digits(s, 0) + two_digits(s, 2)) as i32,
        month: two_digits(s, 5) as u32,
        day: two_digits(s, 8) as u32,
        hour: two_digits(s, 11) as u32,
        minute: two_digits(s, 14) as u32,
        second: two_digits(s, 17) as u32,
        nanos: frac_prefix_value(s, 9) as u32,
    }
}

/// A wall-clock date-time whose fields are in range (a second of 60 is a leap second).
pub open spec fn local_fields_in_range(f: LocalDateTime) -> bool {
    &&& valid_calendar_date(f.year as int, f.month as int, f.day as int)
    &&& f.hour < 24
    &&& f.minute < 60
    &&& f.second <= 60
}

/// Whether `s` is a well-formed ISO date-time without offset whose fields are in range.
pub open spec fn iso_local_valid(s: Seq<char>) -> bool {
    iso_local_shape(s) && local_fields_in_range(iso_local_fields(s))
}

/// Reads an ISO date-time without offset: `YYYY-MM-DD`, `T` or a space, `hh:mm:ss`,
/// then an optional fraction of any length (digits past the ninth are ignored).
pub fn parse_local_date_time(s: &str) -> (r: Option<LocalDateTime>)
    ensures
        r is Some <==> iso_local_valid(s@),
        r is Some ==> r->Some_0 == iso_local_fields(s@),
{
    let n = s.unicode_len();
    if n < 19 {
        return None;
    }
    let sep = s.get_char(10);
    if !(all_digits_in(s, 0, 4) && s.get_char(4) == '-' && all_digits_in(s, 5, 7) && s.get_char(7)
        == '-' && all_digits_in(s, 8, 10) && (sep == 'T' || sep == ' ') && all_digits_in(s, 11, 13)
        && s.get_char(13) == ':' && all_digits_in(s, 14, 16) && s.get_char(16) == ':'
        && all_digits_in(s, 17, 19)) {
        return None;
    }
    if n != 19 && !(n >= 21 && s.get_char(19) == '.' && all_digits_in(s, 20, n)) {
        return None;
    }
    assert(iso_local_shape(s@));
    let mut nanos: u32 = 0;
    let mut i: usize = 0;
    while i < 9
        invariant
            i <= 9,
            n == s@.len(),
            iso_local_shape(s@),
            nanos == frac_prefix_value(s@, i as nat),
            nanos < pow10(i as nat),
        decreases 9 - i,
    {
        let d: u32 = if 20 + i < n {
            assert(is_digit(s@[20 + i]));
            let c = s.get_char(20 + i);
            (c as u32) - ('0' as u32)
        } else {
            0
        };
        assert(pow10((i + 1) as nat) == 10 * pow10(i as nat));
        assert(pow10((i + 1) as nat) <= 1_000_000_000) by {
            reveal_with_fuel(pow10, 10);
        }
        nanos = 10 * nanos + d;
        i = i + 1;
    }
    let f = LocalDateTime {
        year: (100 * two_known_digits(s, 0) + two_known_digits(s, 2)) as i32,
        month: two_known_digits(s, 5),
        day: two_known_digits(s, 8),
        hour: two_known_digits(s, 11),
        minute: two_known_digits(s, 14),
        second: two_known_digits(s, 17),
        nanos,
    };
    assert(f == iso_local_fields(s@));
    let date_ok = chrono::NaiveDate::from_ymd_opt(f.year, f.month, f.day).is_some();
    if !date_ok || f.hour > 23 || f.minute > 59 || f.second > 60 {
        return None;
    }
    Some(f)
}

/// The ASCII digit of a value from 0 to 9.
pub open spec fn digit_char(d: int) -> char {
    (d + '0' as int) as char
}

/// A number from 0 to 99 written with two digits.
pub open spec fn two_digit_text(n: int) -> Seq<char> {
    seq![digit_char(n / 10), digit_char(n % 10)]
}

/// A wall-clock date-time written as `YYYY-MM-DDThh:mm:ss`, to the whole second.
pub open spec fn iso_local_text(f: LocalDateTime) -> Seq<char> {
    two_digit_text(f.year as int / 100) + two_digit_text(f.year as int % 100) + seq!['-'] + two_digit_text(
        f.month as int,
    ) + seq!['-'] + two_digit_text(f.day as int) + seq!['T'] + two_digit_text(f.hour as int)
        + seq![':'] + two_digit_text(f.minute as int) + seq![':'] + two_digit_text(
        f.second as int,
    )
}

proof fn lemma_two_digit_text(s: Seq<char>, i: int, n: int)
    requires
        0 <= n < 100,
        0 <= i,
        i + 1 < s.len(),
        s.subrange(i, i + 2) == two_digit_text(n),
    ensures
        is_digit(s[i]),
        is_digit(s[i + 1]),
        two_digits(s, i) == n,
{
    assert(s[i] == s.subrange(i, i + 2)[0]);
    assert(s[i + 1] == s.subrange(i, i + 2)[1]);
}

/// Reading back a whole-second wall-clock date-time (year 0 to 9999, fields in range)
/// that was written as `YYYY-MM-DDThh:mm:ss` gives the same fields.
pub proof fn lemma_iso_local_round_trip(f: LocalDateTime)
    requires
        0 <= f.year <= 9999,
        local_fields_in_range(f),
        f.nanos == 0,
    ensures
        iso_local_valid(iso_local_text(f)),
        iso_local_fields(iso_local_text(f)) == f,
{
    let s = iso_local_text(f);
    assert(s.len() == 19);
    assert(s.subrange(0, 2) =~= two_digit_text(f.year as int / 100));
    assert(s.subrange(2, 4) =~= two_digit_text(f.year as int % 100));
    assert(s.subrange(5, 7) =~= two_digit_text(f.month as int));
    assert(s.subrange(8, 10) =~= two_digit_text(f.day as int));
    assert(s.subrange(11, 13) =~= two_digit_text(f.hour as int));
    assert(s.subrange(14, 16) =~= two_digit_text(f.minute as int));
    assert(s.subrange(17, 19) =~= two_digit_text(f.second as int));
    lemma_two_digit_text(s, 0, f.year as int / 100);
    lemma_two_digit_text(s, 2, f.year as int % 100);
    lemma_two_digit_text(s, 5, f.month as int);
    lemma_two_digit_text(s, 8, f.day as int);
    lemma_two_digit_text(s, 11, f.hour as int);
    lemma_two_digit_text(s, 14, f.minute as int);
    lemma_two_digit_text(s, 17, f.second as int);
    assert(s[4] == '-' && s[7] == '-' && s[10] == 'T' && s[13] == ':' && s[16] == ':');
    assert(frac_prefix_value(s, 9) == 0) by {
        reveal_with_fuel(frac_prefix_value, 10);
    }
    assert(iso_local_fields(s) == f);
}

/// What an absolute date-time string yields, given the answer `base` of the time zone
/// for a wall-clock time: the instant that chrono's RFC 3339 reader gives, where it
/// accepts the string; else, for a valid ISO date-time without offset, its local
/// instant with the fraction kept (a leap second being one second later), or the error
/// for a local time that does not exist or is ambiguous; else the error for a
/// malformed string.
pub open spec fn absolute_outcome(
    s: Seq<char>,
    base: Option<i64>,
    r: Result<AdjustableFileTime, ZapError>,
) -> bool {
    match rfc3339_instant(s) {
        Some(x) => r == Ok::<AdjustableFileTime, ZapError>(
            AdjustableFileTime { seconds: x.0, nanos: x.1 },
        ),
        None => if iso_local_valid(s) {
            let f = iso_local_fields(s);
            match local_result(base, f.second == 60, f.nanos) {
                Some(t) => r == Ok::<AdjustableFileTime, ZapError>(t),
                None => r is Err && (r->Err_0 matches ZapError::ParseRfc3339 { input, .. } && input@
                    == s),
            }
        } else {
            r is Err && (r->Err_0 matches ZapError::ParseRfc3339 { input, .. } && input@ == s)
        },
    }
}

/// Reads an absolute date-time: RFC 3339 with an explicit offset, or an ISO date-time
/// without offset taken as local wall-clock time.
pub fn parse_d_format(s: &str) -> (r: Result<AdjustableFileTime, ZapError>)
    ensures
        exists|base: Option<i64>| #[trigger] absolute_outcome(s@, base, r),
{
    if let Some((seconds, nanos)) = parse_rfc3339(s) {
        let r = Ok(AdjustableFileTime { seconds, nanos });
        assert(absolute_outcome(s@, None, r));
        return r;
    }
    match parse_local_date_time(s) {
        Some(f) => {
            let t = local_instant(f.year, f.month, f.day, f.hour, f.minute, f.second, f.nanos);
            let ghost base = choose|base: Option<i64>| t == wall_clock_result(base, f.second, f.nanos);
            let r = match t {
                Some(t) => Ok(t),
                None => Err(
                    ZapError::ParseRfc3339 {
                        input: String::from_str(s),
                        reason: String::from_str("Failed to convert local time"),
                    },
                ),
            };
            assert(absolute_outcome(s@, base, r));
            r
        },
        None => {
            let r = Err(
                ZapError::ParseRfc3339 {
                    input: String::from_str(s),
                    reason: String::from_str(
                        "Invalid date-time format, expected RFC3339 or YYYY-MM-DDThh:mm:SS[.frac]",
                    ),
                },
            );
            assert(absolute_outcome(s@, None, r));
            r
        },
    }
}

} // verus!

//! Calendar dates and fixed-offset timestamps, with their wire formats.
//!
//! Dates travel as text.  Decoding tries each supported format in a
//! fixed order — the ISO calendar form `YYYY-MM-DD` first, then the
//! slash-separated form `YYYY/MM/DD` — and fails when none matches.
//! Encoding always emits the ISO form.  Timestamps use the RFC 3339
//! shape `YYYY-MM-DDTHH:MM:SS` followed by `Z` or a `+HH:MM` / `-HH:MM`
//! offset.

use vstd::prelude::*;
use vstd::string::StrSliceExecFns;
use vstd::string::StringExecFns;
use crate::num::digit_char;
use crate::num::digit_str;
use crate::num::digit_val;
use crate::num::is_digit;
use crate::num::is_digit_exec;

verus! {

/// Whether `y` is a leap year of the Gregorian calendar.
pub open spec fn leap_year(y: int) -> bool {
    y % 4 == 0 && (y % 100 != 0 || y % 400 == 0)
}

/// The number of days of month `m` in year `y`.
pub open spec fn days_in_month(y: int, m: int) -> int {
    if m == 2 {
        if leap_year(y) {
            29
        } else {
            28
        }
    } else if m == 4 || m == 6 || m == 9 || m == 11 {
        30
    } else {
        31
    }
}

/// Whether year, month and day form a real calendar date with a
/// four-digit year.
pub open spec fn valid_ymd(y: int, m: int, d: int) -> bool {
    0 <= y <= 9999 && 1 <= m <= 12 && 1 <= d <= days_in_month(y, m)
}

/// A calendar date.
///
/// Values produced by [`Date::from_ymd`] or by decoding always satisfy
/// [`Date::valid`]; the wire form of any other value will not decode
/// back.
#[derive(Debug, Clone, Copy, PartialEq, Eq, Structural)]
pub struct Date {
    pub year: u16,
    pub month: u8,
    pub day: u8,
}

impl Date {
    /// Whether the fields form a real calendar date.
    pub open spec fn valid(self) -> bool {
        valid_ymd(self.year as int, self.month as int, self.day as int)
    }

    /// Builds a date after checking it exists in the calendar.
    pub fn from_ymd(year: u16, month: u8, day: u8) -> (r: Option<Date>)
        ensures
            match r {
                Some(dt) => dt == (Date { year, month, day }) && dt.valid(),
                None => !valid_ymd(year as int, month as int, day as int),
            },
    {
        if year <= 9999 && 1 <= month && month <= 12 && 1 <= day && day <= days_in_month_exec(
            year,
            month,
        ) {
            Some(Date { year, month, day })
        } else {
            None
        }
    }
}

/// The number of days of month `m` in year `y`.
pub(crate) fn days_in_month_exec(y: u16, m: u8) -> (r: u8)
    requires
        1 <= m <= 12,
    ensures
        r as int == days_in_month(y as int, m as int),
{
    if m == 2 {
        if (y % 4 == 0 && y % 100 != 0) || y % 400 == 0 {
            29
        } else {
            28
        }
    } else if m == 4 || m == 6 || m == 9 || m == 11 {
        30
    } else {
        31
    }
}

/// The two-digit zero-padded rendering of `n`'s last two digits.
pub open spec fn pad2(n: int) -> Seq<char> {
    seq![digit_char((n / 10) % 10), digit_char(n % 10)]
}

/// The four-digit zero-padded rendering of `n`'s last four digits.
pub open spec fn pad4(n: int) -> Seq<char> {
    seq![
        digit_char((n / 1000) % 10),
        digit_char((n / 100) % 10),
        digit_char((n / 10) % 10),
        digit_char(n % 10),
    ]
}

/// Appends the two-digit rendering of `n % 100`.
pub(crate) fn push_pad2(s: &mut String, n: u8)
    ensures
        final(s)@ == old(s)@ + pad2(n as int),
{
    s.append(digit_str(((n / 10) % 10) as u64));
    s.append(digit_str((n % 10) as u64));
    proof {
        assert(old(s)@ + seq![digit_char(((n as int) / 10) % 10)] + seq![digit_char((n as int) % 10)]
            =~= old(s)@ + pad2(n as int));
    }
}

/// Appends the four-digit rendering of `n % 10000`.
pub(crate) fn push_pad4(s: &mut String, n: u16)
    ensures
        final(s)@ == old(s)@ + pad4(n as int),
{
    s.append(digit_str(((n / 1000) % 10) as u64));
    s.append(digit_str(((n / 100) % 10) as u64));
    s.append(digit_str(((n / 10) % 10) as u64));
    s.append(digit_str((n % 10) as u64));
    proof {
        assert(old(s)@ + seq![digit_char(((n as int) / 1000) % 10)] + seq![digit_char(((n as int)
            / 100) % 10)] + seq![digit_char(((n as int) / 10) % 10)] + seq![digit_char(
            (n as int) % 10,
        )] =~= old(s)@ + pad4(n as int));
    }
}

/// The ISO rendering `YYYY-MM-DD` of a date.
pub open spec fn spec_render_date(dt: Date) -> Seq<char> {
    pad4(dt.year as int) + seq!['-'] + pad2(dt.month as int) + seq!['-'] + pad2(dt.day as int)
}

/// Renders a date in the ISO calendar form.
pub fn render_date(dt: &Date) -> (r: String)
    ensures
        r@ == spec_render_date(*dt),
{
    let mut s = String::new();
    push_pad4(&mut s, dt.year);
    s.append("-");
    push_pad2(&mut s, dt.month);
    s.append("-");
    push_pad2(&mut s, dt.day);
    proof {
        reveal_strlit("-");
        assert("-"@ =~= seq!['-']);
        assert(Seq::<char>::empty() + pad4(dt.year as int) =~= pad4(dt.year as int));
    }
    s
}

/// The date accepted in one textual format, using `sep` between the
/// year, month and day fields: four digits, `sep`, two digits, `sep`,
/// two digits, forming a real calendar date.
pub open spec fn spec_parse_date_fmt(s: Seq<char>, sep: char) -> Option<Date> {
    if s.len() == 10 && is_digit(s[0]) && is_digit(s[1]) && is_digit(s[2]) && is_digit(s[3]) && s[4]
        == sep && is_digit(s[5]) && is_digit(s[6]) && s[7] == sep && is_digit(s[8]) && is_digit(
        s[9],
    ) {
        let y = digit_val(s[0]) * 1000 + digit_val(s[1]) * 100 + digit_val(s[2]) * 10 + digit_val(
            s[3],
        );
        let m = digit_val(s[5]) * 10 + digit_val(s[6]);
        let d = digit_val(s[8]) * 10 + digit_val(s[9]);
        if valid_ymd(y, m, d) {
            Some(Date { year: y as u16, month: m as u8, day: d as u8 })
        } else {
            None
        }
    } else {
        None
    }
}

/// The date accepted by the decoding chain: the ISO form first, then
/// the slash form.
pub open spec fn spec_parse_date(s: Seq<char>) -> Option<Date> {
    if spec_parse_date_fmt(s, '-') is Some {
        spec_parse_date_fmt(s, '-')
    } else {
        spec_parse_date_fmt(s, '/')
    }
}

/// Parses a date in one textual format.
pub fn parse_date_fmt(s: &str, sep: char) -> (r: Option<Date>)
    ensures
        r == spec_parse_date_fmt(s@, sep),
{
    if s.unicode_len() != 10 {
        return None;
    }
    let c0 = s.get_char(0);
    let c1 = s.get_char(1);
    let c2 = s.get_char(2);
    let c3 = s.get_char(3);
    let c4 = s.get_char(4);
    let c5 = s.get_char(5);
    let c6 = s.get_char(6);
    let c7 = s.get_char(7);
    let c8 = s.get_char(8);
    let c9 = s.get_char(9);
    if !(is_digit_exec(c0) && is_digit_exec(c1) && is_digit_exec(c2) && is_digit_exec(c3) && c4
        == sep && is_digit_exec(c5) && is_digit_exec(c6) && c7 == sep && is_digit_exec(c8)
        && is_digit_exec(c9)) {
        return None;
    }
    let y: u32 = (c0 as u32 - 48) * 1000 + (c1 as u32 - 48) * 100 + (c2 as u32 - 48) * 10 + (
    c3 as u32 - 48);
    let m: u8 = ((c5 as u32 - 48) * 10 + (c6 as u32 - 48)) as u8;
    let d: u8 = ((c8 as u32 - 48) * 10 + (c9 as u32 - 48)) as u8;
    if m < 1 || m > 12 {
        return None;
    }
    if d < 1 || d > days_in_month_exec(y as u16, m) {
        return None;
    }
    Some(Date { year: y as u16, month: m, day: d })
}

/// Parses a date, trying each supported format in order.
pub fn parse_date(s: &str) -> (r: Option<Date>)
    ensures
        r == spec_parse_date(s@),
{
    let first = parse_date_fmt(s, '-');
    match first {
        Some(dt) => Some(dt),
        None => parse_date_fmt(s, '/'),
    }
}

/// A timestamp with a fixed offset from UTC, at second precision.
///
/// Values produced by [`DateTime::new`] or by decoding always satisfy
/// [`DateTime::valid`].
#[derive(Debug, Clone, Copy, PartialEq, Eq, Structural)]
pub struct DateTime {
    pub date: Date,
    pub hour: u8,
    pub minute: u8,
    pub second: u8,
    pub offset_minutes: i32,
}

impl DateTime {
    /// Whether the fields form a real timestamp with an offset of less
    /// than a day, in minutes.
    pub open spec fn valid(self) -> bool {
        self.date.valid() && self.hour <= 23 && self.minute <= 59 && self.second <= 59 && -1439
            <= self.offset_minutes <= 1439
    }

    /// Builds a timestamp after checking every field's range.
    pub fn new(date: Date, hour: u8, minute: u8, second: u8, offset_minutes: i32) -> (r: Option<
        DateTime,
    >)
        ensures
            match r {
                Some(t) => t == (DateTime { date, hour, minute, second, offset_minutes })
                    && t.valid(),
                None => !(DateTime { date, hour, minute, second, offset_minutes }).valid(),
            },
    {
        let date_ok = date.year <= 9999 && 1 <= date.month && date.month <= 12 && 1 <= date.day
            && date.day <= days_in_month_exec(date.year, date.month);
        if date_ok && hour <= 23 && minute <= 59 && second <= 59 && -1439 <= offset_minutes
            && offset_minutes <= 1439 {
            Some(DateTime { date, hour, minute, second, offset_minutes })
        } else {
            None
        }
    }
}

/// The rendering of an offset: `Z` for UTC, else a sign and `HH:MM`.
pub open spec fn spec_render_offset(off: int) -> Seq<char> {
    if off == 0 {
        seq!['Z']
    } else if off > 0 {
        seq!['+'] + pad2(off / 60) + seq![':'] + pad2(off % 60)
    } else {
        seq!['-'] + pad2((-off) / 60) + seq![':'] + pad2((-off) % 60)
    }
}

/// The rendering `YYYY-MM-DDTHH:MM:SS` followed by the offset.
pub open spec fn spec_render_datetime(t: DateTime) -> Seq<char> {
    spec_render_date(t.date) + seq!['T'] + pad2(t.hour as int) + seq![':'] + pad2(t.minute as int)
        + seq![':'] + pad2(t.second as int) + spec_render_offset(t.offset_minutes as int)
}

/// Appends the two-digit rendering of `n % 100`.
fn push_pad2_u64(s: &mut String, n: u64)
    ensures
        final(s)@ == old(s)@ + pad2(n as int),
{
    s.append(digit_str((n / 10) % 10));
    s.append(digit_str(n % 10));
    proof {
        assert(old(s)@ + seq![digit_char(((n as int) / 10) % 10)] + seq![digit_char((n as int) % 10)]
            =~= old(s)@ + pad2(n as int));
    }
}

/// Renders a timestamp in the RFC 3339 shape.
pub fn render_datetime(t: &DateTime) -> (r: String)
    ensures
        r@ == spec_render_datetime(*t),
{
    let mut s = render_date(&t.date);
    s.append("T");
    push_pad2(&mut s, t.hour);
    s.append(":");
    push_pad2(&mut s, t.minute);
    s.append(":");
    push_pad2(&mut s, t.second);
    proof {
        reveal_strlit("T");
        reveal_strlit(":");
        assert("T"@ =~= seq!['T']);
        assert(":"@ =~= seq![':']);
    }
    let off = t.offset_minutes;
    if off == 0 {
        s.append("Z");
        proof {
            reveal_strlit("Z");
            assert("Z"@ =~= seq!['Z']);
        }
    } else {
        let a: u64 = if off < 0 {
            (-(off as i64)) as u64
        } else {
            off as u64
        };
        if off < 0 {
            s.append("-");
            proof {
                reveal_strlit("-");
                assert("-"@ =~= seq!['-']);
            }
        } else {
            s.append("+");
            proof {
                reveal_strlit("+");
                assert("+"@ =~= seq!['+']);
            }
        }
        push_pad2_u64(&mut s, a / 60);
        s.append(":");
        push_pad2_u64(&mut s, a % 60);
        proof {
            reveal_strlit(":");
            assert(":"@ =~= seq![':']);
        }
    }
    s
}

/// The offset accepted on decode: `Z`, or a sign and `HH:MM` within a
/// day.
pub open spec fn spec_parse_offset(s: Seq<char>) -> Option<i32> {
    if s.len() == 1 && s[0] == 'Z' {
        Some(0)
    } else if s.len() == 6 && (s[0] == '+' || s[0] == '-') && is_digit(s[1]) && is_digit(s[2])
        && s[3] == ':' && is_digit(s[4]) && is_digit(s[5]) {
        let h = digit_val(s[1]) * 10 + digit_val(s[2]);
        let m = digit_val(s[4]) * 10 + digit_val(s[5]);
        if h <= 23 && m <= 59 {
            if s[0] == '-' {
                Some((-(h * 60 + m)) as i32)
            } else {
                Some((h * 60 + m) as i32)
            }
        } else {
            None
        }
    } else {
        None
    }
}

/// Parses an offset suffix.
pub(crate) fn parse_offset(s: &str) -> (r: Option<i32>)
    ensures
        r == spec_parse_offset(s@),
{
    let len = s.unicode_len();
    if len == 1 {
        if s.get_char(0) == 'Z' {
            Some(0)
        } else {
            None
        }
    } else if len == 6 {
        let c0 = s.get_char(0);
        let c1 = s.get_char(1);
        let c2 = s.get_char(2);
        let c3 = s.get_char(3);
        let c4 = s.get_char(4);
        let c5 = s.get_char(5);
        if !((c0 == '+' || c0 == '-') && is_digit_exec(c1) && is_digit_exec(c2) && c3 == ':'
            && is_digit_exec(c4) && is_digit_exec(c5)) {
            return None;
        }
        let h: u32 = (c1 as u32 - 48) * 10 + (c2 as u32 - 48);
        let m: u32 = (c4 as u32 - 48) * 10 + (c5 as u32 - 48);
        if h > 23 || m > 59 {
            return None;
        }
        let v: i32 = (h * 60 + m) as i32;
        if c0 == '-' {
            Some(-v)
        } else {
            Some(v)
        }
    } else {
        None
    }
}

/// The timestamp accepted on decode: an ISO date, `T`, `HH:MM:SS`, and
/// an offset, every field within range.
pub open spec fn spec_parse_datetime(s: Seq<char>) -> Option<DateTime> {
    if s.len() >= 20 && s[10] == 'T' && is_digit(s[11]) && is_digit(s[12]) && s[13] == ':'
        && is_digit(s[14]) && is_digit(s[15]) && s[16] == ':' && is_digit(s[17]) && is_digit(
        s[18],
    ) {
        let h = digit_val(s[11]) * 10 + digit_val(s[12]);
        let mi = digit_val(s[14]) * 10 + digit_val(s[15]);
        let sec = digit_val(s[17]) * 10 + digit_val(s[18]);
        match (spec_parse_date_fmt(s.take(10), '-'), spec_parse_offset(s.skip(19))) {
            (Some(date), Some(off)) => if h <= 23 && mi <= 59 && sec <= 59 {
                Some(
                    DateTime {
                        date,
                        hour: h as u8,
                        minute: mi as u8,
                        second: sec as u8,
                        offset_minutes: off,
                    },
                )
            } else {
                None
            },
            _ => None,
        }
    } else {
        None
    }
}

/// Parses a timestamp in the RFC 3339 shape.
pub fn parse_datetime(s: &str) -> (r: Option<DateTime>)
    ensures
        r == spec_parse_datetime(s@),
{
    let len = s.unicode_len();
    if len < 20 {
        return None;
    }
    let date_part = s.substring_char(0, 10);
    proof {
        assert(date_part@ =~= s@.take(10));
    }
    let c10 = s.get_char(10);
    let c11 = s.get_char(11);
    let c12 = s.get_char(12);
    let c13 = s.get_char(13);
    let c14 = s.get_char(14);
    let c15 = s.get_char(15);
    let c16 = s.get_char(16);
    let c17 = s.get_char(17);
    let c18 = s.get_char(18);
    if !(c10 == 'T' && is_digit_exec(c11) && is_digit_exec(c12) && c13 == ':' && is_digit_exec(c14)
        && is_digit_exec(c15) && c16 == ':' && is_digit_exec(c17) && is_digit_exec(c18)) {
        return None;
    }
    let date = match parse_date_fmt(date_part, '-') {
        Some(d) => d,
        None => {
            return None;
        },
    };
    let tail = s.substring_char(19, len);
    proof {
        assert(tail@ =~= s@.skip(19));
    }
    let off = match parse_offset(tail) {
        Some(o) => o,
        None => {
            return None;
        },
    };
    let h: u8 = ((c11 as u32 - 48) * 10 + (c12 as u32 - 48)) as u8;
    let mi: u8 = ((c14 as u32 - 48) * 10 + (c15 as u32 - 48)) as u8;
    let sec: u8 = ((c17 as u32 - 48) * 10 + (c18 as u32 - 48)) as u8;
    if h > 23 || mi > 59 || sec > 59 {
        return None;
    }
    Some(DateTime { date, hour: h, minute: mi, second: sec, offset_minutes: off })
}

/// A digit character carries its digit.
pub proof fn lemma_digit_char_val(k: int)
    requires
        0 <= k <= 9,
    ensures
        is_digit(digit_char(k)),
        digit_val(digit_char(k)) == k,
{
}

/// Decomposing a value below ten thousand into its four padded digits
/// loses nothing.
proof fn lemma_pad4_digits(n: int)
    requires
        0 <= n <= 9999,
    ensures
        ((n / 1000) % 10) * 1000 + ((n / 100) % 10) * 100 + ((n / 10) % 10) * 10 + n % 10 == n,
{
    assert(((n / 1000) % 10) * 1000 + ((n / 100) % 10) * 100 + ((n / 10) % 10) * 10 + n % 10 == n)
        by (nonlinear_arith)
        requires
            0 <= n <= 9999,
    ;
}

/// Decomposing a value below one hundred into its two padded digits
/// loses nothing.
proof fn lemma_pad2_digits(n: int)
    requires
        0 <= n <= 99,
    ensures
        ((n / 10) % 10) * 10 + n % 10 == n,
{
    assert(((n / 10) % 10) * 10 + n % 10 == n) by (nonlinear_arith)
        requires
            0 <= n <= 99,
    ;
}

/// A valid date renders to a string that decodes back to the same date:
/// the ISO rendering is always accepted by the first format of the
/// decoding chain.
pub proof fn lemma_date_round_trip(dt: Date)
    requires
        dt.valid(),
    ensures
        spec_parse_date(spec_render_date(dt)) == Some(dt),
        spec_parse_date_fmt(spec_render_date(dt), '-') == Some(dt),
{
    let y = dt.year as int;
    let m = dt.month as int;
    let d = dt.day as int;
    let s = spec_render_date(dt);
    assert(s =~= seq![
        digit_char((y / 1000) % 10),
        digit_char((y / 100) % 10),
        digit_char((y / 10) % 10),
        digit_char(y % 10),
        '-',
        digit_char((m / 10) % 10),
        digit_char(m % 10),
        '-',
        digit_char((d / 10) % 10),
        digit_char(d % 10),
    ]);
    lemma_digit_char_val((y / 1000) % 10);
    lemma_digit_char_val((y / 100) % 10);
    lemma_digit_char_val((y / 10) % 10);
    lemma_digit_char_val(y % 10);
    lemma_digit_char_val((m / 10) % 10);
    lemma_digit_char_val(m % 10);
    lemma_digit_char_val((d / 10) % 10);
    lemma_digit_char_val(d % 10);
    lemma_pad4_digits(y);
    lemma_pad2_digits(m);
    lemma_pad2_digits(d);
    assert(spec_parse_date_fmt(s, '-') == Some(dt));
}

/// A rendered offset decodes back to the same offset.
proof fn lemma_offset_round_trip(off: int)
    requires
        -1439 <= off <= 1439,
    ensures
        spec_parse_offset(spec_render_offset(off)) == Some(off as i32),
{
    let s = spec_render_offset(off);
    if off == 0 {
        assert(s =~= seq!['Z']);
    } else {
        let a = if off > 0 {
            off
        } else {
            -off
        };
        assert(s =~= seq![
            if off > 0 {
                '+'
            } else {
                '-'
            },
            digit_char(((a / 60) / 10) % 10),
            digit_char((a / 60) % 10),
            ':',
            digit_char(((a % 60) / 10) % 10),
            digit_char((a % 60) % 10),
        ]);
        lemma_digit_char_val(((a / 60) / 10) % 10);
        lemma_digit_char_val((a / 60) % 10);
        lemma_digit_char_val(((a % 60) / 10) % 10);
        lemma_digit_char_val((a % 60) % 10);
        lemma_pad2_digits(a / 60);
        lemma_pad2_digits(a % 60);
        assert(digit_val(s[1]) * 10 + digit_val(s[2]) == a / 60);
        assert(digit_val(s[4]) * 10 + digit_val(s[5]) == a % 60);
        assert((a / 60) * 60 + a % 60 == a);
    }
}

/// A valid timestamp renders to a string that decodes back to the same
/// timestamp.
pub proof fn lemma_datetime_round_trip(t: DateTime)
    requires
        t.valid(),
    ensures
        spec_parse_datetime(spec_render_datetime(t)) == Some(t),
{
    let s = spec_render_datetime(t);
    let ds = spec_render_date(t.date);
    let h = t.hour as int;
    let mi = t.minute as int;
    let sec = t.second as int;
    let off = t.offset_minutes as int;
    lemma_date_round_trip(t.date);
    lemma_offset_round_trip(off);
    assert(ds.len() == 10);
    assert(s.len() == 19 + spec_render_offset(off).len());
    assert(s.take(10) =~= ds);
    assert(s.skip(19) =~= spec_render_offset(off));
    assert(s[10] == 'T');
    assert(s[11] == digit_char((h / 10) % 10));
    assert(s[12] == digit_char(h % 10));
    assert(s[13] == ':');
    assert(s[14] == digit_char((mi / 10) % 10));
    assert(s[15] == digit_char(mi % 10));
    assert(s[16] == ':');
    assert(s[17] == digit_char((sec / 10) % 10));
    assert(s[18] == digit_char(sec % 10));
    lemma_digit_char_val((h / 10) % 10);
    lemma_digit_char_val(h % 10);
    lemma_digit_char_val((mi / 10) % 10);
    lemma_digit_char_val(mi % 10);
    lemma_digit_char_val((sec / 10) % 10);
    lemma_digit_char_val(sec % 10);
    lemma_pad2_digits(h);
    lemma_pad2_digits(mi);
    lemma_pad2_digits(sec);
}

} // verus!

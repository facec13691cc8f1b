//! Parsing and rendering of image creation times.
//!
//! An image's creation time arrives as an RFC 3339 string
//! (`2023-10-14T19:22:15Z`, possibly with fractional seconds and a numeric
//! offset). It is normalized to UTC and rendered without fractional seconds,
//! which are irrelevant noise at the time scale of container builds.

use vstd::prelude::*;
use vstd::string::StrSliceExecFns;
use vstd::string::StringExecFns;

use crate::model::Timestamp;
use crate::textutil::dec_digits;
use crate::textutil::digit_char;
use crate::textutil::push_dec;

verus! {

/// How many days the month has, honouring leap years.
pub open spec fn days_in_month(year: nat, month: nat) -> nat {
    if month == 1 || month == 3 || month == 5 || month == 7 || month == 8 || month == 10 || month
        == 12 {
        31
    } else if month == 4 || month == 6 || month == 9 || month == 11 {
        30
    } else if year % 4 == 0 && (year % 100 != 0 || year % 400 == 0) {
        29
    } else {
        28
    }
}

impl Timestamp {
    /// A calendar-valid UTC timestamp within the four-digit-year range;
    /// second sixty stands for a leap second.
    pub open spec fn wf(self) -> bool {
        &&& self.year <= 9999
        &&& 1 <= self.month <= 12
        &&& 1 <= self.day <= days_in_month(self.year as nat, self.month as nat)
        &&& self.hour <= 23
        &&& self.minute <= 59
        &&& self.second <= 60
    }
}

/// `n` in decimal, left-padded with zeros to two digits.
pub open spec fn pad2(n: nat) -> Seq<char> {
    if n < 10 {
        "0"@ + dec_digits(n)
    } else {
        dec_digits(n)
    }
}

/// `n` in decimal, left-padded with zeros to four digits.
pub open spec fn pad4(n: nat) -> Seq<char> {
    if n < 10 {
        "000"@ + dec_digits(n)
    } else if n < 100 {
        "00"@ + dec_digits(n)
    } else if n < 1000 {
        "0"@ + dec_digits(n)
    } else {
        dec_digits(n)
    }
}

/// The RFC 3339 rendering of a timestamp, in UTC, without fractional
/// seconds: `YYYY-MM-DDTHH:MM:SSZ`.
pub open spec fn timestamp_chars(t: Timestamp) -> Seq<char> {
    pad4(t.year as nat) + "-"@ + pad2(t.month as nat) + "-"@ + pad2(t.day as nat) + "T"@ + pad2(
        t.hour as nat,
    ) + ":"@ + pad2(t.minute as nat) + ":"@ + pad2(t.second as nat) + "Z"@
}

fn push_pad2(out: &mut String, n: u32)
    ensures
        final(out)@ == old(out)@ + pad2(n as nat),
{
    if n < 10 {
        out.append("0");
    }
    push_dec(out, n as u64);
    assert(final(out)@ =~= old(out)@ + pad2(n as nat));
}

fn push_pad4(out: &mut String, n: u32)
    ensures
        final(out)@ == old(out)@ + pad4(n as nat),
{
    if n < 10 {
        out.append("000");
    } else if n < 100 {
        out.append("00");
    } else if n < 1000 {
        out.append("0");
    }
    push_dec(out, n as u64);
    assert(final(out)@ =~= old(out)@ + pad4(n as nat));
}

/// Append the RFC 3339 rendering of `t` to `out`.
pub fn push_timestamp(out: &mut String, t: &Timestamp)
    ensures
        final(out)@ == old(out)@ + timestamp_chars(*t),
{
    push_pad4(out, t.year);
    out.append("-");
    push_pad2(out, t.month);
    out.append("-");
    push_pad2(out, t.day);
    out.append("T");
    push_pad2(out, t.hour);
    out.append(":");
    push_pad2(out, t.minute);
    out.append(":");
    push_pad2(out, t.second);
    out.append("Z");
    assert(final(out)@ =~= old(out)@ + timestamp_chars(*t));
}

/// Whether `c` is a decimal digit.
pub open spec fn is_digit(c: char) -> bool {
    48 <= c as int <= 57
}

/// The value of the decimal digit `c`.
pub open spec fn digit_val(c: char) -> int {
    c as int - 48
}

/// The value of the two decimal digits at `i` and `i + 1`.
pub open spec fn two_digit_val(s: Seq<char>, i: int) -> int {
    digit_val(s[i]) * 10 + digit_val(s[i + 1])
}

/// The first position at or after `i` that does not hold a decimal digit.
pub open spec fn digit_run_end(s: Seq<char>, i: int) -> int
    decreases s.len() - i,
{
    if i < s.len() && is_digit(s[i]) {
        digit_run_end(s, i + 1)
    } else {
        i
    }
}

/// The fixed `YYYY-MM-DDTHH:MM:SS` layout on the first nineteen characters,
/// with at least one more character following.
pub open spec fn datetime_shape(s: Seq<char>) -> bool {
    &&& s.len() >= 20
    &&& is_digit(s[0]) && is_digit(s[1]) && is_digit(s[2]) && is_digit(s[3])
    &&& s[4] == '-'
    &&& is_digit(s[5]) && is_digit(s[6])
    &&& s[7] == '-'
    &&& is_digit(s[8]) && is_digit(s[9])
    &&& (s[10] == 'T' || s[10] == 't' || s[10] == ' ')
    &&& is_digit(s[11]) && is_digit(s[12])
    &&& s[13] == ':'
    &&& is_digit(s[14]) && is_digit(s[15])
    &&& s[16] == ':'
    &&& is_digit(s[17]) && is_digit(s[18])
}

/// Where the offset part starts: after the fractional seconds, if present.
pub open spec fn offset_start(s: Seq<char>) -> int {
    if s[19] == '.' {
        digit_run_end(s, 20)
    } else {
        19
    }
}

/// A well-formed suffix after the seconds: optional fraction with at least
/// one digit, then `Z` (either case) or a `±hh:mm` offset with hours at
/// most 23 and minutes at most 59.
pub open spec fn suffix_shape(s: Seq<char>) -> bool {
    let p = offset_start(s);
    &&& (s[19] == '.' ==> digit_run_end(s, 20) > 20)
    &&& p < s.len()
    &&& if s[p] == 'Z' || s[p] == 'z' {
        s.len() == p + 1
    } else {
        &&& (s[p] == '+' || s[p] == '-')
        &&& s.len() == p + 6
        &&& is_digit(s[p + 1]) && is_digit(s[p + 2])
        &&& s[p + 3] == ':'
        &&& is_digit(s[p + 4]) && is_digit(s[p + 5])
        &&& two_digit_val(s, p + 1) <= 23
        &&& two_digit_val(s, p + 4) <= 59
    }
}

/// The offset east of UTC, in minutes, that the suffix denotes.
pub open spec fn offset_minutes(s: Seq<char>) -> int {
    let p = offset_start(s);
    if s[p] == 'Z' || s[p] == 'z' {
        0
    } else {
        let v = two_digit_val(s, p + 1) * 60 + two_digit_val(s, p + 4);
        if s[p] == '+' {
            v
        } else {
            -v
        }
    }
}

/// The calendar day before the given one, unless the range of four-digit
/// years is left.
pub open spec fn prev_day(t: Timestamp) -> Option<Timestamp> {
    if t.day > 1 {
        Some(Timestamp { day: (t.day - 1) as u32, ..t })
    } else if t.month > 1 {
        Some(
            Timestamp {
                month: (t.month - 1) as u32,
                day: days_in_month(t.year as nat, (t.month - 1) as nat) as u32,
                ..t
            },
        )
    } else if t.year > 0 {
        Some(Timestamp { year: (t.year - 1) as u32, month: 12, day: 31, ..t })
    } else {
        None
    }
}

/// The calendar day after the given one, unless the range of four-digit
/// years is left.
pub open spec fn next_day(t: Timestamp) -> Option<Timestamp> {
    if t.day < days_in_month(t.year as nat, t.month as nat) {
        Some(Timestamp { day: (t.day + 1) as u32, ..t })
    } else if t.month < 12 {
        Some(Timestamp { month: (t.month + 1) as u32, day: 1, ..t })
    } else if t.year < 9999 {
        Some(Timestamp { year: (t.year + 1) as u32, month: 1, day: 1, ..t })
    } else {
        None
    }
}

/// Shift the wall-clock fields of `t` to UTC by subtracting the offset,
/// carrying into the neighbouring day where the time of day wraps.
pub open spec fn normalize_to_utc(t: Timestamp, off_min: int) -> Option<Timestamp> {
    let total = t.hour * 60 + t.minute - off_min;
    if 0 <= total < 1440 {
        Some(Timestamp { hour: (total / 60) as u32, minute: (total % 60) as u32, ..t })
    } else if total < 0 {
        let back = total + 1440;
        match prev_day(t) {
            Some(d) => Some(
                Timestamp { hour: (back / 60) as u32, minute: (back % 60) as u32, ..d },
            ),
            None => None,
        }
    } else {
        let fwd = total - 1440;
        match next_day(t) {
            Some(d) => Some(Timestamp { hour: (fwd / 60) as u32, minute: (fwd % 60) as u32, ..d }),
            None => None,
        }
    }
}

/// What parsing an RFC 3339 string yields: its UTC timestamp, or nothing
/// when the string is not a calendar-valid RFC 3339 date-time (a leap
/// second is kept as second sixty; a shift past the four-digit-year range
/// is rejected).
pub open spec fn parse_rfc3339(s: Seq<char>) -> Option<Timestamp> {
    if !(datetime_shape(s) && suffix_shape(s)) {
        None
    } else {
        let y = two_digit_val(s, 0) * 100 + two_digit_val(s, 2);
        let mo = two_digit_val(s, 5);
        let d = two_digit_val(s, 8);
        let h = two_digit_val(s, 11);
        let mi = two_digit_val(s, 14);
        let sec = two_digit_val(s, 17);
        if !(1 <= mo <= 12 && 1 <= d <= days_in_month(y as nat, mo as nat) && h <= 23 && mi <= 59
            && sec <= 60) {
            None
        } else {
            let local = Timestamp {
                year: y as u32,
                month: mo as u32,
                day: d as u32,
                hour: h as u32,
                minute: mi as u32,
                second: sec as u32,
            };
            normalize_to_utc(local, offset_minutes(s))
        }
    }
}

proof fn lemma_digit_char_val(d: nat)
    requires
        d < 10,
    ensures
        digit_char(d) as int == 48 + d,
        is_digit(digit_char(d)),
{
}

proof fn lemma_pad2_vals(n: nat)
    requires
        n < 100,
    ensures
        pad2(n).len() == 2,
        is_digit(pad2(n)[0]),
        is_digit(pad2(n)[1]),
        two_digit_val(pad2(n), 0) == n,
{
    reveal_strlit("0");
    if n < 10 {
        lemma_digit_char_val(n);
        assert(pad2(n) =~= seq!['0', digit_char(n)]);
    } else {
        lemma_digit_char_val(n / 10);
        lemma_digit_char_val(n % 10);
        assert(dec_digits(n / 10) =~= seq![digit_char(n / 10)]);
        assert(pad2(n) =~= seq![digit_char(n / 10), digit_char(n % 10)]);
    }
}

proof fn lemma_pad4_vals(n: nat)
    requires
        n < 10000,
    ensures
        pad4(n).len() == 4,
        forall|i: int| 0 <= i < 4 ==> is_digit(#[trigger] pad4(n)[i]),
        two_digit_val(pad4(n), 0) * 100 + two_digit_val(pad4(n), 2) == n,
{
    reveal_strlit("0");
    reveal_strlit("00");
    reveal_strlit("000");
    let a = n / 1000;
    let b = (n / 100) % 10;
    let c = (n / 10) % 10;
    let d = n % 10;
    lemma_digit_char_val(a);
    lemma_digit_char_val(b);
    lemma_digit_char_val(c);
    lemma_digit_char_val(d);
    if n < 10 {
        assert(pad4(n) =~= seq![digit_char(a), digit_char(b), digit_char(c), digit_char(d)]);
    } else if n < 100 {
        assert(dec_digits(n / 10) =~= seq![digit_char(n / 10)]);
        assert(dec_digits(n) =~= seq![digit_char(n / 10), digit_char(n % 10)]);
        assert(n / 10 == c);
        assert(pad4(n) =~= seq![digit_char(a), digit_char(b), digit_char(c), digit_char(d)]);
    } else if n < 1000 {
        assert(dec_digits(n / 100) =~= seq![digit_char(n / 100)]);
        assert(dec_digits(n / 10) =~= seq![digit_char(n / 100), digit_char((n / 10) % 10)]);
        assert(dec_digits(n) =~= seq![
            digit_char(n / 100),
            digit_char((n / 10) % 10),
            digit_char(n % 10),
        ]);
        assert(n / 100 == b) by {
            assert(n / 100 < 10);
        }
        assert(pad4(n) =~= seq![digit_char(a), digit_char(b), digit_char(c), digit_char(d)]);
    } else {
        assert(dec_digits(n / 1000) =~= seq![digit_char(n / 1000)]);
        assert(n / 100 / 10 == n / 1000) by {
            vstd::arithmetic::div_mod::lemma_div_denominator(n as int, 100, 10);
        }
        assert(n / 10 / 10 == n / 100) by {
            vstd::arithmetic::div_mod::lemma_div_denominator(n as int, 10, 10);
        }
        assert(dec_digits(n / 100) =~= seq![digit_char(n / 1000), digit_char((n / 100) % 10)]);
        assert(dec_digits(n / 10) =~= seq![
            digit_char(n / 1000),
            digit_char((n / 100) % 10),
            digit_char((n / 10) % 10),
        ]);
        assert(pad4(n) =~= seq![digit_char(a), digit_char(b), digit_char(c), digit_char(d)]);
    }
    assert((a * 10 + b) * 100 + (c * 10 + d) == n) by (nonlinear_arith)
        requires
            a == n / 1000,
            b == (n / 100) % 10,
            c == (n / 10) % 10,
            d == n % 10,
            n < 10000,
    {
        vstd::arithmetic::div_mod::lemma_fundamental_div_mod(n as int, 10);
        vstd::arithmetic::div_mod::lemma_fundamental_div_mod(n as int / 10, 10);
        vstd::arithmetic::div_mod::lemma_fundamental_div_mod(n as int / 100, 10);
        vstd::arithmetic::div_mod::lemma_div_denominator(n as int, 10, 10);
        vstd::arithmetic::div_mod::lemma_div_denominator(n as int, 100, 10);
        vstd::arithmetic::div_mod::lemma_mod_bound(n as int / 10, 10);
        vstd::arithmetic::div_mod::lemma_mod_bound(n as int / 100, 10);
        vstd::arithmetic::div_mod::lemma_mod_bound(n as int, 10);
        assert(n / 1000 < 10);
    }
}

/// The timestamp wire form round-trips: rendering a well-formed UTC
/// timestamp and parsing the text back yields the same value.
#[verifier::rlimit(100)]
#[verifier::spinoff_prover]
pub proof fn lemma_timestamp_round_trip(t: Timestamp)
    requires
        t.wf(),
    ensures
        parse_rfc3339(timestamp_chars(t)) == Some(t),
{
    reveal_strlit("-");
    reveal_strlit("T");
    reveal_strlit(":");
    reveal_strlit("Z");
    let s = timestamp_chars(t);
    let py = pad4(t.year as nat);
    let pmo = pad2(t.month as nat);
    let pd = pad2(t.day as nat);
    let ph = pad2(t.hour as nat);
    let pmi = pad2(t.minute as nat);
    let ps = pad2(t.second as nat);
    lemma_pad4_vals(t.year as nat);
    lemma_pad2_vals(t.month as nat);
    lemma_pad2_vals(t.day as nat);
    lemma_pad2_vals(t.hour as nat);
    lemma_pad2_vals(t.minute as nat);
    lemma_pad2_vals(t.second as nat);
    assert(s.len() == 20);
    assert(s =~= py + seq!['-'] + pmo + seq!['-'] + pd + seq!['T'] + ph + seq![':'] + pmi
        + seq![':'] + ps + seq!['Z']);
    assert(s[0] == py[0] && s[1] == py[1] && s[2] == py[2] && s[3] == py[3]);
    assert(s[4] == '-' && s[7] == '-' && s[10] == 'T' && s[13] == ':' && s[16] == ':' && s[19]
        == 'Z');
    assert(s[5] == pmo[0] && s[6] == pmo[1]);
    assert(s[8] == pd[0] && s[9] == pd[1]);
    assert(s[11] == ph[0] && s[12] == ph[1]);
    assert(s[14] == pmi[0] && s[15] == pmi[1]);
    assert(s[17] == ps[0] && s[18] == ps[1]);
    assert(datetime_shape(s));
    assert(offset_start(s) == 19);
    assert(suffix_shape(s));
    assert(offset_minutes(s) == 0);
    assert(two_digit_val(s, 0) == two_digit_val(py, 0) && two_digit_val(s, 2) == two_digit_val(
        py,
        2,
    ));
    assert(two_digit_val(s, 0) * 100 + two_digit_val(s, 2) == t.year);
    assert(two_digit_val(s, 5) == t.month);
    assert(two_digit_val(s, 8) == t.day);
    assert(two_digit_val(s, 11) == t.hour);
    assert(two_digit_val(s, 14) == t.minute);
    assert(two_digit_val(s, 17) == t.second);
    let total = t.hour * 60 + t.minute;
    assert(0 <= total < 1440);
    assert(total / 60 == t.hour && total % 60 == t.minute) by (nonlinear_arith)
        requires
            total == t.hour * 60 + t.minute,
            t.hour <= 23,
            t.minute <= 59,
    ;
    assert(parse_rfc3339(s) == Some(t));
}

/// The value of the digit at `i`, or `None` when it is not a digit.
fn digit_at(s: &str, i: usize) -> (r: Option<u32>)
    requires
        i < s@.len(),
    ensures
        match r {
            Some(v) => is_digit(s@[i as int]) && v == digit_val(s@[i as int]),
            None => !is_digit(s@[i as int]),
        },
{
    let c = s.get_char(i);
    let u = c as u32;
    if 48 <= u && u <= 57 {
        Some(u - 48)
    } else {
        None
    }
}

/// The value of the two digits at `i` and `i + 1`, or `None` when either
/// is not a digit.
fn two_digits_at(s: &str, i: usize) -> (r: Option<u32>)
    requires
        i + 1 < s@.len(),
        s@.len() <= usize::MAX,
    ensures
        match r {
            Some(v) => is_digit(s@[i as int]) && is_digit(s@[i + 1]) && v == two_digit_val(
                s@,
                i as int,
            ) && v <= 99,
            None => !(is_digit(s@[i as int]) && is_digit(s@[i + 1])),
        },
{
    let a = digit_at(s, i);
    let b = digit_at(s, i + 1);
    match (a, b) {
        (Some(x), Some(y)) => Some(x * 10 + y),
        _ => None,
    }
}

fn char_at_is(s: &str, i: usize, c: char) -> (r: bool)
    requires
        i < s@.len(),
    ensures
        r == (s@[i as int] == c),
{
    s.get_char(i) == c
}

/// Parse an RFC 3339 date-time into a UTC timestamp; `None` when the
/// string does not denote one.
pub fn parse_timestamp(s: &str) -> (r: Option<Timestamp>)
    ensures
        r == parse_rfc3339(s@),
{
    let n = s.unicode_len();
    if n < 20 {
        return None;
    }
    let y_hi = two_digits_at(s, 0);
    let y_lo = two_digits_at(s, 2);
    let mo = two_digits_at(s, 5);
    let d = two_digits_at(s, 8);
    let h = two_digits_at(s, 11);
    let mi = two_digits_at(s, 14);
    let sec = two_digits_at(s, 17);
    let seps_ok = char_at_is(s, 4, '-') && char_at_is(s, 7, '-') && (char_at_is(s, 10, 'T')
        || char_at_is(s, 10, 't') || char_at_is(s, 10, ' ')) && char_at_is(s, 13, ':')
        && char_at_is(s, 16, ':');
    let (y_hi, y_lo, mo, d, h, mi, sec) = match (y_hi, y_lo, mo, d, h, mi, sec) {
        (Some(a), Some(b), Some(c2), Some(d2), Some(e), Some(f), Some(g)) if seps_ok => (
            a,
            b,
            c2,
            d2,
            e,
            f,
            g,
        ),
        _ => {
            return None;
        },
    };
    assert(datetime_shape(s@));
    // Fractional seconds: at least one digit after the dot.
    let mut p: usize = 19;
    if char_at_is(s, 19, '.') {
        let mut q: usize = 20;
        while q < n && digit_at(s, q).is_some()
            invariant
                n == s@.len(),
                n >= 20,
                20 <= q <= n,
                forall|j: int| 20 <= j < q ==> is_digit(s@[j]),
                digit_run_end(s@, 20) == digit_run_end(s@, q as int),
            decreases n - q,
        {
            assert(digit_run_end(s@, q as int) == digit_run_end(s@, q + 1));
            q += 1;
        }
        assert(digit_run_end(s@, q as int) == q);
        if q == 20 {
            assert(!suffix_shape(s@));
            return None;
        }
        p = q;
    }
    assert(p as int == offset_start(s@));
    // The offset: `Z` (either case) or `±hh:mm`.
    if p >= n {
        assert(!suffix_shape(s@));
        return None;
    }
    let off_min: i32 = if char_at_is(s, p, 'Z') || char_at_is(s, p, 'z') {
        if n - p != 1 {
            assert(!suffix_shape(s@));
            return None;
        }
        0
    } else {
        let plus = char_at_is(s, p, '+');
        if !plus && !char_at_is(s, p, '-') {
            assert(!suffix_shape(s@));
            return None;
        }
        if n - p != 6 {
            assert(!suffix_shape(s@));
            return None;
        }
        let hh = two_digits_at(s, p + 1);
        let mm = two_digits_at(s, p + 4);
        let colon = char_at_is(s, p + 3, ':');
        match (hh, mm) {
            (Some(a), Some(b)) if colon && a <= 23 && b <= 59 => {
                let v = (a * 60 + b) as i32;
                if plus {
                    v
                } else {
                    -v
                }
            },
            _ => {
                assert(!suffix_shape(s@));
                return None;
            },
        }
    };
    assert(suffix_shape(s@));
    assert(off_min as int == offset_minutes(s@));
    let y = y_hi * 100 + y_lo;
    if !(1 <= mo && mo <= 12 && 1 <= d && d <= days_in_month_exec(y, mo) && h <= 23 && mi <= 59
        && sec <= 60) {
        return None;
    }
    let local = Timestamp { year: y, month: mo, day: d, hour: h, minute: mi, second: sec };
    let r = normalize_exec(local, off_min);
    assert(r == parse_rfc3339(s@));
    r
}

/// How many days the month has, honouring leap years.
pub fn days_in_month_exec(year: u32, month: u32) -> (r: u32)
    ensures
        r == days_in_month(year as nat, month as nat),
{
    if month == 1 || month == 3 || month == 5 || month == 7 || month == 8 || month == 10 || month
        == 12 {
        31
    } else if month == 4 || month == 6 || month == 9 || month == 11 {
        30
    } else if year % 4 == 0 && (year % 100 != 0 || year % 400 == 0) {
        29
    } else {
        28
    }
}

fn normalize_exec(t: Timestamp, off_min: i32) -> (r: Option<Timestamp>)
    requires
        t.hour <= 23,
        t.minute <= 59,
        1 <= t.month <= 12,
        1 <= t.day <= days_in_month(t.year as nat, t.month as nat),
        t.year <= 9999,
        -1439 <= off_min <= 1439,
    ensures
        r == normalize_to_utc(t, off_min as int),
{
    let total: i32 = (t.hour * 60 + t.minute) as i32 - off_min;
    if 0 <= total && total < 1440 {
        let tu = total as u32;
        Some(Timestamp { hour: tu / 60, minute: tu % 60, ..t })
    } else if total < 0 {
        let back = (total + 1440) as u32;
        let prev = if t.day > 1 {
            Some(Timestamp { day: t.day - 1, ..t })
        } else if t.month > 1 {
            Some(
                Timestamp { month: t.month - 1, day: days_in_month_exec(t.year, t.month - 1), ..t },
            )
        } else if t.year > 0 {
            Some(Timestamp { year: t.year - 1, month: 12, day: 31, ..t })
        } else {
            None
        };
        match prev {
            Some(dd) => Some(Timestamp { hour: back / 60, minute: back % 60, ..dd }),
            None => None,
        }
    } else {
        let fwd = (total - 1440) as u32;
        let next = if t.day < days_in_month_exec(t.year, t.month) {
            Some(Timestamp { day: t.day + 1, ..t })
        } else if t.month < 12 {
            Some(Timestamp { month: t.month + 1, day: 1, ..t })
        } else if t.year < 9999 {
            Some(Timestamp { year: t.year + 1, month: 1, day: 1, ..t })
        } else {
            None
        };
        match next {
            Some(dd) => Some(Timestamp { hour: fwd / 60, minute: fwd % 60, ..dd }),
            None => None,
        }
    }
}

} // verus!

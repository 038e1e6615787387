//! UTC instants with nanosecond resolution, rendered to and parsed from the
//! RFC 3339 wire shape `YYYY-MM-DDTHH:MM:SS[.fff[fff[fff]]]Z` that the
//! service's timestamps use.

use vstd::prelude::*;
use crate::text::push_char;

verus! {

/// A UTC instant: calendar date plus time of day, nanosecond resolution.
#[derive(Debug, Copy, Clone, PartialEq, Eq, Structural)]
pub struct UtcDateTime {
    /// Calendar year, 0 through 9999.
    pub year: u32,
    /// Calendar month, 1 through 12.
    pub month: u32,
    /// Day of month, 1 through the month's length.
    pub day: u32,
    /// Hour of day, 0 through 23.
    pub hour: u32,
    /// Minute, 0 through 59.
    pub minute: u32,
    /// Second, 0 through 59.
    pub second: u32,
    /// Nanoseconds within the second, 0 through 999 999 999.
    pub nanos: u32,
}

/// Whether `y` is a leap year of the proleptic Gregorian calendar.
pub open spec fn is_leap_year(y: int) -> bool {
    y % 4 == 0 && (y % 100 != 0 || y % 400 == 0)
}

/// The number of days of month `m` of year `y`.
pub open spec fn days_in_month(y: int, m: int) -> int {
    if m == 2 {
        if is_leap_year(y) {
            29
        } else {
            28
        }
    } else if m == 4 || m == 6 || m == 9 || m == 11 {
        30
    } else {
        31
    }
}

impl UtcDateTime {
    /// The instant's fields all lie in their calendar ranges.
    pub open spec fn valid(self) -> bool {
        &&& self.year <= 9999
        &&& 1 <= self.month <= 12
        &&& 1 <= self.day <= days_in_month(self.year as int, self.month as int)
        &&& self.hour <= 23
        &&& self.minute <= 59
        &&& self.second <= 59
        &&& self.nanos <= 999_999_999
    }

    /// Checks the calendar ranges of the fields.
    pub fn check_valid(&self) -> (r: bool)
        ensures
            r == self.valid(),
    {
        let dim: u32 = if self.month == 2 {
            let leap: bool = self.year % 4 == 0 && (self.year % 100 != 0 || self.year % 400
                == 0);
            if leap {
                29
            } else {
                28
            }
        } else if self.month == 4 || self.month == 6 || self.month == 9 || self.month == 11 {
            30
        } else {
            31
        };
        self.year <= 9999 && 1 <= self.month && self.month <= 12 && 1 <= self.day && self.day
            <= dim && self.hour <= 23 && self.minute <= 59 && self.second <= 59 && self.nanos
            <= 999_999_999
    }
}

/// The character of decimal digit `d`.
pub open spec fn digit_char(d: int) -> char {
    if d == 0 {
        '0'
    } else if d == 1 {
        '1'
    } else if d == 2 {
        '2'
    } else if d == 3 {
        '3'
    } else if d == 4 {
        '4'
    } else if d == 5 {
        '5'
    } else if d == 6 {
        '6'
    } else if d == 7 {
        '7'
    } else if d == 8 {
        '8'
    } else {
        '9'
    }
}

/// `n` written as exactly `w` decimal digits, zero padded (most significant
/// first, truncating above `10^w`).
pub open spec fn fixed_digits(n: int, w: nat) -> Seq<char>
    decreases w,
{
    if w == 0 {
        Seq::empty()
    } else {
        fixed_digits(n / 10, (w - 1) as nat).push(digit_char(n % 10))
    }
}

/// The fractional-seconds part of the wire shape: empty for zero nanoseconds,
/// else a dot and 3, 6 or 9 digits, the shortest that is exact.
pub open spec fn frac_part(nanos: int) -> Seq<char> {
    if nanos == 0 {
        Seq::empty()
    } else if nanos % 1_000_000 == 0 {
        seq!['.'] + fixed_digits(nanos / 1_000_000, 3)
    } else if nanos % 1_000 == 0 {
        seq!['.'] + fixed_digits(nanos / 1_000, 6)
    } else {
        seq!['.'] + fixed_digits(nanos, 9)
    }
}

/// The full RFC 3339 rendering of an instant, with `Z` for the UTC offset.
pub open spec fn spec_rfc3339(dt: UtcDateTime) -> Seq<char> {
    fixed_digits(dt.year as int, 4) + seq!['-'] + fixed_digits(dt.month as int, 2) + seq!['-']
        + fixed_digits(dt.day as int, 2) + seq!['T'] + fixed_digits(dt.hour as int, 2)
        + seq![':'] + fixed_digits(dt.minute as int, 2) + seq![':'] + fixed_digits(
        dt.second as int,
        2,
    ) + frac_part(dt.nanos as int) + seq!['Z']
}

/// The character of decimal digit `d`.
pub fn digit_char_of(d: u32) -> (c: char)
    requires
        d <= 9,
    ensures
        c == digit_char(d as int),
{
    match d {
        0 => '0',
        1 => '1',
        2 => '2',
        3 => '3',
        4 => '4',
        5 => '5',
        6 => '6',
        7 => '7',
        8 => '8',
        _ => '9',
    }
}

/// Appends `n` as exactly `w` zero-padded decimal digits.
pub fn push_fixed_digits(s: &mut String, n: u32, w: u32)
    ensures
        final(s)@ == old(s)@ + fixed_digits(n as int, w as nat),
    decreases w,
{
    if w == 0 {
        proof {
            assert(s@ =~= old(s)@ + fixed_digits(n as int, 0));
        }
    } else {
        push_fixed_digits(s, n / 10, w - 1);
        let c = digit_char_of(n % 10);
        push_char(s, c);
        proof {
            assert(s@ =~= old(s)@ + fixed_digits(n as int, w as nat));
        }
    }
}

impl UtcDateTime {
    /// Renders this instant in the RFC 3339 wire shape.
    pub fn to_rfc3339(&self) -> (r: String)
        ensures
            r@ == spec_rfc3339(*self),
    {
        let mut s = String::new();
        push_fixed_digits(&mut s, self.year, 4);
        push_char(&mut s, '-');
        push_fixed_digits(&mut s, self.month, 2);
        push_char(&mut s, '-');
        push_fixed_digits(&mut s, self.day, 2);
        push_char(&mut s, 'T');
        push_fixed_digits(&mut s, self.hour, 2);
        push_char(&mut s, ':');
        push_fixed_digits(&mut s, self.minute, 2);
        push_char(&mut s, ':');
        push_fixed_digits(&mut s, self.second, 2);
        if self.nanos != 0 {
            push_char(&mut s, '.');
            if self.nanos % 1_000_000 == 0 {
                push_fixed_digits(&mut s, self.nanos / 1_000_000, 3);
            } else if self.nanos % 1_000 == 0 {
                push_fixed_digits(&mut s, self.nanos / 1_000, 6);
            } else {
                push_fixed_digits(&mut s, self.nanos, 9);
            }
        }
        push_char(&mut s, 'Z');
        proof {
            assert(s@ =~= spec_rfc3339(*self));
        }
        s
    }
}

/// Whether `c` is a decimal digit.
pub open spec fn is_digit(c: char) -> bool {
    48 <= c as u32 <= 57
}

/// The value of digit character `c`.
pub open spec fn digit_val(c: char) -> int {
    c as u32 - 48
}

/// The value of the digit characters `s[i..j]`, most significant first.
pub open spec fn digits_val(s: Seq<char>, i: int, j: int) -> int
    decreases j - i,
{
    if i >= j {
        0
    } else {
        digits_val(s, i, j - 1) * 10 + digit_val(s[j - 1])
    }
}

/// Whether every character of `s[i..j]` is a decimal digit.
pub open spec fn all_digits(s: Seq<char>, i: int, j: int) -> bool {
    forall|k: int| i <= k < j ==> is_digit(#[trigger] s[k])
}

/// `10^w` for `0 <= w <= 9`.
pub open spec fn pow10(w: int) -> int {
    if w <= 0 {
        1
    } else if w == 1 {
        10
    } else if w == 2 {
        100
    } else if w == 3 {
        1_000
    } else if w == 4 {
        10_000
    } else if w == 5 {
        100_000
    } else if w == 6 {
        1_000_000
    } else if w == 7 {
        10_000_000
    } else if w == 8 {
        100_000_000
    } else {
        1_000_000_000
    }
}

/// The instant denoted by the RFC 3339 characters `s`, if `s` has exactly the
/// wire shape with a `Z` offset and in-range fields.
pub open spec fn spec_parse_instant(s: Seq<char>) -> Option<UtcDateTime> {
    if s.len() < 20 {
        None
    } else if !(all_digits(s, 0, 4) && s[4] == '-' && all_digits(s, 5, 7) && s[7] == '-'
        && all_digits(s, 8, 10) && s[10] == 'T' && all_digits(s, 11, 13) && s[13] == ':'
        && all_digits(s, 14, 16) && s[16] == ':' && all_digits(s, 17, 19)) {
        None
    } else {
        let nanos_opt: Option<int> = if s.len() == 20 && s[19] == 'Z' {
            Some(0)
        } else if s[19] == '.' && s[s.len() - 1] == 'Z' && 21 <= s.len() <= 30 && all_digits(
            s,
            20,
            s.len() - 1,
        ) {
            Some(digits_val(s, 20, s.len() - 1) * pow10(9 - (s.len() - 21)))
        } else {
            None
        };
        match nanos_opt {
            None => None,
            Some(nanos) => {
                let dt = UtcDateTime {
                    year: digits_val(s, 0, 4) as u32,
                    month: digits_val(s, 5, 7) as u32,
                    day: digits_val(s, 8, 10) as u32,
                    hour: digits_val(s, 11, 13) as u32,
                    minute: digits_val(s, 14, 16) as u32,
                    second: digits_val(s, 17, 19) as u32,
                    nanos: nanos as u32,
                };
                if dt.valid() {
                    Some(dt)
                } else {
                    None
                }
            },
        }
    }
}

/// Reads the digit characters `v[i..j]` as a number, most significant first.
fn read_digits(v: &[char], i: usize, j: usize) -> (r: u32)
    requires
        i <= j <= v@.len(),
        j - i <= 9,
        all_digits(v@, i as int, j as int),
    ensures
        r == digits_val(v@, i as int, j as int),
        r < pow10(j - i),
{
    let mut k: usize = i;
    let mut acc: u32 = 0;
    while k < j
        invariant
            i <= k <= j <= v@.len(),
            j - i <= 9,
            all_digits(v@, i as int, j as int),
            acc == digits_val(v@, i as int, k as int),
            acc < pow10(k - i),
        decreases j - k,
    {
        let c = v[k];
        assert(is_digit(c));
        let d: u32 = (c as u32) - 48;
        acc = acc * 10 + d;
        k = k + 1;
    }
    acc
}

/// Checks that every character of `v[i..j]` is a decimal digit.
pub fn check_digits(v: &[char], i: usize, j: usize) -> (r: bool)
    requires
        i <= j <= v@.len(),
    ensures
        r == all_digits(v@, i as int, j as int),
{
    let mut k: usize = i;
    while k < j
        invariant
            i <= k <= j <= v@.len(),
            all_digits(v@, i as int, k as int),
        decreases j - k,
    {
        let c = v[k];
        if !((c as u32) >= 48 && (c as u32) <= 57) {
            return false;
        }
        k = k + 1;
    }
    true
}

/// Parses the RFC 3339 wire shape into an instant.
pub fn parse_instant(v: &[char]) -> (r: Option<UtcDateTime>)
    ensures
        r == spec_parse_instant(v@),
{
    let n = v.len();
    if n < 20 {
        return None;
    }
    let shape_ok: bool = check_digits(v, 0, 4) && v[4] == '-' && check_digits(v, 5, 7) && v[7]
        == '-' && check_digits(v, 8, 10) && v[10] == 'T' && check_digits(v, 11, 13) && v[13]
        == ':' && check_digits(v, 14, 16) && v[16] == ':' && check_digits(v, 17, 19);
    if !shape_ok {
        return None;
    }
    let nanos: u32 = if n == 20 && v[19] == 'Z' {
        0
    } else if v[19] == '.' && v[n - 1] == 'Z' && 21 <= n && n <= 30 {
        if !check_digits(v, 20, n - 1) {
            return None;
        }
        let w: usize = n - 21;
        let f = read_digits(v, 20, n - 1);
        let p: u32 = match 9 - w {
            0 => 1,
            1 => 10,
            2 => 100,
            3 => 1_000,
            4 => 10_000,
            5 => 100_000,
            6 => 1_000_000,
            7 => 10_000_000,
            8 => 100_000_000,
            _ => 1_000_000_000,
        };
        proof {
            assert(p == pow10(9 - (n - 21)));
            assert(f < pow10(n - 21));
            lemma_digits_times_pow_bounded(f as int, (n - 21) as int);
        }
        f * p
    } else {
        return None;
    };
    let dt = UtcDateTime {
        year: read_digits(v, 0, 4),
        month: read_digits(v, 5, 7),
        day: read_digits(v, 8, 10),
        hour: read_digits(v, 11, 13),
        minute: read_digits(v, 14, 16),
        second: read_digits(v, 17, 19),
        nanos,
    };
    if dt.check_valid() {
        Some(dt)
    } else {
        None
    }
}

/// A fraction of `w` digits scaled to nanoseconds stays below one second.
proof fn lemma_digits_times_pow_bounded(f: int, w: int)
    requires
        0 <= w <= 9,
        0 <= f < pow10(w),
    ensures
        f * pow10(9 - w) < 1_000_000_000,
        f * pow10(9 - w) >= 0,
{
    assert(pow10(w) * pow10(9 - w) == 1_000_000_000) by {
        assert(0 <= w <= 9);
    };
    assert(f * pow10(9 - w) <= (pow10(w) - 1) * pow10(9 - w)) by (nonlinear_arith)
        requires
            0 <= f < pow10(w),
            pow10(9 - w) > 0,
    ;
    assert((pow10(w) - 1) * pow10(9 - w) == pow10(w) * pow10(9 - w) - pow10(9 - w)) by (
    nonlinear_arith);
}

/// Two sequences that agree on a range read back the same value.
proof fn lemma_digits_val_agree(a: Seq<char>, b: Seq<char>, i: int, j: int)
    requires
        forall|k: int| i <= k < j ==> a[k] == b[k],
    ensures
        digits_val(a, i, j) == digits_val(b, i, j),
    decreases j - i,
{
    if i < j {
        lemma_digits_val_agree(a, b, i, j - 1);
    }
}

/// Reading digits through an offset window equals reading them in place.
proof fn lemma_digits_val_offset(s: Seq<char>, off: int, t: Seq<char>, i: int, j: int)
    requires
        forall|k: int| i <= k < j ==> s[off + k] == t[k],
    ensures
        digits_val(s, off + i, off + j) == digits_val(t, i, j),
    decreases j - i,
{
    if i < j {
        lemma_digits_val_offset(s, off, t, i, j - 1);
        assert(s[off + j - 1] == t[j - 1]);
        assert(digits_val(s, off + i, off + j) == digits_val(s, off + i, off + j - 1) * 10
            + digit_val(s[off + j - 1]));
    }
}

/// A fixed-width rendering has its width, holds digits only, and reads
/// back to the value it was made from.
proof fn lemma_fixed_digits_val(n: int, w: nat)
    requires
        0 <= w <= 9,
        0 <= n < pow10(w as int),
    ensures
        fixed_digits(n, w).len() == w,
        all_digits(fixed_digits(n, w), 0, w as int),
        digits_val(fixed_digits(n, w), 0, w as int) == n,
    decreases w,
{
    if w == 0 {
    } else {
        assert(n / 10 < pow10(w as int - 1));
        lemma_fixed_digits_val(n / 10, (w - 1) as nat);
        let t = fixed_digits(n, w);
        let t0 = fixed_digits(n / 10, (w - 1) as nat);
        assert(t == t0.push(digit_char(n % 10)));
        assert(is_digit(digit_char(n % 10)) && digit_val(digit_char(n % 10)) == n % 10);
        assert forall|k: int| 0 <= k < w implies is_digit(#[trigger] t[k]) by {
            if k < w - 1 {
                assert(t[k] == t0[k]);
            }
        }
        lemma_digits_val_agree(t, t0, 0, w as int - 1);
        assert(digits_val(t, 0, w as int) == digits_val(t, 0, w as int - 1) * 10 + digit_val(
            t[w as int - 1],
        ));
    }
}

/// Rendering an instant in the RFC 3339 wire shape and parsing the result
/// yields the same instant: the wire shape is lossless for every valid
/// instant.
#[verifier::rlimit(100)]
pub proof fn lemma_rfc3339_roundtrip(dt: UtcDateTime)
    requires
        dt.valid(),
    ensures
        spec_parse_instant(spec_rfc3339(dt)) == Some(dt),
{
    let s = spec_rfc3339(dt);
    let y = fixed_digits(dt.year as int, 4);
    let mo = fixed_digits(dt.month as int, 2);
    let d = fixed_digits(dt.day as int, 2);
    let h = fixed_digits(dt.hour as int, 2);
    let mi = fixed_digits(dt.minute as int, 2);
    let se = fixed_digits(dt.second as int, 2);
    let frac = frac_part(dt.nanos as int);
    lemma_fixed_digits_val(dt.year as int, 4);
    lemma_fixed_digits_val(dt.month as int, 2);
    lemma_fixed_digits_val(dt.day as int, 2);
    lemma_fixed_digits_val(dt.hour as int, 2);
    lemma_fixed_digits_val(dt.minute as int, 2);
    lemma_fixed_digits_val(dt.second as int, 2);
    if dt.nanos != 0 {
        if dt.nanos as int % 1_000_000 == 0 {
            lemma_fixed_digits_val(dt.nanos as int / 1_000_000, 3);
        } else if dt.nanos as int % 1_000 == 0 {
            lemma_fixed_digits_val(dt.nanos as int / 1_000, 6);
        } else {
            lemma_fixed_digits_val(dt.nanos as int, 9);
        }
    }
    assert(s.len() == 20 + frac.len());
    assert forall|k: int| 0 <= k < 4 implies s[k] == y[k] by {}
    assert(s[4] == '-');
    assert forall|k: int| 0 <= k < 2 implies s[5 + k] == mo[k] by {}
    assert(s[7] == '-');
    assert forall|k: int| 0 <= k < 2 implies s[8 + k] == d[k] by {}
    assert(s[10] == 'T');
    assert forall|k: int| 0 <= k < 2 implies s[11 + k] == h[k] by {}
    assert(s[13] == ':');
    assert forall|k: int| 0 <= k < 2 implies s[14 + k] == mi[k] by {}
    assert(s[16] == ':');
    assert forall|k: int| 0 <= k < 2 implies s[17 + k] == se[k] by {}
    lemma_digits_val_offset(s, 0, y, 0, 4);
    lemma_digits_val_offset(s, 5, mo, 0, 2);
    lemma_digits_val_offset(s, 8, d, 0, 2);
    lemma_digits_val_offset(s, 11, h, 0, 2);
    lemma_digits_val_offset(s, 14, mi, 0, 2);
    lemma_digits_val_offset(s, 17, se, 0, 2);
    assert(all_digits(s, 0, 4) && all_digits(s, 5, 7) && all_digits(s, 8, 10) && all_digits(
        s,
        11,
        13,
    ) && all_digits(s, 14, 16) && all_digits(s, 17, 19));
    if dt.nanos == 0 {
        assert(s.len() == 20);
        assert(s[19] == 'Z');
    } else {
        assert(s[19] == '.');
        assert(s[s.len() - 1] == 'Z');
        let w = frac.len() - 1;
        let f = if dt.nanos as int % 1_000_000 == 0 {
            dt.nanos as int / 1_000_000
        } else if dt.nanos as int % 1_000 == 0 {
            dt.nanos as int / 1_000
        } else {
            dt.nanos as int
        };
        let fd = fixed_digits(f, w as nat);
        assert(frac == seq!['.'] + fd);
        assert forall|k: int| 0 <= k < w implies s[20 + k] == fd[k] by {
            assert(frac[1 + k] == fd[k]);
        }
        lemma_digits_val_offset(s, 20, fd, 0, w);
        assert(all_digits(s, 20, s.len() - 1));
        assert(digits_val(s, 20, s.len() - 1) == f);
        assert(digits_val(s, 20, s.len() - 1) * pow10(9 - (s.len() - 21)) == dt.nanos);
    }
    assert(spec_parse_instant(s) == Some(dt));
}

} // verus!

//! A verified parser for the one-object JSON text frames of the streaming
//! wire. A frame is flattened into its members: scalar values and
//! price-level arrays are kept exactly, any other well-formed value is
//! noted and skipped, as the decoder ignores unknown members.
//!
//! The parser accepts compact or whitespace-separated JSON with the short
//! string escapes; unicode (`\u`) escapes are not accepted.

use vstd::prelude::*;
use crate::machine::models::BookLevel;
use crate::text::{chars_eq, copy_range};
use crate::machine::time::is_digit;

verus! {

/// The spec-level form of one price level: the raw decimal texts.
pub struct BookLevelV {
    /// Price text.
    pub price: Seq<char>,
    /// Amount text.
    pub amount: Seq<char>,
}

impl View for BookLevel {
    type V = BookLevelV;

    open spec fn view(&self) -> BookLevelV {
        BookLevelV { price: self.price@, amount: self.amount@ }
    }
}

/// The spec-level form of a price-level list.
pub open spec fn levels_view(ls: Seq<BookLevel>) -> Seq<BookLevelV> {
    ls.map_values(|l: BookLevel| l@)
}

/// Appending one level appends its spec-level form.
pub proof fn lemma_levels_view_push(s: Seq<BookLevel>, x: BookLevel)
    ensures
        levels_view(s.push(x)) == levels_view(s).push(x@),
{
    assert forall|q: int| 0 <= q < s.len() + 1 implies levels_view(s.push(x))[q] == levels_view(
        s,
    ).push(x@)[q] by {
        if q < s.len() {
            assert(s.push(x)[q] == s[q]);
        } else {
            assert(s.push(x)[q] == x);
        }
    }
    assert(levels_view(s.push(x)) =~= levels_view(s).push(x@));
}

/// The empty list's spec-level form is empty.
pub proof fn lemma_levels_view_empty()
    ensures
        levels_view(Seq::<BookLevel>::empty()) == Seq::<BookLevelV>::empty(),
{
    assert(levels_view(Seq::<BookLevel>::empty()) =~= Seq::<BookLevelV>::empty());
}

/// The spec-level value of one member: scalars and price-level arrays are
/// kept exactly; any other well-formed value is `Complex`.
pub enum AtomV {
    /// JSON `null`.
    Null,
    /// JSON `true` or `false`.
    Bool(bool),
    /// A number, as its raw token.
    Num(Seq<char>),
    /// A string, with escapes resolved.
    Str(Seq<char>),
    /// An array of price-level objects.
    Levels(Seq<BookLevelV>),
    /// Any other well-formed value, skipped.
    Complex,
}

/// One member value: scalars and price-level arrays are kept exactly; any
/// other well-formed value is `Complex`.
#[derive(Debug, Clone, PartialEq, Eq)]
pub enum Atom {
    /// JSON `null`.
    Null,
    /// JSON `true` or `false`.
    Bool(bool),
    /// A number, as its raw token.
    Num(Vec<char>),
    /// A string, with escapes resolved.
    Str(Vec<char>),
    /// An array of price-level objects.
    Levels(Vec<BookLevel>),
    /// Any other well-formed value, skipped.
    Complex,
}

impl View for Atom {
    type V = AtomV;

    open spec fn view(&self) -> AtomV {
        match self {
            Atom::Null => AtomV::Null,
            Atom::Bool(b) => AtomV::Bool(*b),
            Atom::Num(t) => AtomV::Num(t@),
            Atom::Str(t) => AtomV::Str(t@),
            Atom::Levels(ls) => AtomV::Levels(levels_view(ls@)),
            Atom::Complex => AtomV::Complex,
        }
    }
}

/// The spec-level form of a member list: each key with its value.
pub open spec fn kvs_view(v: Seq<(String, Atom)>) -> Seq<(Seq<char>, AtomV)> {
    v.map_values(|p: (String, Atom)| (p.0@, p.1@))
}

/// JSON insignificant whitespace.
pub open spec fn is_ws(c: char) -> bool {
    c == ' ' || c == '\t' || c == '\n' || c == '\r'
}

/// The first position at or after `i` holding no whitespace.
pub open spec fn spec_skip_ws(s: Seq<char>, i: int) -> int
    decreases s.len() - i,
{
    if 0 <= i < s.len() && is_ws(s[i]) {
        spec_skip_ws(s, i + 1)
    } else {
        i
    }
}

/// Advances over whitespace.
fn skip_ws(v: &[char], i: usize) -> (r: usize)
    requires
        i <= v@.len(),
    ensures
        r == spec_skip_ws(v@, i as int),
        i <= r <= v@.len(),
{
    let mut k: usize = i;
    while k < v.len() && (v[k] == ' ' || v[k] == '\t' || v[k] == '\n' || v[k] == '\r')
        invariant
            i <= k <= v@.len(),
            spec_skip_ws(v@, i as int) == spec_skip_ws(v@, k as int),
        decreases v@.len() - k,
    {
        k = k + 1;
    }
    k
}

/// The character named by a short escape, if the escape is known.
pub open spec fn escape_code(c: char) -> Option<char> {
    if c == '"' {
        Some('"')
    } else if c == '\\' {
        Some('\\')
    } else if c == '/' {
        Some('/')
    } else if c == 'b' {
        Some('\u{8}')
    } else if c == 'f' {
        Some('\u{c}')
    } else if c == 'n' {
        Some('\n')
    } else if c == 'r' {
        Some('\r')
    } else if c == 't' {
        Some('\t')
    } else {
        None
    }
}

/// Scans a string body from `i`, just after the opening quote, to its
/// closing quote: the unescaped content and the position after the quote.
/// Unknown escapes, unicode escapes and raw control characters fail.
pub open spec fn spec_scan_string(s: Seq<char>, i: int, acc: Seq<char>) -> Option<
    (Seq<char>, int),
>
    decreases s.len() - i,
{
    if !(0 <= i < s.len()) {
        None
    } else if s[i] == '"' {
        Some((acc, i + 1))
    } else if s[i] == '\\' {
        if i + 1 < s.len() {
            match escape_code(s[i + 1]) {
                Some(e) => spec_scan_string(s, i + 2, acc.push(e)),
                None => None,
            }
        } else {
            None
        }
    } else if (s[i] as u32) < 32 {
        None
    } else {
        spec_scan_string(s, i + 1, acc.push(s[i]))
    }
}

/// Scans a string body, unescaping it.
fn scan_string(v: &[char], i: usize) -> (r: Option<(Vec<char>, usize)>)
    requires
        i <= v@.len(),
    ensures
        match r {
            Some(ce) => spec_scan_string(v@, i as int, Seq::empty()) == Some(
                (ce.0@, ce.1 as int),
            ) && i < ce.1 <= v@.len(),
            None => spec_scan_string(v@, i as int, Seq::empty()) is None,
        },
{
    let mut k: usize = i;
    let mut acc: Vec<char> = Vec::new();
    loop
        invariant
            i <= k <= v@.len(),
            spec_scan_string(v@, i as int, Seq::empty()) == spec_scan_string(
                v@,
                k as int,
                acc@,
            ),
        decreases v@.len() - k,
    {
        if k >= v.len() {
            return None;
        }
        let c = v[k];
        if c == '"' {
            return Some((acc, k + 1));
        } else if c == '\\' {
            if k + 1 >= v.len() {
                return None;
            }
            let e = v[k + 1];
            let dec: char = if e == '"' {
                '"'
            } else if e == '\\' {
                '\\'
            } else if e == '/' {
                '/'
            } else if e == 'b' {
                '\u{8}'
            } else if e == 'f' {
                '\u{c}'
            } else if e == 'n' {
                '\n'
            } else if e == 'r' {
                '\r'
            } else if e == 't' {
                '\t'
            } else {
                return None;
            };
            proof {
                assert(escape_code(v@[k + 1]) == Some(dec));
            }
            acc.push(dec);
            k = k + 2;
        } else if (c as u32) < 32 {
            return None;
        } else {
            acc.push(c);
            k = k + 1;
        }
    }
}

/// Whether `c` can occur in a number token.
pub open spec fn is_num_char(c: char) -> bool {
    is_digit(c) || c == '-' || c == '+' || c == '.' || c == 'e' || c == 'E'
}

/// The first position at or after `i` holding no number character.
pub open spec fn spec_num_end(s: Seq<char>, i: int) -> int
    decreases s.len() - i,
{
    if 0 <= i < s.len() && is_num_char(s[i]) {
        spec_num_end(s, i + 1)
    } else {
        i
    }
}

/// Advances over number characters.
fn num_end(v: &[char], i: usize) -> (r: usize)
    requires
        i <= v@.len(),
    ensures
        r == spec_num_end(v@, i as int),
        i <= r <= v@.len(),
{
    let mut k: usize = i;
    while k < v.len() && (((v[k] as u32) >= 48 && (v[k] as u32) <= 57) || v[k] == '-' || v[k]
        == '+' || v[k] == '.' || v[k] == 'e' || v[k] == 'E')
        invariant
            i <= k <= v@.len(),
            spec_num_end(v@, i as int) == spec_num_end(v@, k as int),
        decreases v@.len() - k,
    {
        k = k + 1;
    }
    k
}

/// The first position in `[i, b)` holding no decimal digit.
pub open spec fn spec_digit_end(s: Seq<char>, i: int, b: int) -> int
    decreases b - i,
{
    if 0 <= i < b && b <= s.len() && is_digit(s[i]) {
        spec_digit_end(s, i + 1, b)
    } else {
        i
    }
}

/// Advances over decimal digits, up to `b`.
fn digit_end(v: &[char], i: usize, b: usize) -> (r: usize)
    requires
        i <= b <= v@.len(),
    ensures
        r == spec_digit_end(v@, i as int, b as int),
        i <= r <= b,
{
    let mut k: usize = i;
    while k < b && (v[k] as u32) >= 48 && (v[k] as u32) <= 57
        invariant
            i <= k <= b <= v@.len(),
            spec_digit_end(v@, i as int, b as int) == spec_digit_end(v@, k as int, b as int),
        decreases b - k,
    {
        k = k + 1;
    }
    k
}

/// Whether `s[a..b]` is exactly one JSON number token: an optional minus, an
/// integer part without a leading zero, an optional fraction and an
/// optional exponent.
pub open spec fn is_number_span(s: Seq<char>, a: int, b: int) -> bool {
    let i0 = if a < b && s[a] == '-' {
        a + 1
    } else {
        a
    };
    let i1 = spec_digit_end(s, i0, b);
    if i1 == i0 {
        false
    } else if s[i0] == '0' && i1 != i0 + 1 {
        false
    } else {
        let has_frac = i1 < b && s[i1] == '.';
        let i2 = if has_frac {
            spec_digit_end(s, i1 + 1, b)
        } else {
            i1
        };
        if has_frac && i2 == i1 + 1 {
            false
        } else {
            if i2 < b && (s[i2] == 'e' || s[i2] == 'E') {
                let i3 = if i2 + 1 < b && (s[i2 + 1] == '+' || s[i2 + 1] == '-') {
                    i2 + 2
                } else {
                    i2 + 1
                };
                let i4 = spec_digit_end(s, i3, b);
                i4 != i3 && i4 == b
            } else {
                i2 == b
            }
        }
    }
}

/// Checks that `v[a..b]` is exactly one JSON number token.
fn is_number_range(v: &[char], a: usize, b: usize) -> (r: bool)
    requires
        a <= b <= v@.len(),
    ensures
        r == is_number_span(v@, a as int, b as int),
{
    let i0: usize = if a < b && v[a] == '-' {
        a + 1
    } else {
        a
    };
    let i1 = digit_end(v, i0, b);
    if i1 == i0 {
        return false;
    }
    if v[i0] == '0' && i1 != i0 + 1 {
        return false;
    }
    let has_frac: bool = i1 < b && v[i1] == '.';
    let i2: usize = if has_frac {
        digit_end(v, i1 + 1, b)
    } else {
        i1
    };
    if has_frac && i2 == i1 + 1 {
        return false;
    }
    if i2 < b && (v[i2] == 'e' || v[i2] == 'E') {
        let i3: usize = if i2 + 1 < b && (v[i2 + 1] == '+' || v[i2 + 1] == '-') {
            i2 + 2
        } else {
            i2 + 1
        };
        let i4 = digit_end(v, i3, b);
        i4 != i3 && i4 == b
    } else {
        i2 == b
    }
}

/// The position just past a balanced composite value whose opening bracket
/// stands before `i`: brackets are counted, strings are passed atomically.
pub open spec fn spec_skip_composite(s: Seq<char>, i: int, depth: int) -> Option<int>
    decreases s.len() - i,
{
    if !(0 <= i <= s.len()) {
        None
    } else if depth <= 0 {
        Some(i)
    } else if i == s.len() {
        None
    } else if s[i] == '"' {
        match spec_scan_string(s, i + 1, Seq::empty()) {
            Some(ce) => if i < ce.1 <= s.len() {
                spec_skip_composite(s, ce.1, depth)
            } else {
                None
            },
            None => None,
        }
    } else if s[i] == '{' || s[i] == '[' {
        spec_skip_composite(s, i + 1, depth + 1)
    } else if s[i] == '}' || s[i] == ']' {
        if depth == 1 {
            Some(i + 1)
        } else {
            spec_skip_composite(s, i + 1, depth - 1)
        }
    } else {
        spec_skip_composite(s, i + 1, depth)
    }
}

/// Skips a composite value from `i`, just after its opening bracket.
fn skip_composite(v: &[char], i: usize) -> (r: Option<usize>)
    requires
        1 <= i <= v@.len(),
    ensures
        match r {
            Some(e) => spec_skip_composite(v@, i as int, 1) == Some(e as int) && i <= e
                <= v@.len(),
            None => spec_skip_composite(v@, i as int, 1) is None,
        },
{
    let n = v.len();
    let mut k: usize = i;
    let mut d: usize = 1;
    loop
        invariant
            n == v@.len(),
            1 <= i <= k <= n,
            1 <= d <= k - i + 1,
            spec_skip_composite(v@, i as int, 1) == spec_skip_composite(
                v@,
                k as int,
                d as int,
            ),
        decreases v@.len() - k,
    {
        if k == v.len() {
            return None;
        }
        let c = v[k];
        if c == '"' {
            match scan_string(v, k + 1) {
                None => {
                    return None;
                },
                Some((_content, e)) => {
                    k = e;
                },
            }
        } else if c == '{' || c == '[' {
            d = d + 1;
            k = k + 1;
        } else if c == '}' || c == ']' {
            if d == 1 {
                return Some(k + 1);
            }
            d = d - 1;
            k = k + 1;
        } else {
            k = k + 1;
        }
    }
}

/// Whether the characters of `t` stand at `j` in `v`.
fn match_lit(v: &[char], j: usize, t: &str) -> (r: bool)
    requires
        j <= v@.len(),
    ensures
        r == (j + t@.len() <= v@.len() && v@.subrange(j as int, j + t@.len()) == t@),
{
    let n = v.len();
    let m = t.unicode_len();
    if m > n - j {
        return false;
    }
    let mut k: usize = 0;
    while k < m
        invariant
            n == v@.len(),
            j + m <= n,
            m == t@.len(),
            k <= m,
            forall|q: int| 0 <= q < k ==> v@[j + q] == t@[q],
        decreases m - k,
    {
        if v[j + k] != t.get_char(k) {
            proof {
                assert(v@.subrange(j as int, j + t@.len())[k as int] == v@[j + k]);
            }
            return false;
        }
        k = k + 1;
    }
    proof {
        assert(v@.subrange(j as int, j + t@.len()) =~= t@);
    }
    true
}

/// The spec-level view of an optional scanned token.
pub open spec fn opt_chars_view(o: Option<Vec<char>>) -> Option<Seq<char>> {
    match o {
        Option::None => Option::None,
        Option::Some(t) => Option::Some(t@),
    }
}

/// Reads the members of one price-level object from `i`, just after its
/// opening brace: exactly a `price` and an `amount` member, numbers both,
/// in either order.
pub open spec fn spec_level_members(
    s: Seq<char>,
    i: int,
    price: Option<Seq<char>>,
    amount: Option<Seq<char>>,
) -> Option<(BookLevelV, int)>
    decreases s.len() - i,
{
    if !(0 <= i <= s.len()) {
        None
    } else {
        let j = spec_skip_ws(s, i);
        if j >= s.len() || s[j] != '"' {
            None
        } else {
            match spec_scan_string(s, j + 1, Seq::empty()) {
                None => None,
                Some(ke) => {
                    let e2 = spec_skip_ws(s, ke.1);
                    if !(ke.1 <= s.len()) || e2 >= s.len() || s[e2] != ':' {
                        None
                    } else {
                        let j3 = spec_skip_ws(s, e2 + 1);
                        let e4 = spec_num_end(s, j3);
                        if !(j3 <= e4 <= s.len()) || !is_number_span(s, j3, e4) {
                            None
                        } else {
                            let tok = s.subrange(j3, e4);
                            let upd: Option<(Option<Seq<char>>, Option<Seq<char>>)> = if ke.0
                                == "price"@ && price is None {
                                Some((Some(tok), amount))
                            } else if ke.0 == "amount"@ && amount is None {
                                Some((price, Some(tok)))
                            } else {
                                None
                            };
                            match upd {
                                None => None,
                                Some(pa) => {
                                    let j4 = spec_skip_ws(s, e4);
                                    if j4 < s.len() && s[j4] == ',' {
                                        if i < j4 + 1 {
                                            spec_level_members(s, j4 + 1, pa.0, pa.1)
                                        } else {
                                            None
                                        }
                                    } else if j4 < s.len() && s[j4] == '}' {
                                        match pa {
                                            (Some(p), Some(a)) => Some(
                                                (BookLevelV { price: p, amount: a }, j4 + 1),
                                            ),
                                            _ => None,
                                        }
                                    } else {
                                        None
                                    }
                                },
                            }
                        }
                    }
                },
            }
        }
    }
}

/// Reads one price-level object's members from `i`, just after its opening
/// brace.
fn parse_level_members(v: &[char], start: usize) -> (r: Option<(BookLevel, usize)>)
    requires
        start <= v@.len(),
    ensures
        match r {
            Some(le) => spec_level_members(v@, start as int, Option::None, Option::None)
                == Some((le.0@, le.1 as int)) && start < le.1 <= v@.len(),
            None => spec_level_members(v@, start as int, Option::None, Option::None) is None,
        },
{
    let mut k: usize = start;
    let mut price: Option<Vec<char>> = None;
    let mut amount: Option<Vec<char>> = None;
    loop
        invariant
            start <= k <= v@.len(),
            spec_level_members(v@, start as int, Option::None, Option::None)
                == spec_level_members(
                v@,
                k as int,
                opt_chars_view(price),
                opt_chars_view(amount),
            ),
        decreases v@.len() - k,
    {
        let j = skip_ws(v, k);
        if j >= v.len() {
            return None;
        }
        if v[j] != '"' {
            return None;
        }
        let (kc, e1) = match scan_string(v, j + 1) {
            None => {
                return None;
            },
            Some(x) => x,
        };
        let e2 = skip_ws(v, e1);
        if e2 >= v.len() {
            return None;
        }
        if v[e2] != ':' {
            return None;
        }
        let j3 = skip_ws(v, e2 + 1);
        let e4 = num_end(v, j3);
        if !is_number_range(v, j3, e4) {
            return None;
        }
        let tok = copy_range(v, j3, e4);
        if chars_eq(kc.as_slice(), "price") && price.is_none() {
            price = Some(tok);
        } else if chars_eq(kc.as_slice(), "amount") && amount.is_none() {
            amount = Some(tok);
        } else {
            return None;
        }
        let j4 = skip_ws(v, e4);
        if j4 < v.len() && v[j4] == ',' {
            if !(j4 + 1 > k) {
                return None;
            }
            k = j4 + 1;
        } else if j4 < v.len() && v[j4] == '}' {
            match (price, amount) {
                (Some(p), Some(a)) => {
                    let lvl = BookLevel {
                        price: crate::text::string_from_chars(p.as_slice()),
                        amount: crate::text::string_from_chars(a.as_slice()),
                    };
                    return Some((lvl, j4 + 1));
                },
                _ => {
                    return None;
                },
            }
        } else {
            return None;
        }
    }
}

/// Reads the elements of a price-level array from `i`, just after the
/// opening bracket: zero or more level objects.
pub open spec fn spec_levels(s: Seq<char>, i: int, acc: Seq<BookLevelV>) -> Option<
    (Seq<BookLevelV>, int),
>
    decreases s.len() - i,
{
    if !(0 <= i <= s.len()) {
        None
    } else {
        let j = spec_skip_ws(s, i);
        if acc.len() == 0 && j < s.len() && s[j] == ']' {
            Some((acc, j + 1))
        } else if j >= s.len() || s[j] != '{' {
            None
        } else {
            match spec_level_members(s, j + 1, Option::None, Option::None) {
                None => None,
                Some(le) => {
                    let j2 = spec_skip_ws(s, le.1);
                    if !(le.1 <= s.len()) {
                        None
                    } else if j2 < s.len() && s[j2] == ',' {
                        if i < j2 + 1 {
                            spec_levels(s, j2 + 1, acc.push(le.0))
                        } else {
                            None
                        }
                    } else if j2 < s.len() && s[j2] == ']' {
                        Some((acc.push(le.0), j2 + 1))
                    } else {
                        None
                    }
                },
            }
        }
    }
}

/// Reads a price-level array from `i`, just after the opening bracket.
fn parse_levels(v: &[char], start: usize) -> (r: Option<(Vec<BookLevel>, usize)>)
    requires
        start <= v@.len(),
    ensures
        match r {
            Some(le) => spec_levels(v@, start as int, Seq::empty()) == Some(
                (levels_view(le.0@), le.1 as int),
            ) && start < le.1 <= v@.len(),
            None => spec_levels(v@, start as int, Seq::empty()) is None,
        },
{
    let mut k: usize = start;
    let mut lvls: Vec<BookLevel> = Vec::new();
    proof {
        lemma_levels_view_empty();
    }
    loop
        invariant
            start <= k <= v@.len(),
            spec_levels(v@, start as int, Seq::empty()) == spec_levels(
                v@,
                k as int,
                levels_view(lvls@),
            ),
        decreases v@.len() - k,
    {
        let j = skip_ws(v, k);
        if lvls.len() == 0 && j < v.len() && v[j] == ']' {
            proof {
                lemma_levels_view_empty();
                assert(lvls@ =~= Seq::<BookLevel>::empty());
            }
            return Some((lvls, j + 1));
        }
        if j >= v.len() {
            return None;
        }
        if v[j] != '{' {
            return None;
        }
        let (lvl, e) = match parse_level_members(v, j + 1) {
            None => {
                return None;
            },
            Some(x) => x,
        };
        let j2 = skip_ws(v, e);
        let ghost lv0 = lvls@;
        if j2 < v.len() && v[j2] == ',' {
            if !(j2 + 1 > k) {
                return None;
            }
            lvls.push(lvl);
            proof {
                assert(lvls@ =~= lv0.push(lvl));
                lemma_levels_view_push(lv0, lvl);
            }
            k = j2 + 1;
        } else if j2 < v.len() && v[j2] == ']' {
            lvls.push(lvl);
            proof {
                assert(lvls@ =~= lv0.push(lvl));
                lemma_levels_view_push(lv0, lvl);
            }
            return Some((lvls, j2 + 1));
        } else {
            return None;
        }
    }
}

/// Reads one member value from `i`: a string, a number, a boolean, `null`,
/// a price-level array, or any other composite value, which is skipped.
pub open spec fn spec_atom(s: Seq<char>, i: int) -> Option<(AtomV, int)> {
    if !(0 <= i <= s.len()) {
        None
    } else {
        let j = spec_skip_ws(s, i);
        if j >= s.len() {
            None
        } else if s[j] == '"' {
            match spec_scan_string(s, j + 1, Seq::empty()) {
                Some(ce) => if ce.1 <= s.len() {
                    Some((AtomV::Str(ce.0), ce.1))
                } else {
                    None
                },
                None => None,
            }
        } else if s[j] == '[' {
            match spec_levels(s, j + 1, Seq::empty()) {
                Some(le) => Some((AtomV::Levels(le.0), le.1)),
                None => match spec_skip_composite(s, j + 1, 1) {
                    Some(e) => Some((AtomV::Complex, e)),
                    None => None,
                },
            }
        } else if s[j] == '{' {
            match spec_skip_composite(s, j + 1, 1) {
                Some(e) => Some((AtomV::Complex, e)),
                None => None,
            }
        } else if j + 4 <= s.len() && s.subrange(j, j + 4) == "true"@ {
            Some((AtomV::Bool(true), j + 4))
        } else if j + 5 <= s.len() && s.subrange(j, j + 5) == "false"@ {
            Some((AtomV::Bool(false), j + 5))
        } else if j + 4 <= s.len() && s.subrange(j, j + 4) == "null"@ {
            Some((AtomV::Null, j + 4))
        } else {
            let e = spec_num_end(s, j);
            if j < e <= s.len() && is_number_span(s, j, e) {
                Some((AtomV::Num(s.subrange(j, e)), e))
            } else {
                None
            }
        }
    }
}

/// Reads one member value from `i`.
fn parse_atom(v: &[char], i: usize) -> (r: Option<(Atom, usize)>)
    requires
        i <= v@.len(),
    ensures
        match r {
            Some(ae) => spec_atom(v@, i as int) == Some((ae.0@, ae.1 as int)) && ae.1
                <= v@.len(),
            None => spec_atom(v@, i as int) is None,
        },
{
    let j = skip_ws(v, i);
    if j >= v.len() {
        return None;
    }
    let c = v[j];
    if c == '"' {
        match scan_string(v, j + 1) {
            Some((content, e)) => {
                return Some((Atom::Str(content), e));
            },
            None => {
                return None;
            },
        }
    } else if c == '[' {
        match parse_levels(v, j + 1) {
            Some((ls, e)) => {
                return Some((Atom::Levels(ls), e));
            },
            None => {
                match skip_composite(v, j + 1) {
                    Some(e) => {
                        return Some((Atom::Complex, e));
                    },
                    None => {
                        return None;
                    },
                }
            },
        }
    } else if c == '{' {
        match skip_composite(v, j + 1) {
            Some(e) => {
                return Some((Atom::Complex, e));
            },
            None => {
                return None;
            },
        }
    } else {
        proof {
            reveal_strlit("true");
            reveal_strlit("false");
            reveal_strlit("null");
        }
        if match_lit(v, j, "true") {
            return Some((Atom::Bool(true), j + 4));
        }
        if match_lit(v, j, "false") {
            return Some((Atom::Bool(false), j + 5));
        }
        if match_lit(v, j, "null") {
            return Some((Atom::Null, j + 4));
        }
        let e = num_end(v, j);
        if j < e && is_number_range(v, j, e) {
            let tok = copy_range(v, j, e);
            return Some((Atom::Num(tok), e));
        }
        return None;
    }
}

/// Reads the members of the frame's object from `i`, just after its opening
/// brace: keys with their values, in arrival order, until the closing
/// brace.
pub open spec fn spec_members(s: Seq<char>, i: int, acc: Seq<(Seq<char>, AtomV)>) -> Option<
    (Seq<(Seq<char>, AtomV)>, int),
>
    decreases s.len() - i,
{
    if !(0 <= i <= s.len()) {
        None
    } else {
        let j = spec_skip_ws(s, i);
        if j >= s.len() || s[j] != '"' {
            None
        } else {
            match spec_scan_string(s, j + 1, Seq::empty()) {
                None => None,
                Some(ke) => {
                    let e2 = spec_skip_ws(s, ke.1);
                    if !(ke.1 <= s.len()) || e2 >= s.len() || s[e2] != ':' {
                        None
                    } else {
                        match spec_atom(s, e2 + 1) {
                            None => None,
                            Some(ae) => {
                                let j2 = spec_skip_ws(s, ae.1);
                                if !(ae.1 <= s.len()) {
                                    None
                                } else if j2 < s.len() && s[j2] == ',' {
                                    if i < j2 + 1 {
                                        spec_members(s, j2 + 1, acc.push((ke.0, ae.0)))
                                    } else {
                                        None
                                    }
                                } else if j2 < s.len() && s[j2] == '}' {
                                    Some((acc.push((ke.0, ae.0)), j2 + 1))
                                } else {
                                    None
                                }
                            },
                        }
                    }
                },
            }
        }
    }
}

/// Reads the members of the frame's object from `start`, just after its
/// opening brace.
fn parse_members(v: &[char], start: usize) -> (r: Option<(Vec<(String, Atom)>, usize)>)
    requires
        start <= v@.len(),
    ensures
        match r {
            Some(fe) => spec_members(v@, start as int, Seq::empty()) == Some(
                (kvs_view(fe.0@), fe.1 as int),
            ) && fe.1 <= v@.len(),
            None => spec_members(v@, start as int, Seq::empty()) is None,
        },
{
    let mut k: usize = start;
    let mut acc: Vec<(String, Atom)> = Vec::new();
    proof {
        assert(kvs_view(acc@) =~= Seq::<(Seq<char>, AtomV)>::empty());
    }
    loop
        invariant
            start <= k <= v@.len(),
            spec_members(v@, start as int, Seq::empty()) == spec_members(
                v@,
                k as int,
                kvs_view(acc@),
            ),
        decreases v@.len() - k,
    {
        let j = skip_ws(v, k);
        if j >= v.len() {
            return None;
        }
        if v[j] != '"' {
            return None;
        }
        let (kc, e1) = match scan_string(v, j + 1) {
            None => {
                return None;
            },
            Some(x) => x,
        };
        let e2 = skip_ws(v, e1);
        if e2 >= v.len() {
            return None;
        }
        if v[e2] != ':' {
            return None;
        }
        let (a, e) = match parse_atom(v, e2 + 1) {
            None => {
                return None;
            },
            Some(x) => x,
        };
        let j2 = skip_ws(v, e);
        let key = crate::text::string_from_chars(kc.as_slice());
        let ghost acc0 = acc@;
        let ghost av = a@;
        if j2 < v.len() && v[j2] == ',' {
            if !(j2 + 1 > k) {
                return None;
            }
            acc.push((key, a));
            proof {
                assert(kvs_view(acc@) =~= kvs_view(acc0).push((kc@, av)));
            }
            k = j2 + 1;
        } else if j2 < v.len() && v[j2] == '}' {
            acc.push((key, a));
            proof {
                assert(kvs_view(acc@) =~= kvs_view(acc0).push((kc@, av)));
            }
            return Some((acc, j2 + 1));
        } else {
            return None;
        }
    }
}

/// The members of a whole text frame: the frame must be exactly one JSON
/// object, possibly surrounded by whitespace.
pub open spec fn spec_flat(s: Seq<char>) -> Option<Seq<(Seq<char>, AtomV)>> {
    let j = spec_skip_ws(s, 0);
    if j >= s.len() || s[j] != '{' {
        None
    } else {
        let j2 = spec_skip_ws(s, j + 1);
        let res = if j2 < s.len() && s[j2] == '}' {
            Some((Seq::<(Seq<char>, AtomV)>::empty(), j2 + 1))
        } else {
            spec_members(s, j + 1, Seq::empty())
        };
        match res {
            None => None,
            Some(fe) => if fe.1 <= s.len() && spec_skip_ws(s, fe.1) == s.len() {
                Some(fe.0)
            } else {
                None
            },
        }
    }
}

/// Parses a whole text frame into its members.
pub fn parse_flat(v: &[char]) -> (r: Option<Vec<(String, Atom)>>)
    ensures
        match r {
            Some(kvs) => spec_flat(v@) == Some(kvs_view(kvs@)),
            None => spec_flat(v@) is None,
        },
{
    let j = skip_ws(v, 0);
    if j >= v.len() {
        return None;
    }
    if v[j] != '{' {
        return None;
    }
    let j2 = skip_ws(v, j + 1);
    let empty_obj: bool = j2 < v.len() && v[j2] == '}';
    let (kvs, e): (Vec<(String, Atom)>, usize) = if empty_obj {
        (Vec::new(), j2 + 1)
    } else {
        match parse_members(v, j + 1) {
            None => {
                return None;
            },
            Some(x) => x,
        }
    };
    let j3 = skip_ws(v, e);
    if j3 != v.len() {
        return None;
    }
    proof {
        if empty_obj {
            assert(kvs_view(kvs@) =~= Seq::<(Seq<char>, AtomV)>::empty());
        }
    }
    Some(kvs)
}

} // verus!

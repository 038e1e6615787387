//! Decoding a parsed text frame into a typed message: the `type` member
//! selects the variant, the variant's fields are looked up by name, each
//! exactly once, with unknown members ignored.

use vstd::prelude::*;
use crate::text::{str_eq, string_from_chars};
use crate::models::Exchange;
use crate::machine::json::{
    Atom,
    AtomV,
    BookLevelV,
    kvs_view,
    levels_view,
    lemma_levels_view_empty,
    lemma_levels_view_push,
};
use crate::machine::models::{
    BookChange,
    BookLevel,
    BookSnapshot,
    DerivativeTicker,
    Disconnect,
    Message,
    Trade,
    TradeBar,
    TradeSide,
};
use crate::machine::json::{parse_flat, spec_flat};
use crate::text::chars_of;
use crate::machine::time::{
    UtcDateTime,
    all_digits,
    digits_val,
    spec_parse_instant,
    check_digits,
    parse_instant,
};

verus! {

/// How many members of `fs` have key `k`.
pub open spec fn key_count(fs: Seq<(Seq<char>, AtomV)>, k: Seq<char>) -> int
    decreases fs.len(),
{
    if fs.len() == 0 {
        0
    } else {
        (if fs[0].0 == k {
            1int
        } else {
            0int
        }) + key_count(fs.drop_first(), k)
    }
}

/// The value of the first member of `fs` with key `k`.
pub open spec fn field_value(fs: Seq<(Seq<char>, AtomV)>, k: Seq<char>) -> Option<AtomV>
    decreases fs.len(),
{
    if fs.len() == 0 {
        None
    } else if fs[0].0 == k {
        Some(fs[0].1)
    } else {
        field_value(fs.drop_first(), k)
    }
}

/// The value of key `k`, provided the key occurs exactly once.
pub open spec fn field1(fs: Seq<(Seq<char>, AtomV)>, k: Seq<char>) -> Option<AtomV> {
    if key_count(fs, k) == 1 {
        field_value(fs, k)
    } else {
        None
    }
}

/// A required string member.
pub open spec fn f_str(fs: Seq<(Seq<char>, AtomV)>, k: Seq<char>) -> Option<Seq<char>> {
    match field1(fs, k) {
        Some(AtomV::Str(s)) => Some(s),
        _ => None,
    }
}

/// A required number member, as its raw token.
pub open spec fn f_num(fs: Seq<(Seq<char>, AtomV)>, k: Seq<char>) -> Option<Seq<char>> {
    match field1(fs, k) {
        Some(AtomV::Num(t)) => Some(t),
        _ => None,
    }
}

/// A required boolean member.
pub open spec fn f_bool(fs: Seq<(Seq<char>, AtomV)>, k: Seq<char>) -> Option<bool> {
    match field1(fs, k) {
        Some(AtomV::Bool(b)) => Some(b),
        _ => None,
    }
}

/// A required price-level array member.
pub open spec fn f_levels(fs: Seq<(Seq<char>, AtomV)>, k: Seq<char>) -> Option<
    Seq<BookLevelV>,
> {
    match field1(fs, k) {
        Some(AtomV::Levels(ls)) => Some(ls),
        _ => None,
    }
}

/// The value of nonempty decimal digits `t`, if it fits a `u64`.
pub open spec fn spec_parse_u64(t: Seq<char>) -> Option<u64> {
    if t.len() > 0 && all_digits(t, 0, t.len() as int) && digits_val(t, 0, t.len() as int)
        <= u64::MAX {
        Some(digits_val(t, 0, t.len() as int) as u64)
    } else {
        None
    }
}

/// A required unsigned-integer member.
pub open spec fn f_u64(fs: Seq<(Seq<char>, AtomV)>, k: Seq<char>) -> Option<u64> {
    match f_num(fs, k) {
        Some(t) => spec_parse_u64(t),
        None => None,
    }
}

/// A required timestamp member: a string in the RFC 3339 wire shape.
pub open spec fn f_instant(fs: Seq<(Seq<char>, AtomV)>, k: Seq<char>) -> Option<UtcDateTime> {
    match f_str(fs, k) {
        Some(s) => spec_parse_instant(s),
        None => None,
    }
}

/// A required exchange member: a string holding a known wire name.
pub open spec fn f_exchange(fs: Seq<(Seq<char>, AtomV)>, k: Seq<char>) -> Option<Exchange> {
    match f_str(fs, k) {
        Some(s) => Exchange::spec_of_wire(s),
        None => None,
    }
}

/// The trade side named by `s`.
pub open spec fn side_of_wire(s: Seq<char>) -> Option<TradeSide> {
    if s == "buy"@ {
        Some(TradeSide::Buy)
    } else if s == "sell"@ {
        Some(TradeSide::Sell)
    } else if s == "unknown"@ {
        Some(TradeSide::Unknown)
    } else {
        None
    }
}

/// A required trade-side member.
pub open spec fn f_side(fs: Seq<(Seq<char>, AtomV)>, k: Seq<char>) -> Option<TradeSide> {
    match f_str(fs, k) {
        Some(s) => side_of_wire(s),
        None => None,
    }
}

/// An optional string member: absent or `null` is an absent value, a string
/// is a present one, anything else is an error.
pub open spec fn opt_str(fs: Seq<(Seq<char>, AtomV)>, k: Seq<char>) -> Option<
    Option<Seq<char>>,
> {
    if key_count(fs, k) == 0 {
        Some(None)
    } else if key_count(fs, k) == 1 {
        match field_value(fs, k) {
            Some(AtomV::Str(s)) => Some(Some(s)),
            Some(AtomV::Null) => Some(None),
            _ => None,
        }
    } else {
        None
    }
}

/// An optional number member: absent or `null` is an absent value, a number
/// is a present one, anything else is an error.
pub open spec fn opt_num(fs: Seq<(Seq<char>, AtomV)>, k: Seq<char>) -> Option<
    Option<Seq<char>>,
> {
    if key_count(fs, k) == 0 {
        Some(None)
    } else if key_count(fs, k) == 1 {
        match field_value(fs, k) {
            Some(AtomV::Num(t)) => Some(Some(t)),
            Some(AtomV::Null) => Some(None),
            _ => None,
        }
    } else {
        None
    }
}

/// The spec-level form of an optional owned string.
pub open spec fn opt_string_view(o: Option<String>) -> Option<Seq<char>> {
    match o {
        Option::None => Option::None,
        Option::Some(s) => Option::Some(s@),
    }
}

/// Counts the members of `fs` with key `name`.
fn count_key(fs: &Vec<(String, Atom)>, name: &str) -> (n: usize)
    ensures
        n == key_count(kvs_view(fs@), name@),
{
    let m = fs.len();
    let mut n: usize = 0;
    let mut i: usize = 0;
    proof {
        assert(kvs_view(fs@).skip(0) =~= kvs_view(fs@));
    }
    while i < m
        invariant
            m == fs@.len(),
            i <= m,
            n <= i,
            n + key_count(kvs_view(fs@).skip(i as int), name@) == key_count(
                kvs_view(fs@),
                name@,
            ),
        decreases m - i,
    {
        proof {
            let kv = kvs_view(fs@);
            assert(kv.skip(i as int).drop_first() =~= kv.skip(i + 1));
            assert(kv.skip(i as int)[0] == kv[i as int]);
            assert(kv[i as int] == (fs@[i as int].0@, fs@[i as int].1@));
        }
        let p: &(String, Atom) = &fs[i];
        if str_eq(p.0.as_str(), name) {
            n = n + 1;
        }
        i = i + 1;
    }
    proof {
        assert(kvs_view(fs@).skip(m as int) =~= Seq::<(Seq<char>, AtomV)>::empty());
    }
    n
}

/// Finds the first member of `fs` with key `name`.
fn find_first(fs: &Vec<(String, Atom)>, name: &str) -> (r: Option<usize>)
    ensures
        match r {
            Some(ix) => ix < fs@.len() && fs@[ix as int].0@ == name@ && field_value(
                kvs_view(fs@),
                name@,
            ) == Some(fs@[ix as int].1@),
            None => field_value(kvs_view(fs@), name@) is None,
        },
{
    let m = fs.len();
    let mut i: usize = 0;
    proof {
        assert(kvs_view(fs@).skip(0) =~= kvs_view(fs@));
    }
    while i < m
        invariant
            m == fs@.len(),
            i <= m,
            field_value(kvs_view(fs@), name@) == field_value(
                kvs_view(fs@).skip(i as int),
                name@,
            ),
        decreases m - i,
    {
        proof {
            let kv = kvs_view(fs@);
            assert(kv.skip(i as int).drop_first() =~= kv.skip(i + 1));
            assert(kv.skip(i as int)[0] == kv[i as int]);
            assert(kv[i as int] == (fs@[i as int].0@, fs@[i as int].1@));
        }
        let p: &(String, Atom) = &fs[i];
        if str_eq(p.0.as_str(), name) {
            return Some(i);
        }
        i = i + 1;
    }
    proof {
        assert(kvs_view(fs@).skip(m as int) =~= Seq::<(Seq<char>, AtomV)>::empty());
    }
    None
}

/// Reads a required string member.
fn get_str(fs: &Vec<(String, Atom)>, name: &str) -> (r: Option<String>)
    ensures
        match r {
            Some(s) => f_str(kvs_view(fs@), name@) == Some(s@),
            None => f_str(kvs_view(fs@), name@) is None,
        },
{
    if count_key(fs, name) != 1 {
        return None;
    }
    let ix = match find_first(fs, name) {
        None => {
            return None;
        },
        Some(ix) => ix,
    };
    let p: &(String, Atom) = &fs[ix];
    match &p.1 {
        Atom::Str(t) => Some(string_from_chars(t.as_slice())),
        _ => None,
    }
}

/// Reads a required number member, as its raw token.
fn get_num(fs: &Vec<(String, Atom)>, name: &str) -> (r: Option<String>)
    ensures
        match r {
            Some(s) => f_num(kvs_view(fs@), name@) == Some(s@),
            None => f_num(kvs_view(fs@), name@) is None,
        },
{
    if count_key(fs, name) != 1 {
        return None;
    }
    let ix = match find_first(fs, name) {
        None => {
            return None;
        },
        Some(ix) => ix,
    };
    let p: &(String, Atom) = &fs[ix];
    match &p.1 {
        Atom::Num(t) => Some(string_from_chars(t.as_slice())),
        _ => None,
    }
}

/// Reads a required boolean member.
fn get_bool(fs: &Vec<(String, Atom)>, name: &str) -> (r: Option<bool>)
    ensures
        match r {
            Some(b) => f_bool(kvs_view(fs@), name@) == Some(b),
            None => f_bool(kvs_view(fs@), name@) is None,
        },
{
    if count_key(fs, name) != 1 {
        return None;
    }
    let ix = match find_first(fs, name) {
        None => {
            return None;
        },
        Some(ix) => ix,
    };
    let p: &(String, Atom) = &fs[ix];
    match &p.1 {
        Atom::Bool(b) => Some(*b),
        _ => None,
    }
}

/// Digit sequences denote nonnegative values.
proof fn lemma_digits_val_nonneg(s: Seq<char>, i: int, j: int)
    requires
        all_digits(s, i, j),
    ensures
        digits_val(s, i, j) >= 0,
    decreases j - i,
{
    if i < j {
        lemma_digits_val_nonneg(s, i, j - 1);
    }
}

/// A longer digit prefix denotes at least as large a value.
proof fn lemma_digits_val_monotone(s: Seq<char>, i: int, k: int, j: int)
    requires
        all_digits(s, i, j),
        i <= k <= j,
    ensures
        digits_val(s, i, j) >= digits_val(s, i, k),
    decreases j - k,
{
    if k < j {
        lemma_digits_val_monotone(s, i, k, j - 1);
        lemma_digits_val_nonneg(s, i, j - 1);
        assert(digits_val(s, i, j) == digits_val(s, i, j - 1) * 10 + (s[j - 1] as u32 - 48));
        assert(digits_val(s, i, j - 1) * 10 >= digits_val(s, i, j - 1)) by (nonlinear_arith)
            requires
                digits_val(s, i, j - 1) >= 0,
        ;
    }
}

/// Reads nonempty decimal digits as a `u64`, detecting overflow exactly.
pub fn parse_u64(t: &[char]) -> (r: Option<u64>)
    ensures
        r == spec_parse_u64(t@),
{
    let n = t.len();
    if n == 0 {
        return None;
    }
    if !check_digits(t, 0, n) {
        return None;
    }
    let mut acc: u64 = 0;
    let mut k: usize = 0;
    while k < n
        invariant
            n == t@.len(),
            k <= n,
            all_digits(t@, 0, n as int),
            acc == digits_val(t@, 0, k as int),
        decreases n - k,
    {
        let d: u64 = ((t[k] as u32) - 48) as u64;
        if acc > (u64::MAX - d) / 10 {
            proof {
                let big = digits_val(t@, 0, k + 1);
                assert(big == acc * 10 + d);
                assert(acc * 10 + d > u64::MAX) by (nonlinear_arith)
                    requires
                        acc > (u64::MAX - d) / 10,
                        0 <= d <= 9,
                        acc >= 0,
                        u64::MAX - d == 10 * ((u64::MAX - d) / 10) + ((u64::MAX - d) % 10),
                        0 <= (u64::MAX - d) % 10 < 10,
                ;
                lemma_digits_val_monotone(t@, 0, k + 1, n as int);
            }
            return None;
        }
        proof {
            assert(acc * 10 + d <= u64::MAX) by (nonlinear_arith)
                requires
                    acc <= (u64::MAX - d) / 10,
                    0 <= d <= 9,
                    acc >= 0,
                    u64::MAX - d == 10 * ((u64::MAX - d) / 10) + ((u64::MAX - d) % 10),
                    0 <= (u64::MAX - d) % 10 < 10,
            ;
        }
        acc = acc * 10 + d;
        k = k + 1;
    }
    Some(acc)
}

/// Reads a required unsigned-integer member.
fn get_u64(fs: &Vec<(String, Atom)>, name: &str) -> (r: Option<u64>)
    ensures
        r == f_u64(kvs_view(fs@), name@),
{
    if count_key(fs, name) != 1 {
        return None;
    }
    let ix = match find_first(fs, name) {
        None => {
            return None;
        },
        Some(ix) => ix,
    };
    let p: &(String, Atom) = &fs[ix];
    match &p.1 {
        Atom::Num(t) => parse_u64(t.as_slice()),
        _ => None,
    }
}

/// Reads a required timestamp member.
fn get_instant(fs: &Vec<(String, Atom)>, name: &str) -> (r: Option<UtcDateTime>)
    ensures
        r == f_instant(kvs_view(fs@), name@),
{
    if count_key(fs, name) != 1 {
        return None;
    }
    let ix = match find_first(fs, name) {
        None => {
            return None;
        },
        Some(ix) => ix,
    };
    let p: &(String, Atom) = &fs[ix];
    match &p.1 {
        Atom::Str(t) => parse_instant(t.as_slice()),
        _ => None,
    }
}

/// Reads a required exchange member.
fn get_exchange(fs: &Vec<(String, Atom)>, name: &str) -> (r: Option<Exchange>)
    ensures
        r == f_exchange(kvs_view(fs@), name@),
{
    let s = match get_str(fs, name) {
        None => {
            return None;
        },
        Some(s) => s,
    };
    Exchange::from_wire(s.as_str())
}

/// Reads a required trade-side member.
fn get_side(fs: &Vec<(String, Atom)>, name: &str) -> (r: Option<TradeSide>)
    ensures
        r == f_side(kvs_view(fs@), name@),
{
    let s = match get_str(fs, name) {
        None => {
            return None;
        },
        Some(s) => s,
    };
    if str_eq(s.as_str(), "buy") {
        Some(TradeSide::Buy)
    } else if str_eq(s.as_str(), "sell") {
        Some(TradeSide::Sell)
    } else if str_eq(s.as_str(), "unknown") {
        Some(TradeSide::Unknown)
    } else {
        None
    }
}

/// A fresh copy of a price-level list.
fn clone_levels(ls: &Vec<BookLevel>) -> (r: Vec<BookLevel>)
    ensures
        levels_view(r@) == levels_view(ls@),
{
    let n = ls.len();
    let mut out: Vec<BookLevel> = Vec::new();
    proof {
        lemma_levels_view_empty();
        assert(levels_view(out@) =~= levels_view(ls@).take(0));
    }
    let mut i: usize = 0;
    while i < n
        invariant
            n == ls@.len(),
            i <= n,
            levels_view(out@) == levels_view(ls@).take(i as int),
        decreases n - i,
    {
        let p: &BookLevel = &ls[i];
        let c = BookLevel { price: p.price.clone(), amount: p.amount.clone() };
        proof {
            assert(c == ls@[i as int]);
        }
        let ghost out0 = out@;
        out.push(c);
        proof {
            assert(out@ =~= out0.push(ls@[i as int]));
            lemma_levels_view_push(out0, ls@[i as int]);
            assert(levels_view(ls@).take(i + 1) =~= levels_view(ls@).take(i as int).push(
                levels_view(ls@)[i as int],
            ));
            assert(levels_view(ls@)[i as int] == ls@[i as int]@);
        }
        i = i + 1;
    }
    proof {
        assert(levels_view(ls@).take(n as int) =~= levels_view(ls@));
    }
    out
}

/// Reads a required price-level array member.
fn get_levels(fs: &Vec<(String, Atom)>, name: &str) -> (r: Option<Vec<BookLevel>>)
    ensures
        match r {
            Some(ls) => f_levels(kvs_view(fs@), name@) == Some(levels_view(ls@)),
            None => f_levels(kvs_view(fs@), name@) is None,
        },
{
    if count_key(fs, name) != 1 {
        return None;
    }
    let ix = match find_first(fs, name) {
        None => {
            return None;
        },
        Some(ix) => ix,
    };
    let p: &(String, Atom) = &fs[ix];
    match &p.1 {
        Atom::Levels(ls) => Some(clone_levels(ls)),
        _ => None,
    }
}

/// Reads an optional string member: absent or `null` is `None`.
fn get_opt_str(fs: &Vec<(String, Atom)>, name: &str) -> (r: Option<Option<String>>)
    ensures
        match r {
            Some(o) => opt_str(kvs_view(fs@), name@) == Some(opt_string_view(o)),
            None => opt_str(kvs_view(fs@), name@) is None,
        },
{
    let cnt = count_key(fs, name);
    if cnt == 0 {
        return Some(None);
    }
    if cnt != 1 {
        return None;
    }
    let ix = match find_first(fs, name) {
        None => {
            return None;
        },
        Some(ix) => ix,
    };
    let p: &(String, Atom) = &fs[ix];
    match &p.1 {
        Atom::Str(t) => Some(Some(string_from_chars(t.as_slice()))),
        Atom::Null => Some(None),
        _ => None,
    }
}

/// Reads an optional number member: absent or `null` is `None`.
fn get_opt_num(fs: &Vec<(String, Atom)>, name: &str) -> (r: Option<Option<String>>)
    ensures
        match r {
            Some(o) => opt_num(kvs_view(fs@), name@) == Some(opt_string_view(o)),
            None => opt_num(kvs_view(fs@), name@) is None,
        },
{
    let cnt = count_key(fs, name);
    if cnt == 0 {
        return Some(None);
    }
    if cnt != 1 {
        return None;
    }
    let ix = match find_first(fs, name) {
        None => {
            return None;
        },
        Some(ix) => ix,
    };
    let p: &(String, Atom) = &fs[ix];
    match &p.1 {
        Atom::Num(t) => Some(Some(string_from_chars(t.as_slice()))),
        Atom::Null => Some(None),
        _ => None,
    }
}

/// What a `trade` frame must carry.
pub open spec fn trade_ok(fs: Seq<(Seq<char>, AtomV)>) -> bool {
    &&& f_str(fs, "symbol"@) is Some
    &&& f_exchange(fs, "exchange"@) is Some
    &&& opt_str(fs, "id"@) is Some
    &&& f_num(fs, "price"@) is Some
    &&& f_num(fs, "amount"@) is Some
    &&& f_side(fs, "side"@) is Some
    &&& f_instant(fs, "timestamp"@) is Some
    &&& f_instant(fs, "localTimestamp"@) is Some
}

/// How a decoded trade relates to the frame's members.
pub open spec fn trade_matches(t: Trade, fs: Seq<(Seq<char>, AtomV)>) -> bool {
    &&& f_str(fs, "symbol"@) == Some(t.symbol@)
    &&& f_exchange(fs, "exchange"@) == Some(t.exchange)
    &&& opt_str(fs, "id"@) == Some(opt_string_view(t.id))
    &&& f_num(fs, "price"@) == Some(t.price@)
    &&& f_num(fs, "amount"@) == Some(t.amount@)
    &&& f_side(fs, "side"@) == Some(t.side)
    &&& f_instant(fs, "timestamp"@) == Some(t.timestamp)
    &&& f_instant(fs, "localTimestamp"@) == Some(t.local_timestamp)
}

/// Decodes a `trade` frame's members.
fn decode_trade(fs: &Vec<(String, Atom)>) -> (r: Option<Trade>)
    ensures
        r is Some <==> trade_ok(kvs_view(fs@)),
        r matches Some(t) ==> trade_matches(t, kvs_view(fs@)),
{
    let symbol = match get_str(fs, "symbol") {
        None => {
            return None;
        },
        Some(x) => x,
    };
    let exchange = match get_exchange(fs, "exchange") {
        None => {
            return None;
        },
        Some(x) => x,
    };
    let id = match get_opt_str(fs, "id") {
        None => {
            return None;
        },
        Some(x) => x,
    };
    let price = match get_num(fs, "price") {
        None => {
            return None;
        },
        Some(x) => x,
    };
    let amount = match get_num(fs, "amount") {
        None => {
            return None;
        },
        Some(x) => x,
    };
    let side = match get_side(fs, "side") {
        None => {
            return None;
        },
        Some(x) => x,
    };
    let timestamp = match get_instant(fs, "timestamp") {
        None => {
            return None;
        },
        Some(x) => x,
    };
    let local_timestamp = match get_instant(fs, "localTimestamp") {
        None => {
            return None;
        },
        Some(x) => x,
    };
    Some(Trade { symbol, exchange, id, price, amount, side, timestamp, local_timestamp })
}

/// What a `book_change` frame must carry.
pub open spec fn book_change_ok(fs: Seq<(Seq<char>, AtomV)>) -> bool {
    &&& f_str(fs, "symbol"@) is Some
    &&& f_exchange(fs, "exchange"@) is Some
    &&& f_bool(fs, "isSnapshot"@) is Some
    &&& f_levels(fs, "bids"@) is Some
    &&& f_levels(fs, "asks"@) is Some
    &&& f_instant(fs, "timestamp"@) is Some
    &&& f_instant(fs, "localTimestamp"@) is Some
}

/// How a decoded book change relates to the frame's members.
pub open spec fn book_change_matches(b: BookChange, fs: Seq<(Seq<char>, AtomV)>) -> bool {
    &&& f_str(fs, "symbol"@) == Some(b.symbol@)
    &&& f_exchange(fs, "exchange"@) == Some(b.exchange)
    &&& f_bool(fs, "isSnapshot"@) == Some(b.is_snapshot)
    &&& f_levels(fs, "bids"@) == Some(levels_view(b.bids@))
    &&& f_levels(fs, "asks"@) == Some(levels_view(b.asks@))
    &&& f_instant(fs, "timestamp"@) == Some(b.timestamp)
    &&& f_instant(fs, "localTimestamp"@) == Some(b.local_timestamp)
}

/// Decodes a `book_change` frame's members.
fn decode_book_change(fs: &Vec<(String, Atom)>) -> (r: Option<BookChange>)
    ensures
        r is Some <==> book_change_ok(kvs_view(fs@)),
        r matches Some(b) ==> book_change_matches(b, kvs_view(fs@)),
{
    let symbol = match get_str(fs, "symbol") {
        None => {
            return None;
        },
        Some(x) => x,
    };
    let exchange = match get_exchange(fs, "exchange") {
        None => {
            return None;
        },
        Some(x) => x,
    };
    let is_snapshot = match get_bool(fs, "isSnapshot") {
        None => {
            return None;
        },
        Some(x) => x,
    };
    let bids = match get_levels(fs, "bids") {
        None => {
            return None;
        },
        Some(x) => x,
    };
    let asks = match get_levels(fs, "asks") {
        None => {
            return None;
        },
        Some(x) => x,
    };
    let timestamp = match get_instant(fs, "timestamp") {
        None => {
            return None;
        },
        Some(x) => x,
    };
    let local_timestamp = match get_instant(fs, "localTimestamp") {
        None => {
            return None;
        },
        Some(x) => x,
    };
    Some(
        BookChange {
            symbol,
            exchange,
            is_snapshot,
            bids,
            asks,
            timestamp,
            local_timestamp,
        },
    )
}

/// What a `derivative_ticker` frame must carry.
pub open spec fn ticker_ok(fs: Seq<(Seq<char>, AtomV)>) -> bool {
    &&& f_str(fs, "symbol"@) is Some
    &&& f_exchange(fs, "exchange"@) is Some
    &&& opt_num(fs, "lastPrice"@) is Some
    &&& opt_num(fs, "openInterest"@) is Some
    &&& opt_num(fs, "fundingRate"@) is Some
    &&& opt_num(fs, "indexPrice"@) is Some
    &&& opt_num(fs, "markPrice"@) is Some
    &&& f_instant(fs, "timestamp"@) is Some
    &&& f_instant(fs, "localTimestamp"@) is Some
}

/// How a decoded derivative ticker relates to the frame's members.
pub open spec fn ticker_matches(d: DerivativeTicker, fs: Seq<(Seq<char>, AtomV)>) -> bool {
    &&& f_str(fs, "symbol"@) == Some(d.symbol@)
    &&& f_exchange(fs, "exchange"@) == Some(d.exchange)
    &&& opt_num(fs, "lastPrice"@) == Some(opt_string_view(d.last_price))
    &&& opt_num(fs, "openInterest"@) == Some(opt_string_view(d.open_interest))
    &&& opt_num(fs, "fundingRate"@) == Some(opt_string_view(d.funding_rate))
    &&& opt_num(fs, "indexPrice"@) == Some(opt_string_view(d.index_price))
    &&& opt_num(fs, "markPrice"@) == Some(opt_string_view(d.mark_price))
    &&& f_instant(fs, "timestamp"@) == Some(d.timestamp)
    &&& f_instant(fs, "localTimestamp"@) == Some(d.local_timestamp)
}

/// Decodes a `derivative_ticker` frame's members.
fn decode_ticker(fs: &Vec<(String, Atom)>) -> (r: Option<DerivativeTicker>)
    ensures
        r is Some <==> ticker_ok(kvs_view(fs@)),
        r matches Some(d) ==> ticker_matches(d, kvs_view(fs@)),
{
    let symbol = match get_str(fs, "symbol") {
        None => {
            return None;
        },
        Some(x) => x,
    };
    let exchange = match get_exchange(fs, "exchange") {
        None => {
            return None;
        },
        Some(x) => x,
    };
    let last_price = match get_opt_num(fs, "lastPrice") {
        None => {
            return None;
        },
        Some(x) => x,
    };
    let open_interest = match get_opt_num(fs, "openInterest") {
        None => {
            return None;
        },
        Some(x) => x,
    };
    let funding_rate = match get_opt_num(fs, "fundingRate") {
        None => {
            return None;
        },
        Some(x) => x,
    };
    let index_price = match get_opt_num(fs, "indexPrice") {
        None => {
            return None;
        },
        Some(x) => x,
    };
    let mark_price = match get_opt_num(fs, "markPrice") {
        None => {
            return None;
        },
        Some(x) => x,
    };
    let timestamp = match get_instant(fs, "timestamp") {
        None => {
            return None;
        },
        Some(x) => x,
    };
    let local_timestamp = match get_instant(fs, "localTimestamp") {
        None => {
            return None;
        },
        Some(x) => x,
    };
    Some(
        DerivativeTicker {
            symbol,
            exchange,
            last_price,
            open_interest,
            funding_rate,
            index_price,
            mark_price,
            timestamp,
            local_timestamp,
        },
    )
}

/// What a `book_snapshot` frame must carry.
pub open spec fn snapshot_ok(fs: Seq<(Seq<char>, AtomV)>) -> bool {
    &&& f_str(fs, "symbol"@) is Some
    &&& f_exchange(fs, "exchange"@) is Some
    &&& f_str(fs, "name"@) is Some
    &&& f_u64(fs, "depth"@) is Some
    &&& f_u64(fs, "interval"@) is Some
    &&& f_levels(fs, "bids"@) is Some
    &&& f_levels(fs, "asks"@) is Some
    &&& f_instant(fs, "timestamp"@) is Some
    &&& f_instant(fs, "localTimestamp"@) is Some
}

/// How a decoded book snapshot relates to the frame's members.
pub open spec fn snapshot_matches(b: BookSnapshot, fs: Seq<(Seq<char>, AtomV)>) -> bool {
    &&& f_str(fs, "symbol"@) == Some(b.symbol@)
    &&& f_exchange(fs, "exchange"@) == Some(b.exchange)
    &&& f_str(fs, "name"@) == Some(b.name@)
    &&& f_u64(fs, "depth"@) == Some(b.depth)
    &&& f_u64(fs, "interval"@) == Some(b.interval)
    &&& f_levels(fs, "bids"@) == Some(levels_view(b.bids@))
    &&& f_levels(fs, "asks"@) == Some(levels_view(b.asks@))
    &&& f_instant(fs, "timestamp"@) == Some(b.timestamp)
    &&& f_instant(fs, "localTimestamp"@) == Some(b.local_timestamp)
}

/// Decodes a `book_snapshot` frame's members.
fn decode_snapshot(fs: &Vec<(String, Atom)>) -> (r: Option<BookSnapshot>)
    ensures
        r is Some <==> snapshot_ok(kvs_view(fs@)),
        r matches Some(b) ==> snapshot_matches(b, kvs_view(fs@)),
{
    let symbol = match get_str(fs, "symbol") {
        None => {
            return None;
        },
        Some(x) => x,
    };
    let exchange = match get_exchange(fs, "exchange") {
        None => {
            return None;
        },
        Some(x) => x,
    };
    let name = match get_str(fs, "name") {
        None => {
            return None;
        },
        Some(x) => x,
    };
    let depth = match get_u64(fs, "depth") {
        None => {
            return None;
        },
        Some(x) => x,
    };
    let interval = match get_u64(fs, "interval") {
        None => {
            return None;
        },
        Some(x) => x,
    };
    let bids = match get_levels(fs, "bids") {
        None => {
            return None;
        },
        Some(x) => x,
    };
    let asks = match get_levels(fs, "asks") {
        None => {
            return None;
        },
        Some(x) => x,
    };
    let timestamp = match get_instant(fs, "timestamp") {
        None => {
            return None;
        },
        Some(x) => x,
    };
    let local_timestamp = match get_instant(fs, "localTimestamp") {
        None => {
            return None;
        },
        Some(x) => x,
    };
    Some(
        BookSnapshot {
            symbol,
            exchange,
            name,
            depth,
            interval,
            bids,
            asks,
            timestamp,
            local_timestamp,
        },
    )
}

/// What a `trade_bar` frame must carry.
pub open spec fn bar_ok(fs: Seq<(Seq<char>, AtomV)>) -> bool {
    &&& f_str(fs, "symbol"@) is Some
    &&& f_exchange(fs, "exchange"@) is Some
    &&& f_str(fs, "name"@) is Some
    &&& f_u64(fs, "interval"@) is Some
    &&& f_num(fs, "open"@) is Some
    &&& f_num(fs, "high"@) is Some
    &&& f_num(fs, "low"@) is Some
    &&& f_num(fs, "close"@) is Some
    &&& f_num(fs, "volume"@) is Some
    &&& f_num(fs, "buyVolume"@) is Some
    &&& f_num(fs, "sellVolume"@) is Some
    &&& f_u64(fs, "trades"@) is Some
    &&& f_num(fs, "vwap"@) is Some
    &&& f_instant(fs, "openTimestamp"@) is Some
    &&& f_instant(fs, "closeTimestamp"@) is Some
    &&& f_instant(fs, "timestamp"@) is Some
    &&& f_instant(fs, "localTimestamp"@) is Some
}

/// How a decoded trade bar relates to the frame's members.
pub open spec fn bar_matches(b: TradeBar, fs: Seq<(Seq<char>, AtomV)>) -> bool {
    &&& f_str(fs, "symbol"@) == Some(b.symbol@)
    &&& f_exchange(fs, "exchange"@) == Some(b.exchange)
    &&& f_str(fs, "name"@) == Some(b.name@)
    &&& f_u64(fs, "interval"@) == Some(b.interval)
    &&& f_num(fs, "open"@) == Some(b.open@)
    &&& f_num(fs, "high"@) == Some(b.high@)
    &&& f_num(fs, "low"@) == Some(b.low@)
    &&& f_num(fs, "close"@) == Some(b.close@)
    &&& f_num(fs, "volume"@) == Some(b.volume@)
    &&& f_num(fs, "buyVolume"@) == Some(b.buy_volume@)
    &&& f_num(fs, "sellVolume"@) == Some(b.sell_volume@)
    &&& f_u64(fs, "trades"@) == Some(b.trades)
    &&& f_num(fs, "vwap"@) == Some(b.vwap@)
    &&& f_instant(fs, "openTimestamp"@) == Some(b.open_timestamp)
    &&& f_instant(fs, "closeTimestamp"@) == Some(b.close_timestamp)
    &&& f_instant(fs, "timestamp"@) == Some(b.timestamp)
    &&& f_instant(fs, "localTimestamp"@) == Some(b.local_timestamp)
}

/// Decodes a `trade_bar` frame's members.
fn decode_bar(fs: &Vec<(String, Atom)>) -> (r: Option<TradeBar>)
    ensures
        r is Some <==> bar_ok(kvs_view(fs@)),
        r matches Some(b) ==> bar_matches(b, kvs_view(fs@)),
{
    let symbol = match get_str(fs, "symbol") {
        None => {
            return None;
        },
        Some(x) => x,
    };
    let exchange = match get_exchange(fs, "exchange") {
        None => {
            return None;
        },
        Some(x) => x,
    };
    let name = match get_str(fs, "name") {
        None => {
            return None;
        },
        Some(x) => x,
    };
    let interval = match get_u64(fs, "interval") {
        None => {
            return None;
        },
        Some(x) => x,
    };
    let open = match get_num(fs, "open") {
        None => {
            return None;
        },
        Some(x) => x,
    };
    let high = match get_num(fs, "high") {
        None => {
            return None;
        },
        Some(x) => x,
    };
    let low = match get_num(fs, "low") {
        None => {
            return None;
        },
        Some(x) => x,
    };
    let close = match get_num(fs, "close") {
        None => {
            return None;
        },
        Some(x) => x,
    };
    let volume = match get_num(fs, "volume") {
        None => {
            return None;
        },
        Some(x) => x,
    };
    let buy_volume = match get_num(fs, "buyVolume") {
        None => {
            return None;
        },
        Some(x) => x,
    };
    let sell_volume = match get_num(fs, "sellVolume") {
        None => {
            return None;
        },
        Some(x) => x,
    };
    let trades = match get_u64(fs, "trades") {
        None => {
            return None;
        },
        Some(x) => x,
    };
    let vwap = match get_num(fs, "vwap") {
        None => {
            return None;
        },
        Some(x) => x,
    };
    let open_timestamp = match get_instant(fs, "openTimestamp") {
        None => {
            return None;
        },
        Some(x) => x,
    };
    let close_timestamp = match get_instant(fs, "closeTimestamp") {
        None => {
            return None;
        },
        Some(x) => x,
    };
    let timestamp = match get_instant(fs, "timestamp") {
        None => {
            return None;
        },
        Some(x) => x,
    };
    let local_timestamp = match get_instant(fs, "localTimestamp") {
        None => {
            return None;
        },
        Some(x) => x,
    };
    Some(
        TradeBar {
            symbol,
            exchange,
            name,
            interval,
            open,
            high,
            low,
            close,
            volume,
            buy_volume,
            sell_volume,
            trades,
            vwap,
            open_timestamp,
            close_timestamp,
            timestamp,
            local_timestamp,
        },
    )
}

/// What a `disconnect` frame must carry.
pub open spec fn disconnect_ok(fs: Seq<(Seq<char>, AtomV)>) -> bool {
    &&& f_exchange(fs, "exchange"@) is Some
    &&& f_instant(fs, "localTimestamp"@) is Some
}

/// How a decoded disconnect marker relates to the frame's members.
pub open spec fn disconnect_matches(d: Disconnect, fs: Seq<(Seq<char>, AtomV)>) -> bool {
    &&& f_exchange(fs, "exchange"@) == Some(d.exchange)
    &&& f_instant(fs, "localTimestamp"@) == Some(d.local_timestamp)
}

/// Decodes a `disconnect` frame's members.
fn decode_disconnect(fs: &Vec<(String, Atom)>) -> (r: Option<Disconnect>)
    ensures
        r is Some <==> disconnect_ok(kvs_view(fs@)),
        r matches Some(d) ==> disconnect_matches(d, kvs_view(fs@)),
{
    let exchange = match get_exchange(fs, "exchange") {
        None => {
            return None;
        },
        Some(x) => x,
    };
    let local_timestamp = match get_instant(fs, "localTimestamp") {
        None => {
            return None;
        },
        Some(x) => x,
    };
    Some(Disconnect { exchange, local_timestamp })
}

/// Whether the text decodes into a message: it parses as one JSON object,
/// its `type` member names a known variant, and the variant's fields are
/// present, each exactly once and of the right shape.
pub open spec fn spec_msg_ok(s: Seq<char>) -> bool {
    match spec_flat(s) {
        None => false,
        Some(fs) => match f_str(fs, "type"@) {
            Some(t) => if t == "trade"@ {
                trade_ok(fs)
            } else if t == "book_change"@ {
                book_change_ok(fs)
            } else if t == "derivative_ticker"@ {
                ticker_ok(fs)
            } else if t == "book_snapshot"@ {
                snapshot_ok(fs)
            } else if t == "trade_bar"@ {
                bar_ok(fs)
            } else if t == "disconnect"@ {
                disconnect_ok(fs)
            } else {
                false
            },
            None => false,
        },
    }
}

/// How a decoded message relates to the text it was decoded from.
pub open spec fn spec_msg_matches(s: Seq<char>, m: Message) -> bool {
    match spec_flat(s) {
        None => false,
        Some(fs) => match f_str(fs, "type"@) {
            Some(t) => if t == "trade"@ {
                m matches Message::Trade(x) && trade_matches(x, fs)
            } else if t == "book_change"@ {
                m matches Message::BookChange(x) && book_change_matches(x, fs)
            } else if t == "derivative_ticker"@ {
                m matches Message::DerivativeTicker(x) && ticker_matches(x, fs)
            } else if t == "book_snapshot"@ {
                m matches Message::BookSnapshot(x) && snapshot_matches(x, fs)
            } else if t == "trade_bar"@ {
                m matches Message::TradeBar(x) && bar_matches(x, fs)
            } else if t == "disconnect"@ {
                m matches Message::Disconnect(x) && disconnect_matches(x, fs)
            } else {
                false
            },
            None => false,
        },
    }
}

/// Decodes one text frame into a message: succeeds exactly when the frame
/// is one JSON object whose `type` member names a known variant and whose
/// fields fit that variant, and then every field of the result is the
/// frame's.
pub fn decode_message(text: &str) -> (r: Option<Message>)
    ensures
        r is Some <==> spec_msg_ok(text@),
        r matches Some(m) ==> spec_msg_matches(text@, m),
{
    let v = chars_of(text);
    let fs = match parse_flat(v.as_slice()) {
        None => {
            return None;
        },
        Some(x) => x,
    };
    let tag = match get_str(&fs, "type") {
        None => {
            return None;
        },
        Some(x) => x,
    };
    if str_eq(tag.as_str(), "trade") {
        match decode_trade(&fs) {
            Some(t) => Some(Message::Trade(t)),
            None => None,
        }
    } else if str_eq(tag.as_str(), "book_change") {
        match decode_book_change(&fs) {
            Some(b) => Some(Message::BookChange(b)),
            None => None,
        }
    } else if str_eq(tag.as_str(), "derivative_ticker") {
        match decode_ticker(&fs) {
            Some(d) => Some(Message::DerivativeTicker(d)),
            None => None,
        }
    } else if str_eq(tag.as_str(), "book_snapshot") {
        match decode_snapshot(&fs) {
            Some(b) => Some(Message::BookSnapshot(b)),
            None => None,
        }
    } else if str_eq(tag.as_str(), "trade_bar") {
        match decode_bar(&fs) {
            Some(b) => Some(Message::TradeBar(b)),
            None => None,
        }
    } else if str_eq(tag.as_str(), "disconnect") {
        match decode_disconnect(&fs) {
            Some(d) => Some(Message::Disconnect(d)),
            None => None,
        }
    } else {
        None
    }
}

} // verus!

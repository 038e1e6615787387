//! Verified rendering of request options to compact JSON, and the
//! percent-encoding used to embed that JSON in a connection address.

use vstd::prelude::*;
use vstd::string::StringExecFns;
use vstd::string::StringSliceAdditionalSpecFns;
use crate::text::{chars_of, push_char};
use crate::machine::models::{ReplayNormalizedRequestOptions, StreamNormalizedRequestOptions};
use crate::machine::time::spec_rfc3339;

verus! {

/// The lowercase hexadecimal digit of `d`.
pub open spec fn hex_lower(d: int) -> char {
    if d == 0 {
        '0'
    } else if d == 1 {
        '1'
    } else if d == 2 {
        '2'
    } else if d == 3 {
        '3'
    } else if d == 4 {
        '4'
    } else if d == 5 {
        '5'
    } else if d == 6 {
        '6'
    } else if d == 7 {
        '7'
    } else if d == 8 {
        '8'
    } else if d == 9 {
        '9'
    } else if d == 10 {
        'a'
    } else if d == 11 {
        'b'
    } else if d == 12 {
        'c'
    } else if d == 13 {
        'd'
    } else if d == 14 {
        'e'
    } else {
        'f'
    }
}

/// The uppercase hexadecimal digit of `d`.
pub open spec fn hex_upper(d: int) -> char {
    if d == 10 {
        'A'
    } else if d == 11 {
        'B'
    } else if d == 12 {
        'C'
    } else if d == 13 {
        'D'
    } else if d == 14 {
        'E'
    } else if d == 15 {
        'F'
    } else {
        hex_lower(d)
    }
}

/// How one character is written inside a JSON string literal: quote,
/// backslash and the named control characters get a two-character escape,
/// other control characters a `\u00` escape, everything else stands as is.
pub open spec fn escape_char(c: char) -> Seq<char> {
    if c == '"' {
        "\\\""@
    } else if c == '\\' {
        "\\\\"@
    } else if c == '\u{8}' {
        "\\b"@
    } else if c == '\t' {
        "\\t"@
    } else if c == '\n' {
        "\\n"@
    } else if c == '\u{c}' {
        "\\f"@
    } else if c == '\r' {
        "\\r"@
    } else if (c as u32) < 32 {
        "\\u00"@ + seq![hex_lower((c as u32 / 16) as int), hex_lower((c as u32 % 16) as int)]
    } else {
        seq![c]
    }
}

/// The characters of `s` written inside a JSON string literal.
pub open spec fn escape_chars(s: Seq<char>) -> Seq<char>
    decreases s.len(),
{
    if s.len() == 0 {
        Seq::empty()
    } else {
        escape_chars(s.drop_last()) + escape_char(s.last())
    }
}

/// `s` as a JSON string literal, quotes included.
pub open spec fn json_string(s: Seq<char>) -> Seq<char> {
    "\""@ + escape_chars(s) + "\""@
}

/// The comma-separated JSON string literals of `items`.
pub open spec fn json_string_list(items: Seq<Seq<char>>) -> Seq<char>
    decreases items.len(),
{
    if items.len() == 0 {
        Seq::empty()
    } else if items.len() == 1 {
        json_string(items[0])
    } else {
        json_string_list(items.drop_last()) + ","@ + json_string(items.last())
    }
}

/// `items` as a JSON array of string literals.
pub open spec fn json_string_array(items: Seq<Seq<char>>) -> Seq<char> {
    "["@ + json_string_list(items) + "]"@
}

/// The lowercase hexadecimal digit of `d`.
pub fn hex_lower_of(d: u32) -> (c: char)
    requires
        d <= 15,
    ensures
        c == hex_lower(d as int),
{
    match d {
        0 => '0',
        1 => '1',
        2 => '2',
        3 => '3',
        4 => '4',
        5 => '5',
        6 => '6',
        7 => '7',
        8 => '8',
        9 => '9',
        10 => 'a',
        11 => 'b',
        12 => 'c',
        13 => 'd',
        14 => 'e',
        _ => 'f',
    }
}

/// Appends the characters of `s` in their JSON string-literal form.
pub fn append_escaped(out: &mut String, s: &str)
    ensures
        final(out)@ == old(out)@ + escape_chars(s@),
{
    let v = chars_of(s);
    let n = v.len();
    let mut i: usize = 0;
    while i < n
        invariant
            n == v@.len(),
            v@ == s@,
            i <= n,
            out@ == old(out)@ + escape_chars(v@.take(i as int)),
        decreases n - i,
    {
        let c = v[i];
        if c == '"' {
            out.append("\\\"");
        } else if c == '\\' {
            out.append("\\\\");
        } else if c == '\u{8}' {
            out.append("\\b");
        } else if c == '\t' {
            out.append("\\t");
        } else if c == '\n' {
            out.append("\\n");
        } else if c == '\u{c}' {
            out.append("\\f");
        } else if c == '\r' {
            out.append("\\r");
        } else if (c as u32) < 32 {
            out.append("\\u00");
            let h = hex_lower_of((c as u32) / 16);
            push_char(out, h);
            let l = hex_lower_of((c as u32) % 16);
            push_char(out, l);
        } else {
            push_char(out, c);
        }
        proof {
            assert(v@.take(i + 1).drop_last() =~= v@.take(i as int));
            assert(v@.take(i + 1).last() == v@[i as int]);
            assert(out@ =~= old(out)@ + escape_chars(v@.take(i + 1)));
        }
        i = i + 1;
    }
    proof {
        assert(v@.take(n as int) =~= s@);
    }
}

/// Appends `s` as a JSON string literal, quotes included.
pub fn append_json_string(out: &mut String, s: &str)
    ensures
        final(out)@ == old(out)@ + json_string(s@),
{
    out.append("\"");
    append_escaped(out, s);
    out.append("\"");
    proof {
        assert(out@ =~= old(out)@ + json_string(s@));
    }
}

/// Appends `items` as a JSON array of string literals.
pub fn append_string_array(out: &mut String, items: &Vec<String>)
    ensures
        final(out)@ == old(out)@ + json_string_array(items.deep_view()),
{
    out.append("[");
    let n = items.len();
    let mut i: usize = 0;
    while i < n
        invariant
            n == items@.len(),
            i <= n,
            items.deep_view().len() == n,
            forall|k: int| 0 <= k < n ==> items.deep_view()[k] == items@[k]@,
            out@ == old(out)@ + "["@ + json_string_list(items.deep_view().take(i as int)),
        decreases n - i,
    {
        if i > 0 {
            out.append(",");
        }
        append_json_string(out, items[i].as_str());
        proof {
            let dv = items.deep_view();
            assert(dv.take(i + 1).drop_last() =~= dv.take(i as int));
            assert(dv.take(i + 1).last() == dv[i as int]);
            assert(out@ =~= old(out)@ + "["@ + json_string_list(dv.take(i + 1)));
        }
        i = i + 1;
    }
    out.append("]");
    proof {
        assert(items.deep_view().take(n as int) =~= items.deep_view());
        assert(out@ =~= old(out)@ + json_string_array(items.deep_view()));
    }
}

/// The optional `symbols` member of an options object: empty when absent.
pub open spec fn sym_part(s: Option<Vec<String>>) -> Seq<char> {
    match s {
        Option::None => Seq::<char>::empty(),
        Option::Some(ss) => ",\"symbols\":"@ + json_string_array(ss.deep_view()),
    }
}

/// The optional `withDisconnectMessages` member: empty when absent.
pub open spec fn wdm_part(w: Option<bool>) -> Seq<char> {
    match w {
        Option::None => Seq::<char>::empty(),
        Option::Some(b) => if b {
            ",\"withDisconnectMessages\":true"@
        } else {
            ",\"withDisconnectMessages\":false"@
        },
    }
}

/// The optional `timeoutIntervalMS` member: empty when absent.
pub open spec fn tim_part(t: Option<u64>) -> Seq<char> {
    match t {
        Option::None => Seq::<char>::empty(),
        Option::Some(ms) => ",\"timeoutIntervalMS\":"@ + u64_digits(ms as int),
    }
}

/// The compact JSON object of one replay-options value, fields in wire
/// order, optional fields omitted when absent.
pub open spec fn spec_replay_obj(o: ReplayNormalizedRequestOptions) -> Seq<char> {
    "{\"exchange\":\""@ + o.exchange.wire_name() + "\""@ + sym_part(o.symbols)
        + ",\"from\":\""@ + spec_rfc3339(o.from) + "\",\"to\":\""@ + spec_rfc3339(o.to)
        + "\",\"dataTypes\":"@ + json_string_array(o.data_types.deep_view()) + wdm_part(
        o.with_disconnect_messages,
    ) + "}"@
}

/// The compact JSON object of one stream-options value, fields in wire
/// order, optional fields omitted when absent.
pub open spec fn spec_stream_obj(o: StreamNormalizedRequestOptions) -> Seq<char> {
    "{\"exchange\":\""@ + o.exchange.wire_name() + "\""@ + sym_part(o.symbols)
        + ",\"dataTypes\":"@ + json_string_array(o.data_types.deep_view()) + wdm_part(
        o.with_disconnect_messages,
    ) + tim_part(o.timeout_interval_ms) + "}"@
}

/// `n` in decimal, no padding, most significant digit first.
pub open spec fn u64_digits(n: int) -> Seq<char>
    decreases n,
{
    if n <= 0 {
        "0"@
    } else if n < 10 {
        seq![crate::machine::time::digit_char(n)]
    } else {
        u64_digits(n / 10) + seq![crate::machine::time::digit_char(n % 10)]
    }
}

/// Appends `n` in decimal.
pub fn append_u64(out: &mut String, n: u64)
    ensures
        final(out)@ == old(out)@ + u64_digits(n as int),
    decreases n,
{
    if n == 0 {
        out.append("0");
    } else if n < 10 {
        let c = crate::machine::time::digit_char_of(n as u32);
        push_char(out, c);
        proof {
            assert(out@ =~= old(out)@ + u64_digits(n as int));
        }
    } else {
        append_u64(out, n / 10);
        let c = crate::machine::time::digit_char_of((n % 10) as u32);
        push_char(out, c);
        proof {
            assert(out@ =~= old(out)@ + u64_digits(n as int));
        }
    }
}

/// Appends the JSON object of one replay-options value.
#[verifier::rlimit(100)]
pub fn append_replay_obj(out: &mut String, o: &ReplayNormalizedRequestOptions)
    ensures
        final(out)@ == old(out)@ + spec_replay_obj(*o),
{
    out.append("{\"exchange\":\"");
    let ex = o.exchange.to_string();
    out.append(ex.as_str());
    out.append("\"");
    proof {
        assert(out@ =~= old(out)@ + ("{\"exchange\":\""@ + o.exchange.wire_name() + "\""@));
    }
    match &o.symbols {
        Option::None => {},
        Option::Some(ss) => {
            out.append(",\"symbols\":");
            append_string_array(out, ss);
        },
    }
    proof {
        assert(out@ =~= old(out)@ + ("{\"exchange\":\""@ + o.exchange.wire_name() + "\""@
            + sym_part(o.symbols)));
    }
    let ghost head = "{\"exchange\":\""@ + o.exchange.wire_name() + "\""@ + sym_part(
        o.symbols,
    );
    out.append(",\"from\":\"");
    let f = o.from.to_rfc3339();
    out.append(f.as_str());
    out.append("\",\"to\":\"");
    let t = o.to.to_rfc3339();
    out.append(t.as_str());
    proof {
        assert(out@ =~= old(out)@ + (head + ",\"from\":\""@ + spec_rfc3339(o.from)
            + "\",\"to\":\""@ + spec_rfc3339(o.to)));
    }
    out.append("\",\"dataTypes\":");
    append_string_array(out, &o.data_types);
    proof {
        assert(out@ =~= old(out)@ + (head + ",\"from\":\""@ + spec_rfc3339(o.from)
            + "\",\"to\":\""@ + spec_rfc3339(o.to) + "\",\"dataTypes\":"@ + json_string_array(
            o.data_types.deep_view(),
        )));
    }
    match o.with_disconnect_messages {
        Option::None => {},
        Option::Some(b) => {
            if b {
                out.append(",\"withDisconnectMessages\":true");
            } else {
                out.append(",\"withDisconnectMessages\":false");
            }
        },
    }
    out.append("}");
    proof {
        assert(out@ =~= old(out)@ + spec_replay_obj(*o));
    }
}

/// Appends the JSON object of one stream-options value.
#[verifier::rlimit(100)]
pub fn append_stream_obj(out: &mut String, o: &StreamNormalizedRequestOptions)
    ensures
        final(out)@ == old(out)@ + spec_stream_obj(*o),
{
    out.append("{\"exchange\":\"");
    let ex = o.exchange.to_string();
    out.append(ex.as_str());
    out.append("\"");
    match &o.symbols {
        Option::None => {},
        Option::Some(ss) => {
            out.append(",\"symbols\":");
            append_string_array(out, ss);
        },
    }
    proof {
        assert(out@ =~= old(out)@ + ("{\"exchange\":\""@ + o.exchange.wire_name() + "\""@
            + sym_part(o.symbols)));
    }
    let ghost head = "{\"exchange\":\""@ + o.exchange.wire_name() + "\""@ + sym_part(
        o.symbols,
    );
    out.append(",\"dataTypes\":");
    append_string_array(out, &o.data_types);
    proof {
        assert(out@ =~= old(out)@ + (head + ",\"dataTypes\":"@ + json_string_array(
            o.data_types.deep_view(),
        )));
    }
    let ghost head2 = head + ",\"dataTypes\":"@ + json_string_array(o.data_types.deep_view());
    match o.with_disconnect_messages {
        Option::None => {},
        Option::Some(b) => {
            if b {
                out.append(",\"withDisconnectMessages\":true");
            } else {
                out.append(",\"withDisconnectMessages\":false");
            }
        },
    }
    proof {
        assert(out@ =~= old(out)@ + (head2 + wdm_part(o.with_disconnect_messages)));
    }
    match o.timeout_interval_ms {
        Option::None => {},
        Option::Some(ms) => {
            out.append(",\"timeoutIntervalMS\":");
            append_u64(out, ms);
        },
    }
    out.append("}");
    proof {
        assert(out@ =~= old(out)@ + spec_stream_obj(*o));
    }
}

/// The comma-separated JSON objects of a list of replay-options values.
pub open spec fn replay_list(s: Seq<ReplayNormalizedRequestOptions>) -> Seq<char>
    decreases s.len(),
{
    if s.len() == 0 {
        Seq::empty()
    } else if s.len() == 1 {
        spec_replay_obj(s[0])
    } else {
        replay_list(s.drop_last()) + ","@ + spec_replay_obj(s.last())
    }
}

/// A list of replay-options values as a compact JSON array.
pub open spec fn spec_replay_json(s: Seq<ReplayNormalizedRequestOptions>) -> Seq<char> {
    "["@ + replay_list(s) + "]"@
}

/// The comma-separated JSON objects of a list of stream-options values.
pub open spec fn stream_list(s: Seq<StreamNormalizedRequestOptions>) -> Seq<char>
    decreases s.len(),
{
    if s.len() == 0 {
        Seq::empty()
    } else if s.len() == 1 {
        spec_stream_obj(s[0])
    } else {
        stream_list(s.drop_last()) + ","@ + spec_stream_obj(s.last())
    }
}

/// A list of stream-options values as a compact JSON array.
pub open spec fn spec_stream_json(s: Seq<StreamNormalizedRequestOptions>) -> Seq<char> {
    "["@ + stream_list(s) + "]"@
}

/// Renders a list of replay-options values as compact JSON.
pub fn replay_options_json(opts: &Vec<ReplayNormalizedRequestOptions>) -> (r: String)
    ensures
        r@ == spec_replay_json(opts@),
{
    let mut out = String::new();
    out.append("[");
    let n = opts.len();
    let mut i: usize = 0;
    while i < n
        invariant
            n == opts@.len(),
            i <= n,
            out@ == "["@ + replay_list(opts@.take(i as int)),
        decreases n - i,
    {
        if i > 0 {
            out.append(",");
        }
        append_replay_obj(&mut out, &opts[i]);
        proof {
            assert(opts@.take(i + 1).drop_last() =~= opts@.take(i as int));
            assert(opts@.take(i + 1).last() == opts@[i as int]);
            assert(out@ =~= "["@ + replay_list(opts@.take(i + 1)));
        }
        i = i + 1;
    }
    out.append("]");
    proof {
        assert(opts@.take(n as int) =~= opts@);
        assert(out@ =~= spec_replay_json(opts@));
    }
    out
}

/// Renders a list of stream-options values as compact JSON.
pub fn stream_options_json(opts: &Vec<StreamNormalizedRequestOptions>) -> (r: String)
    ensures
        r@ == spec_stream_json(opts@),
{
    let mut out = String::new();
    out.append("[");
    let n = opts.len();
    let mut i: usize = 0;
    while i < n
        invariant
            n == opts@.len(),
            i <= n,
            out@ == "["@ + stream_list(opts@.take(i as int)),
        decreases n - i,
    {
        if i > 0 {
            out.append(",");
        }
        append_stream_obj(&mut out, &opts[i]);
        proof {
            assert(opts@.take(i + 1).drop_last() =~= opts@.take(i as int));
            assert(opts@.take(i + 1).last() == opts@[i as int]);
            assert(out@ =~= "["@ + stream_list(opts@.take(i + 1)));
        }
        i = i + 1;
    }
    out.append("]");
    proof {
        assert(opts@.take(n as int) =~= opts@);
        assert(out@ =~= spec_stream_json(opts@));
    }
    out
}

/// Whether percent-encoding leaves byte `b` as it stands: ASCII letters and
/// digits and the four unreserved marks.
pub open spec fn is_unreserved(b: u8) -> bool {
    (48 <= b <= 57) || (65 <= b <= 90) || (97 <= b <= 122) || b == 45 || b == 46 || b == 95
        || b == 126
}

/// How percent-encoding writes one byte: unreserved bytes stand as is, every
/// other byte becomes a percent sign and two uppercase hex digits.
pub open spec fn pe_byte(b: u8) -> Seq<char> {
    if is_unreserved(b) {
        seq![b as char]
    } else {
        seq!['%', hex_upper(b as int / 16), hex_upper(b as int % 16)]
    }
}

/// The percent-encoding of the byte sequence `bs`.
pub open spec fn percent_encode(bs: Seq<u8>) -> Seq<char>
    decreases bs.len(),
{
    if bs.len() == 0 {
        Seq::empty()
    } else {
        percent_encode(bs.drop_last()) + pe_byte(bs.last())
    }
}

/// Relies on `urlencoding::encode`: percent-encodes every byte of the
/// argument's UTF-8 form except ASCII alphanumerics and `-`, `.`, `_`, `~`,
/// writing two uppercase hex digits after each percent sign.
#[verifier::external_body]
pub fn percent_encode_str(s: &str) -> (r: String)
    ensures
        r@ == percent_encode(s.spec_bytes()),
{
    urlencoding::encode(s).into_owned()
}

} // verus!

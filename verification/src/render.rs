//! Exact construction of request bodies and query strings: JSON string
//! escaping, decimal rendering of identifiers, and the one-object bodies
//! the dispatcher sends.

use vstd::prelude::*;

verus! {

/// The hexadecimal digit characters, also used for decimal rendering.
pub open spec fn hex_digit(d: int) -> char {
    if d == 0 {
        '0'
    } else if d == 1 {
        '1'
    } else if d == 2 {
        '2'
    } else if d == 3 {
        '3'
    } else if d == 4 {
        '4'
    } else if d == 5 {
        '5'
    } else if d == 6 {
        '6'
    } else if d == 7 {
        '7'
    } else if d == 8 {
        '8'
    } else if d == 9 {
        '9'
    } else if d == 10 {
        'a'
    } else if d == 11 {
        'b'
    } else if d == 12 {
        'c'
    } else if d == 13 {
        'd'
    } else if d == 14 {
        'e'
    } else {
        'f'
    }
}

/// How one character appears inside a JSON string literal: quotes and
/// backslashes are escaped, the common control characters get their short
/// escapes, other control characters get a `\u00XX` escape, and everything
/// else stands for itself.
pub open spec fn escape_char(c: char) -> Seq<char> {
    if c == '"' {
        seq!['\\', '"']
    } else if c == '\\' {
        seq!['\\', '\\']
    } else if c == '\n' {
        seq!['\\', 'n']
    } else if c == '\r' {
        seq!['\\', 'r']
    } else if c == '\t' {
        seq!['\\', 't']
    } else if (c as u32) < 32 {
        seq!['\\', 'u', '0', '0', hex_digit((c as u32) as int / 16), hex_digit((c as u32) as int % 16)]
    } else {
        seq![c]
    }
}

/// A whole character sequence escaped for a JSON string literal.
pub open spec fn escape_str(s: Seq<char>) -> Seq<char>
    decreases s.len(),
{
    if s.len() == 0 {
        Seq::empty()
    } else {
        escape_str(s.drop_last()) + escape_char(s.last())
    }
}

/// A JSON string literal: the escaped characters between double quotes.
pub open spec fn quoted(s: Seq<char>) -> Seq<char> {
    seq!['"'] + escape_str(s) + seq!['"']
}

/// The decimal digits of a non-negative integer, most significant first.
pub open spec fn dec_str_nat(n: int) -> Seq<char>
    recommends
        n >= 0,
    decreases n,
{
    if n < 10 {
        seq![hex_digit(n)]
    } else {
        dec_str_nat(n / 10) + seq![hex_digit(n % 10)]
    }
}

/// The decimal rendering of an integer, with a leading minus sign when it
/// is negative.
pub open spec fn dec_str_int(n: int) -> Seq<char> {
    if n < 0 {
        seq!['-'] + dec_str_nat(-n)
    } else {
        dec_str_nat(n)
    }
}

/// The JSON boolean literals.
pub open spec fn bool_lit(b: bool) -> Seq<char> {
    if b {
        "true"@
    } else {
        "false"@
    }
}

/// One parameter value of an outbound call, as it is placed into the JSON
/// request body.
pub enum ParamValue {
    /// A signed integer, rendered as a bare decimal number.
    I64(i64),
    /// An unsigned integer, rendered as a bare decimal number.
    U64(u64),
    /// A boolean, rendered as `true` or `false`.
    Bool(bool),
    /// A string, rendered as a JSON string literal.
    Str(String),
    /// A list of strings, rendered as a JSON array of string literals.
    StrList(Vec<String>),
    /// A flat object of named flags, rendered as a JSON object whose
    /// members are boolean literals.
    BoolPairs(Vec<(String, bool)>),
}

/// The mathematical content of a [`ParamValue`].
pub enum ParamSpec {
    Int(int),
    Bool(bool),
    Str(Seq<char>),
    StrList(Seq<Seq<char>>),
    BoolPairs(Seq<(Seq<char>, bool)>),
}

impl View for ParamValue {
    type V = ParamSpec;

    open spec fn view(&self) -> ParamSpec {
        match self {
            ParamValue::I64(n) => ParamSpec::Int(*n as int),
            ParamValue::U64(n) => ParamSpec::Int(*n as int),
            ParamValue::Bool(b) => ParamSpec::Bool(*b),
            ParamValue::Str(s) => ParamSpec::Str(s@),
            ParamValue::StrList(xs) => ParamSpec::StrList(
                xs@.map_values(|s: String| s@),
            ),
            ParamValue::BoolPairs(ps) => ParamSpec::BoolPairs(
                ps@.map_values(|kv: (String, bool)| (kv.0@, kv.1)),
            ),
        }
    }
}

/// A comma-separated list of JSON string literals.
pub open spec fn join_quoted(xs: Seq<Seq<char>>) -> Seq<char>
    decreases xs.len(),
{
    if xs.len() == 0 {
        Seq::empty()
    } else if xs.len() == 1 {
        quoted(xs[0])
    } else {
        join_quoted(xs.drop_last()) + seq![','] + quoted(xs.last())
    }
}

/// One `"name":bool` member of a flag object.
pub open spec fn bool_member(kv: (Seq<char>, bool)) -> Seq<char> {
    quoted(kv.0) + seq![':'] + bool_lit(kv.1)
}

/// A comma-separated list of flag members.
pub open spec fn join_bool_members(ps: Seq<(Seq<char>, bool)>) -> Seq<char>
    decreases ps.len(),
{
    if ps.len() == 0 {
        Seq::empty()
    } else if ps.len() == 1 {
        bool_member(ps[0])
    } else {
        join_bool_members(ps.drop_last()) + seq![','] + bool_member(ps.last())
    }
}

/// How one parameter value is rendered into the request body.
pub open spec fn render_param(p: ParamSpec) -> Seq<char> {
    match p {
        ParamSpec::Int(n) => dec_str_int(n),
        ParamSpec::Bool(b) => bool_lit(b),
        ParamSpec::Str(s) => quoted(s),
        ParamSpec::StrList(xs) => seq!['['] + join_quoted(xs) + seq![']'],
        ParamSpec::BoolPairs(ps) => seq!['{'] + join_bool_members(ps) + seq!['}'],
    }
}

/// One `"key":value` member of the request body.
pub open spec fn render_pair(kv: (Seq<char>, ParamSpec)) -> Seq<char> {
    quoted(kv.0) + seq![':'] + render_param(kv.1)
}

/// The comma-separated members of the request body, in the given order.
pub open spec fn render_pairs(ps: Seq<(Seq<char>, ParamSpec)>) -> Seq<char>
    decreases ps.len(),
{
    if ps.len() == 0 {
        Seq::empty()
    } else if ps.len() == 1 {
        render_pair(ps[0])
    } else {
        render_pairs(ps.drop_last()) + seq![','] + render_pair(ps.last())
    }
}

/// The mathematical content of a parameter list.
pub open spec fn params_view(ps: Seq<(String, ParamValue)>) -> Seq<(Seq<char>, ParamSpec)> {
    ps.map_values(|kv: (String, ParamValue)| (kv.0@, kv.1@))
}

/// The whole request body: one JSON object holding the given parameters in
/// the given order.
pub open spec fn render_body_spec(ps: Seq<(Seq<char>, ParamSpec)>) -> Seq<char> {
    seq!['{'] + render_pairs(ps) + seq!['}']
}

/// The mathematical content of a query-pair list.
pub open spec fn query_view(ps: Seq<(String, String)>) -> Seq<(Seq<char>, Seq<char>)> {
    ps.map_values(|kv: (String, String)| (kv.0@, kv.1@))
}

/// The URL query string carrying the non-file parameters of a multipart
/// call: each key and value is individually JSON-encoded, the first pair is
/// prefixed by `?`, and every further pair is joined by `&`. Empty when
/// there are no pairs.
pub open spec fn render_query_spec(ps: Seq<(Seq<char>, Seq<char>)>) -> Seq<char>
    decreases ps.len(),
{
    if ps.len() == 0 {
        Seq::empty()
    } else {
        let lead = if ps.len() == 1 {
            seq!['?']
        } else {
            render_query_spec(ps.drop_last()) + seq!['&']
        };
        lead + quoted(ps.last().0) + seq!['='] + quoted(ps.last().1)
    }
}

/// Relies on std's `String: FromIterator<char>`: collecting characters
/// yields the string of exactly those characters in order.
#[verifier::external_body]
pub(crate) fn chars_to_string(v: &Vec<char>) -> (r: String)
    ensures
        r@ == v@,
{
    v.iter().collect()
}

/// Appends every character of `s` to `out`.
pub(crate) fn push_str_chars(out: &mut Vec<char>, s: &str)
    ensures
        final(out)@ == old(out)@ + s@,
{
    let len = s.unicode_len();
    let mut i: usize = 0;
    while i < len
        invariant
            i <= len,
            len == s@.len(),
            out@ == old(out)@ + s@.take(i as int),
        decreases len - i,
    {
        let c = s.get_char(i);
        out.push(c);
        proof {
            assert(out@ =~= old(out)@ + s@.take(i as int + 1));
        }
        i += 1;
    }
    proof {
        assert(s@.take(len as int) =~= s@);
    }
}

/// The character of one digit value.
pub(crate) fn digit_char(d: u64) -> (c: char)
    requires
        d < 16,
    ensures
        c == hex_digit(d as int),
{
    if d == 0 {
        '0'
    } else if d == 1 {
        '1'
    } else if d == 2 {
        '2'
    } else if d == 3 {
        '3'
    } else if d == 4 {
        '4'
    } else if d == 5 {
        '5'
    } else if d == 6 {
        '6'
    } else if d == 7 {
        '7'
    } else if d == 8 {
        '8'
    } else if d == 9 {
        '9'
    } else if d == 10 {
        'a'
    } else if d == 11 {
        'b'
    } else if d == 12 {
        'c'
    } else if d == 13 {
        'd'
    } else if d == 14 {
        'e'
    } else {
        'f'
    }
}

/// Appends the decimal digits of `n` to `out`.
pub(crate) fn push_u64_dec(out: &mut Vec<char>, n: u64)
    ensures
        final(out)@ == old(out)@ + dec_str_nat(n as int),
    decreases n,
{
    if n < 10 {
        let c = digit_char(n);
        out.push(c);
        proof {
            assert(out@ =~= old(out)@ + dec_str_nat(n as int));
        }
    } else {
        push_u64_dec(out, n / 10);
        let c = digit_char(n % 10);
        out.push(c);
        proof {
            assert(out@ =~= old(out)@ + dec_str_nat(n as int));
        }
    }
}

/// Appends the decimal rendering of `n`, sign included, to `out`.
pub(crate) fn push_i64_dec(out: &mut Vec<char>, n: i64)
    ensures
        final(out)@ == old(out)@ + dec_str_int(n as int),
{
    if n < 0 {
        out.push('-');
        let m: u64 = if n == i64::MIN {
            9223372036854775808u64
        } else {
            (-n) as u64
        };
        proof {
            assert(m as int == -(n as int));
        }
        push_u64_dec(out, m);
        proof {
            assert(out@ =~= old(out)@ + dec_str_int(n as int));
        }
    } else {
        push_u64_dec(out, n as u64);
    }
}

/// Appends the escape of one character to `out`.
pub(crate) fn push_escaped_char(out: &mut Vec<char>, c: char)
    ensures
        final(out)@ == old(out)@ + escape_char(c),
{
    if c == '"' {
        out.push('\\');
        out.push('"');
        proof {
            assert(out@ =~= old(out)@ + escape_char(c));
        }
    } else if c == '\\' {
        out.push('\\');
        out.push('\\');
        proof {
            assert(out@ =~= old(out)@ + escape_char(c));
        }
    } else if c == '\n' {
        out.push('\\');
        out.push('n');
        proof {
            assert(out@ =~= old(out)@ + escape_char(c));
        }
    } else if c == '\r' {
        out.push('\\');
        out.push('r');
        proof {
            assert(out@ =~= old(out)@ + escape_char(c));
        }
    } else if c == '\t' {
        out.push('\\');
        out.push('t');
        proof {
            assert(out@ =~= old(out)@ + escape_char(c));
        }
    } else {
        let x = c as u32;
        if x < 32 {
            out.push('\\');
            out.push('u');
            out.push('0');
            out.push('0');
            let hi = digit_char((x / 16) as u64);
            out.push(hi);
            let lo = digit_char((x % 16) as u64);
            out.push(lo);
            proof {
                assert(out@ =~= old(out)@ + escape_char(c));
            }
        } else {
            out.push(c);
            proof {
                assert(out@ =~= old(out)@ + escape_char(c));
            }
        }
    }
}

/// Appends the JSON-escaped characters of `s` to `out`.
pub(crate) fn push_escaped(out: &mut Vec<char>, s: &str)
    ensures
        final(out)@ == old(out)@ + escape_str(s@),
{
    let len = s.unicode_len();
    let mut i: usize = 0;
    while i < len
        invariant
            i <= len,
            len == s@.len(),
            out@ == old(out)@ + escape_str(s@.take(i as int)),
        decreases len - i,
    {
        let c = s.get_char(i);
        push_escaped_char(out, c);
        proof {
            assert(s@.take(i as int + 1).drop_last() =~= s@.take(i as int));
            assert(s@.take(i as int + 1).last() == s@[i as int]);
            assert(out@ =~= old(out)@ + escape_str(s@.take(i as int + 1)));
        }
        i += 1;
    }
    proof {
        assert(s@.take(len as int) =~= s@);
    }
}

/// Appends the JSON string literal of `s` to `out`.
pub(crate) fn push_quoted(out: &mut Vec<char>, s: &str)
    ensures
        final(out)@ == old(out)@ + quoted(s@),
{
    out.push('"');
    push_escaped(out, s);
    out.push('"');
    proof {
        assert(out@ =~= old(out)@ + quoted(s@));
    }
}

/// Appends the rendering of one parameter value to `out`.
pub(crate) fn push_param(out: &mut Vec<char>, p: &ParamValue)
    ensures
        final(out)@ == old(out)@ + render_param(p@),
{
    match p {
        ParamValue::I64(n) => {
            push_i64_dec(out, *n);
        },
        ParamValue::U64(n) => {
            push_u64_dec(out, *n);
        },
        ParamValue::Bool(b) => {
            if *b {
                push_str_chars(out, "true");
            } else {
                push_str_chars(out, "false");
            }
        },
        ParamValue::Str(s) => {
            push_quoted(out, s.as_str());
        },
        ParamValue::StrList(xs) => {
            let ghost vs = xs@.map_values(|s: String| s@);
            out.push('[');
            let mut i: usize = 0;
            while i < xs.len()
                invariant
                    i <= xs.len(),
                    vs == xs@.map_values(|s: String| s@),
                    vs.len() == xs@.len(),
                    out@ == old(out)@ + seq!['['] + join_quoted(vs.take(i as int)),
                decreases xs.len() - i,
            {
                if i > 0 {
                    out.push(',');
                }
                push_quoted(out, xs[i].as_str());
                proof {
                    assert(vs.take(i as int + 1).drop_last() =~= vs.take(i as int));
                    assert(vs.take(i as int + 1).last() == vs[i as int]);
                    assert(vs[i as int] == xs@[i as int]@);
                    assert(out@ =~= old(out)@ + seq!['['] + join_quoted(vs.take(i as int + 1)));
                }
                i += 1;
            }
            out.push(']');
            proof {
                assert(vs.take(xs@.len() as int) =~= vs);
                assert(out@ =~= old(out)@ + render_param(p@));
            }
        },
        ParamValue::BoolPairs(ps) => {
            let ghost vs = ps@.map_values(|kv: (String, bool)| (kv.0@, kv.1));
            out.push('{');
            let mut i: usize = 0;
            while i < ps.len()
                invariant
                    i <= ps.len(),
                    vs == ps@.map_values(|kv: (String, bool)| (kv.0@, kv.1)),
                    vs.len() == ps@.len(),
                    out@ == old(out)@ + seq!['{'] + join_bool_members(vs.take(i as int)),
                decreases ps.len() - i,
            {
                if i > 0 {
                    out.push(',');
                }
                push_quoted(out, ps[i].0.as_str());
                out.push(':');
                if ps[i].1 {
                    push_str_chars(out, "true");
                } else {
                    push_str_chars(out, "false");
                }
                proof {
                    assert(vs.take(i as int + 1).drop_last() =~= vs.take(i as int));
                    assert(vs.take(i as int + 1).last() == vs[i as int]);
                    assert(vs[i as int] == (ps@[i as int].0@, ps@[i as int].1));
                    assert(out@ =~= old(out)@ + seq!['{'] + join_bool_members(
                        vs.take(i as int + 1),
                    ));
                }
                i += 1;
            }
            out.push('}');
            proof {
                assert(vs.take(ps@.len() as int) =~= vs);
                assert(out@ =~= old(out)@ + render_param(p@));
            }
        },
    }
}

/// Builds the JSON request body holding the given parameters, in order.
pub fn render_body(params: &Vec<(String, ParamValue)>) -> (r: Vec<char>)
    ensures
        r@ == render_body_spec(params_view(params@)),
{
    let ghost pv = params_view(params@);
    let mut out: Vec<char> = Vec::new();
    out.push('{');
    let mut i: usize = 0;
    while i < params.len()
        invariant
            i <= params.len(),
            pv == params_view(params@),
            pv.len() == params@.len(),
            out@ == seq!['{'] + render_pairs(pv.take(i as int)),
        decreases params.len() - i,
    {
        if i > 0 {
            out.push(',');
        }
        push_quoted(&mut out, params[i].0.as_str());
        out.push(':');
        push_param(&mut out, &params[i].1);
        proof {
            assert(pv.take(i as int + 1).drop_last() =~= pv.take(i as int));
            assert(pv.take(i as int + 1).last() == pv[i as int]);
            assert(pv[i as int] == (params@[i as int].0@, params@[i as int].1@));
            assert(out@ =~= seq!['{'] + render_pairs(pv.take(i as int + 1)));
        }
        i += 1;
    }
    out.push('}');
    proof {
        assert(pv.take(params@.len() as int) =~= pv);
        assert(out@ =~= render_body_spec(pv));
    }
    out
}

/// Builds the JSON request body as an owned string.
pub fn render_body_string(params: &Vec<(String, ParamValue)>) -> (r: String)
    ensures
        r@ == render_body_spec(params_view(params@)),
{
    let v = render_body(params);
    chars_to_string(&v)
}

/// Builds the URL query string of a multipart call: JSON-encoded keys and
/// values, the first pair after `?`, the rest joined by `&`.
pub fn render_query(pairs: &Vec<(String, String)>) -> (r: Vec<char>)
    ensures
        r@ == render_query_spec(query_view(pairs@)),
{
    let ghost qv = query_view(pairs@);
    let mut out: Vec<char> = Vec::new();
    let mut i: usize = 0;
    while i < pairs.len()
        invariant
            i <= pairs.len(),
            qv == query_view(pairs@),
            qv.len() == pairs@.len(),
            out@ == render_query_spec(qv.take(i as int)),
        decreases pairs.len() - i,
    {
        if i == 0 {
            out.push('?');
        } else {
            out.push('&');
        }
        push_quoted(&mut out, pairs[i].0.as_str());
        out.push('=');
        push_quoted(&mut out, pairs[i].1.as_str());
        proof {
            assert(qv.take(i as int + 1).drop_last() =~= qv.take(i as int));
            assert(qv.take(i as int + 1).last() == qv[i as int]);
            assert(qv[i as int] == (pairs@[i as int].0@, pairs@[i as int].1@));
            assert(out@ =~= render_query_spec(qv.take(i as int + 1)));
        }
        i += 1;
    }
    proof {
        assert(qv.take(pairs@.len() as int) =~= qv);
    }
    out
}

} // verus!

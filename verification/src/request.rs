//! Serialization of a query into the JSON request body the service expects:
//! `{"api_name":..., "token":..., "params":{...}}`.

use crate::params::ParamMap;
use vstd::prelude::*;

verus! {

/// How one character is written inside a JSON string literal: the quote, the
/// backslash and the common control characters are escaped, every other
/// character stands as itself.
pub open spec fn esc_char(c: char) -> Seq<char> {
    if c == '"' {
        seq!['\\', '"']
    } else if c == '\\' {
        seq!['\\', '\\']
    } else if c == '\n' {
        seq!['\\', 'n']
    } else if c == '\r' {
        seq!['\\', 'r']
    } else if c == '\t' {
        seq!['\\', 't']
    } else {
        seq![c]
    }
}

/// How a whole string is written inside a JSON string literal.
pub open spec fn esc(s: Seq<char>) -> Seq<char>
    decreases s.len(),
{
    if s.len() == 0 {
        Seq::empty()
    } else {
        esc_char(s[0]) + esc(s.drop_first())
    }
}

/// One `"key":"value"` member of the params object.
pub open spec fn entry_text(p: (Seq<char>, Seq<char>)) -> Seq<char> {
    "\""@ + esc(p.0) + "\":\""@ + esc(p.1) + "\""@
}

/// The first `i` parameter entries, comma-separated.
pub open spec fn params_prefix(ps: Seq<(Seq<char>, Seq<char>)>, i: int) -> Seq<char>
    decreases i,
{
    if i <= 0 {
        Seq::empty()
    } else if i == 1 {
        entry_text(ps[0])
    } else {
        params_prefix(ps, i - 1) + ","@ + entry_text(ps[i - 1])
    }
}

/// The whole request body for an endpoint name, a token and a parameter
/// mapping.
pub open spec fn spec_request_body(
    api: Seq<char>,
    token: Seq<char>,
    ps: Seq<(Seq<char>, Seq<char>)>,
) -> Seq<char> {
    "{\"api_name\":\""@ + esc(api) + "\",\"token\":\""@ + esc(token) + "\",\"params\":{"@
        + params_prefix(ps, ps.len() as int) + "}}"@
}

/// Relies on `str::chars` gathered into a vector: the characters of the
/// string, in order.
#[verifier::external_body]
pub(crate) fn str_chars(s: &str) -> (r: Vec<char>)
    ensures
        r@ == s@,
{
    s.chars().collect()
}

/// Relies on `String`'s `FromIterator`: the string whose characters are
/// exactly the vector's.
#[verifier::external_body]
pub(crate) fn string_from_chars(cs: &Vec<char>) -> (r: String)
    ensures
        r@ == cs@,
{
    cs.iter().copied().collect()
}

/// Escaping distributes over appending one character at the end.
proof fn lemma_esc_snoc(s: Seq<char>, c: char)
    ensures
        esc(s.push(c)) == esc(s) + esc_char(c),
    decreases s.len(),
{
    if s.len() == 0 {
        let t = s.push(c);
        assert(t[0] == c);
        assert(t.drop_first() =~= Seq::<char>::empty());
        assert(esc(t) == esc_char(t[0]) + esc(t.drop_first()));
        assert(esc(t) =~= esc_char(c));
        assert(esc(s) + esc_char(c) =~= esc_char(c));
    } else {
        assert(s.push(c).drop_first() =~= s.drop_first().push(c));
        lemma_esc_snoc(s.drop_first(), c);
        assert(esc(s.push(c)) =~= esc(s) + esc_char(c));
    }
}

/// Appends the characters of `s` unchanged.
fn push_lit(out: &mut Vec<char>, s: &str)
    ensures
        final(out)@ == old(out)@ + s@,
{
    let mut v = str_chars(s);
    out.append(&mut v);
}

/// Appends the characters of `cs` with JSON string escaping.
fn push_escaped(out: &mut Vec<char>, cs: &Vec<char>)
    ensures
        final(out)@ == old(out)@ + esc(cs@),
{
    let n = cs.len();
    let mut i: usize = 0;
    while i < n
        invariant
            n == cs.len(),
            i <= n,
            out@ == old(out)@ + esc(cs@.take(i as int)),
        decreases n - i,
    {
        let c = cs[i];
        if c == '"' {
            out.push('\\');
            out.push('"');
        } else if c == '\\' {
            out.push('\\');
            out.push('\\');
        } else if c == '\n' {
            out.push('\\');
            out.push('n');
        } else if c == '\r' {
            out.push('\\');
            out.push('r');
        } else if c == '\t' {
            out.push('\\');
            out.push('t');
        } else {
            out.push(c);
        }
        proof {
            assert(cs@.take(i + 1) =~= cs@.take(i as int).push(cs@[i as int]));
            lemma_esc_snoc(cs@.take(i as int), cs@[i as int]);
            assert(out@ =~= old(out)@ + esc(cs@.take(i + 1)));
        }
        i += 1;
    }
    proof {
        assert(cs@.take(n as int) =~= cs@);
    }
}

/// Appends one `"key":"value"` member.
fn push_entry(out: &mut Vec<char>, key: &String, value: &String)
    ensures
        final(out)@ == old(out)@ + entry_text((key@, value@)),
{
    push_lit(out, "\"");
    let kc = str_chars(key.as_str());
    push_escaped(out, &kc);
    push_lit(out, "\":\"");
    let vc = str_chars(value.as_str());
    push_escaped(out, &vc);
    push_lit(out, "\"");
    proof {
        assert(out@ =~= old(out)@ + entry_text((key@, value@)));
    }
}

/// Builds the request body text for an endpoint name, a token and a
/// parameter mapping.
pub fn body_string(api_name: &str, token: &str, params: &ParamMap) -> (r: String)
    ensures
        r@ == spec_request_body(api_name@, token@, params.pairs()),
{
    let ghost ps = params.pairs();
    let mut out: Vec<char> = Vec::new();
    push_lit(&mut out, "{\"api_name\":\"");
    let ac = str_chars(api_name);
    push_escaped(&mut out, &ac);
    push_lit(&mut out, "\",\"token\":\"");
    let tc = str_chars(token);
    push_escaped(&mut out, &tc);
    push_lit(&mut out, "\",\"params\":{");
    let ghost head = "{\"api_name\":\""@ + esc(api_name@) + "\",\"token\":\""@ + esc(token@)
        + "\",\"params\":{"@;
    proof {
        assert(out@ =~= head);
    }
    let n = params.len();
    let mut i: usize = 0;
    while i < n
        invariant
            n == ps.len(),
            i <= n,
            ps == params.pairs(),
            head == "{\"api_name\":\""@ + esc(api_name@) + "\",\"token\":\""@ + esc(token@)
                + "\",\"params\":{"@,
            out@ == head + params_prefix(ps, i as int),
        decreases n - i,
    {
        if i > 0 {
            push_lit(&mut out, ",");
        }
        let entry = params.entry_at(i);
        push_entry(&mut out, &entry.0, &entry.1);
        proof {
            assert(out@ =~= head + params_prefix(ps, i + 1));
        }
        i += 1;
    }
    push_lit(&mut out, "}}");
    proof {
        assert(out@ =~= spec_request_body(api_name@, token@, ps));
    }
    string_from_chars(&out)
}

} // verus!

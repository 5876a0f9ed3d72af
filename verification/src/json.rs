//! The JSON shape this service speaks: the `{name, email}` object a client
//! sends, and the record object and record array the service sends back.
//! Strings carry the escapes `\"`, `\\`, `\/`, `\n`, `\t`, `\r`; raw control
//! characters are rejected on input.

use vstd::prelude::*;
use crate::text::{
    chars_vec, dec_digits, eq_str, render_u64, skip_ws, skip_ws_vec, string_of,
};
use crate::record::{Record, UserV, model_of, rec_persisted};

verus! {

pub open spec fn is_escape(c: char) -> bool {
    c == '"' || c == '\\' || c == '/' || c == 'n' || c == 't' || c == 'r'
}

pub open spec fn unescape(c: char) -> char {
    if c == 'n' {
        '\n'
    } else if c == 't' {
        '\t'
    } else if c == 'r' {
        '\r'
    } else {
        c
    }
}

/// Scans a string literal's characters from `i` up to its closing quote.
/// Yields the accumulated text and the index after the quote; fails on a
/// raw control character, an unknown escape, or a missing closing quote.
pub open spec fn str_body(s: Seq<char>, i: int, acc: Seq<char>) -> Option<(Seq<char>, int)>
    decreases s.len() - i,
{
    if !(0 <= i < s.len()) {
        None
    } else if s[i] == '"' {
        Some((acc, i + 1))
    } else if s[i] == '\\' {
        if i + 1 < s.len() && is_escape(s[i + 1]) {
            str_body(s, i + 2, acc.push(unescape(s[i + 1])))
        } else {
            None
        }
    } else if (s[i] as u32) < 32 {
        None
    } else {
        str_body(s, i + 1, acc.push(s[i]))
    }
}

/// A string literal starting at `i`: an opening quote, then [`str_body`].
pub open spec fn parse_string(s: Seq<char>, i: int) -> Option<(Seq<char>, int)> {
    if 0 <= i < s.len() && s[i] == '"' {
        str_body(s, i + 1, Seq::empty())
    } else {
        None
    }
}

/// One `"key": "value"` member starting at `i`, whitespace allowed around
/// each piece. Yields key, value, and the index after the value.
pub open spec fn parse_member(s: Seq<char>, i: int) -> Option<(Seq<char>, Seq<char>, int)> {
    let k = skip_ws(s, i);
    match parse_string(s, k) {
        None => None,
        Some((key, j)) => {
            let c = skip_ws(s, j);
            if 0 <= c < s.len() && s[c] == ':' {
                match parse_string(s, skip_ws(s, c + 1)) {
                    None => None,
                    Some((val, jj)) => Some((key, val, jj)),
                }
            } else {
                None
            }
        },
    }
}

/// What a creation or update body must be: a JSON object holding exactly
/// the members `name` and `email`, in either order, both strings. The
/// result is the pair (name, email); anything else is rejected.
pub open spec fn spec_parse_user(s: Seq<char>) -> Option<(Seq<char>, Seq<char>)> {
    let i0 = skip_ws(s, 0);
    if !(0 <= i0 < s.len() && s[i0] == '{') {
        None
    } else {
        match parse_member(s, i0 + 1) {
            None => None,
            Some((k1, v1, j1)) => {
                let c1 = skip_ws(s, j1);
                if !(0 <= c1 < s.len() && s[c1] == ',') {
                    None
                } else {
                    match parse_member(s, c1 + 1) {
                        None => None,
                        Some((k2, v2, j2)) => {
                            let c2 = skip_ws(s, j2);
                            if !(0 <= c2 < s.len() && s[c2] == '}') {
                                None
                            } else if skip_ws(s, c2 + 1) != s.len() {
                                None
                            } else if k1 == "name"@ && k2 == "email"@ {
                                Some((v1, v2))
                            } else if k1 == "email"@ && k2 == "name"@ {
                                Some((v2, v1))
                            } else {
                                None
                            }
                        },
                    }
                }
            },
        }
    }
}

/// Executable mirror of [`str_body`].
fn str_body_vec(v: &Vec<char>, i: usize, acc: Vec<char>) -> (r: Option<(Vec<char>, usize)>)
    ensures
        r matches Some(t) ==> str_body(v@, i as int, acc@) == Some((t.0@, t.1 as int)) && t.1
            <= v@.len(),
        r is None ==> str_body(v@, i as int, acc@) is None,
    decreases v@.len() - i,
{
    if i >= v.len() {
        None
    } else if v[i] == '"' {
        Some((acc, i + 1))
    } else if v[i] == '\\' {
        if i + 1 < v.len() && is_escape_char(v[i + 1]) {
            let mut acc2 = acc;
            acc2.push(unescape_char(v[i + 1]));
            str_body_vec(v, i + 2, acc2)
        } else {
            None
        }
    } else if (v[i] as u32) < 32 {
        None
    } else {
        let mut acc2 = acc;
        acc2.push(v[i]);
        str_body_vec(v, i + 1, acc2)
    }
}

fn is_escape_char(c: char) -> (b: bool)
    ensures
        b == is_escape(c),
{
    c == '"' || c == '\\' || c == '/' || c == 'n' || c == 't' || c == 'r'
}

fn unescape_char(c: char) -> (r: char)
    ensures
        r == unescape(c),
{
    if c == 'n' {
        '\n'
    } else if c == 't' {
        '\t'
    } else if c == 'r' {
        '\r'
    } else {
        c
    }
}

/// Executable mirror of [`parse_string`].
fn parse_string_vec(v: &Vec<char>, i: usize) -> (r: Option<(Vec<char>, usize)>)
    ensures
        r matches Some(t) ==> parse_string(v@, i as int) == Some((t.0@, t.1 as int)) && t.1
            <= v@.len(),
        r is None ==> parse_string(v@, i as int) is None,
{
    if i < v.len() && v[i] == '"' {
        str_body_vec(v, i + 1, Vec::new())
    } else {
        None
    }
}

/// Executable mirror of [`parse_member`].
fn parse_member_vec(v: &Vec<char>, i: usize) -> (r: Option<(Vec<char>, Vec<char>, usize)>)
    requires
        i <= v@.len(),
    ensures
        r matches Some(t) ==> parse_member(v@, i as int) == Some((t.0@, t.1@, t.2 as int)) && t.2
            <= v@.len(),
        r is None ==> parse_member(v@, i as int) is None,
{
    let k = skip_ws_vec(v, i);
    match parse_string_vec(v, k) {
        None => None,
        Some((key, j)) => {
            let c = skip_ws_vec(v, j);
            if c < v.len() && v[c] == ':' {
                let vs = skip_ws_vec(v, c + 1);
                match parse_string_vec(v, vs) {
                    None => None,
                    Some((val, jj)) => Some((key, val, jj)),
                }
            } else {
                None
            }
        },
    }
}

/// Parses a request body as [`spec_parse_user`] says: returns the name and
/// email exactly when the body is an object of those two string members,
/// and nothing on any malformed input.
pub fn parse_user_body(body: &str) -> (r: Option<(String, String)>)
    ensures
        r matches Some(p) ==> spec_parse_user(body@) == Some((p.0@, p.1@)),
        r is None ==> spec_parse_user(body@) is None,
{
    let v = chars_vec(body);
    let i0 = skip_ws_vec(&v, 0);
    if !(i0 < v.len() && v[i0] == '{') {
        return None;
    }
    match parse_member_vec(&v, i0 + 1) {
        None => None,
        Some((k1, v1, j1)) => {
            let c1 = skip_ws_vec(&v, j1);
            if !(c1 < v.len() && v[c1] == ',') {
                return None;
            }
            match parse_member_vec(&v, c1 + 1) {
                None => None,
                Some((k2, v2, j2)) => {
                    let c2 = skip_ws_vec(&v, j2);
                    if !(c2 < v.len() && v[c2] == '}') {
                        return None;
                    }
                    if skip_ws_vec(&v, c2 + 1) != v.len() {
                        return None;
                    }
                    if eq_str(&k1, "name") && eq_str(&k2, "email") {
                        Some((string_of(&v1), string_of(&v2)))
                    } else if eq_str(&k1, "email") && eq_str(&k2, "name") {
                        Some((string_of(&v2), string_of(&v1)))
                    } else {
                        None
                    }
                },
            }
        },
    }
}

/// How one character is written inside a JSON string on output.
pub open spec fn esc_char(c: char) -> Seq<char> {
    if c == '"' {
        seq!['\\', '"']
    } else if c == '\\' {
        seq!['\\', '\\']
    } else if c == '\n' {
        seq!['\\', 'n']
    } else if c == '\t' {
        seq!['\\', 't']
    } else if c == '\r' {
        seq!['\\', 'r']
    } else {
        seq![c]
    }
}

/// A whole string escaped for output.
pub open spec fn esc_seq(s: Seq<char>) -> Seq<char>
    decreases s.len(),
{
    if s.len() == 0 {
        Seq::empty()
    } else {
        esc_seq(s.drop_last()) + esc_char(s.last())
    }
}

fn push_escaped(out: &mut Vec<char>, c: char)
    ensures
        final(out)@ == old(out)@ + esc_char(c),
{
    if c == '"' {
        out.push('\\');
        out.push('"');
    } else if c == '\\' {
        out.push('\\');
        out.push('\\');
    } else if c == '\n' {
        out.push('\\');
        out.push('n');
    } else if c == '\t' {
        out.push('\\');
        out.push('t');
    } else if c == '\r' {
        out.push('\\');
        out.push('r');
    } else {
        out.push(c);
    }
    proof {
        assert(out@ =~= old(out)@ + esc_char(c));
    }
}

/// The text of `s`, escaped as [`esc_seq`] says.
pub fn esc_string(s: &str) -> (r: Vec<char>)
    ensures
        r@ == esc_seq(s@),
{
    let v = chars_vec(s);
    let mut out: Vec<char> = Vec::new();
    let mut i: usize = 0;
    while i < v.len()
        invariant
            v@ == s@,
            i <= v@.len(),
            out@ == esc_seq(v@.subrange(0, i as int)),
        decreases v@.len() - i,
    {
        push_escaped(&mut out, v[i]);
        proof {
            assert(v@.subrange(0, i + 1 as int).drop_last() =~= v@.subrange(0, i as int));
            assert(v@.subrange(0, i + 1 as int).last() == v@[i as int]);
        }
        i = i + 1;
    }
    proof {
        assert(v@.subrange(0, v@.len() as int) =~= v@);
    }
    out
}

pub open spec fn nat_of(i: int) -> nat {
    if i >= 0 {
        i as nat
    } else {
        0
    }
}

/// The JSON object for one persisted record.
pub open spec fn spec_json_user(id: nat, name: Seq<char>, email: Seq<char>) -> Seq<char> {
    "{\"id\":"@ + dec_digits(id) + ",\"name\":\""@ + esc_seq(name) + "\",\"email\":\""@ + esc_seq(
        email,
    ) + "\"}"@
}

pub open spec fn spec_json_rec(u: UserV) -> Seq<char> {
    spec_json_user(nat_of(u.id), u.name, u.email)
}

/// The members of the JSON array for a whole store, comma separated.
pub open spec fn items_of(m: Seq<UserV>) -> Seq<char>
    decreases m.len(),
{
    if m.len() == 0 {
        Seq::empty()
    } else if m.len() == 1 {
        spec_json_rec(m[0])
    } else {
        items_of(m.drop_last()) + ","@ + spec_json_rec(m.last())
    }
}

/// The JSON array for a whole store.
pub open spec fn spec_json_list(m: Seq<UserV>) -> Seq<char> {
    "["@ + items_of(m) + "]"@
}

/// Renders one record as [`spec_json_user`] says.
pub fn render_record(id: i64, name: &str, email: &str) -> (r: String)
    requires
        id >= 0,
    ensures
        r@ == spec_json_user(id as nat, name@, email@),
{
    let mut out = String::new();
    out.append("{\"id\":");
    let digits = render_u64(id as u64);
    let ds = string_of(&digits);
    out.append(ds.as_str());
    out.append(",\"name\":\"");
    let nm = string_of(&esc_string(name));
    out.append(nm.as_str());
    out.append("\",\"email\":\"");
    let em = string_of(&esc_string(email));
    out.append(em.as_str());
    out.append("\"}");
    proof {
        assert(out@ =~= spec_json_user(id as nat, name@, email@));
    }
    out
}

/// Renders every record of the store as one JSON array, in store order,
/// as [`spec_json_list`] says.
pub fn render_list(recs: &Vec<Record>) -> (r: String)
    requires
        forall|j: int| 0 <= j < recs@.len() ==> rec_persisted(#[trigger] recs@[j]),
    ensures
        r@ == spec_json_list(model_of(recs@)),
{
    let ghost m = model_of(recs@);
    let mut out = String::new();
    out.append("[");
    let mut i: usize = 0;
    while i < recs.len()
        invariant
            forall|j: int| 0 <= j < recs@.len() ==> rec_persisted(#[trigger] recs@[j]),
            m == model_of(recs@),
            i <= recs@.len(),
            out@ == "["@ + items_of(m.subrange(0, i as int)),
        decreases recs@.len() - i,
    {
        if i > 0 {
            out.append(",");
        }
        let rec = &recs[i];
        let idv: i64 = match rec.id {
            Some(x) => x,
            None => 0,
        };
        let piece = render_record(idv, rec.name.as_str(), rec.email.as_str());
        out.append(piece.as_str());
        proof {
            assert(m[i as int] == crate::record::rec_view(recs@[i as int]));
            assert(piece@ == spec_json_rec(m[i as int]));
            assert(m.subrange(0, i + 1 as int).drop_last() =~= m.subrange(0, i as int));
            assert(m.subrange(0, i + 1 as int).last() == m[i as int]);
            assert(out@ =~= "["@ + items_of(m.subrange(0, i + 1 as int)));
        }
        i = i + 1;
    }
    out.append("]");
    proof {
        assert(m.subrange(0, m.len() as int) =~= m);
        assert(out@ =~= spec_json_list(m));
    }
    out
}

} // verus!

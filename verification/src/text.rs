//! Character-level utilities: turning `&str` into an indexable character
//! vector, building strings back up, decimal parsing and rendering for
//! record ids, and prefix tests used by the router.

use vstd::prelude::*;
use vstd::string::StrSliceExecFns;

verus! {

/// The ASCII whitespace characters that delimit tokens in a request line.
pub open spec fn is_ws(c: char) -> bool {
    c == ' ' || c == '\t' || c == '\n' || c == '\r'
}

/// Executable mirror of [`is_ws`].
pub fn is_ws_char(c: char) -> (b: bool)
    ensures
        b == is_ws(c),
{
    c == ' ' || c == '\t' || c == '\n' || c == '\r'
}

pub open spec fn is_digit(c: char) -> bool {
    '0' <= c && c <= '9'
}

pub open spec fn digit_val(c: char) -> nat {
    if is_digit(c) {
        ((c as int) - ('0' as int)) as nat
    } else {
        0
    }
}

/// The numeric value of a digit sequence read left to right.
pub open spec fn num_of(s: Seq<char>) -> nat
    decreases s.len(),
{
    if s.len() == 0 {
        0
    } else {
        num_of(s.drop_last()) * 10 + digit_val(s.last())
    }
}

pub open spec fn all_digits(s: Seq<char>) -> bool {
    forall|i: int| 0 <= i < s.len() ==> is_digit(s[i])
}

/// What `parse_id` returns: the decimal value of a non-empty all-digit
/// token when it fits in an `i64`, and nothing otherwise.
pub open spec fn spec_parse_id(s: Seq<char>) -> Option<int> {
    if s.len() > 0 && all_digits(s) && num_of(s) <= i64::MAX {
        Some(num_of(s) as int)
    } else {
        None
    }
}

/// The digits of `n` in decimal, most significant first.
pub open spec fn dec_digits(n: nat) -> Seq<char>
    decreases n,
{
    if n < 10 {
        seq![digit_char(n)]
    } else {
        dec_digits(n / 10).push(digit_char(n % 10))
    }
}

pub open spec fn digit_char(d: nat) -> char {
    if d == 0 { '0' }
    else if d == 1 { '1' }
    else if d == 2 { '2' }
    else if d == 3 { '3' }
    else if d == 4 { '4' }
    else if d == 5 { '5' }
    else if d == 6 { '6' }
    else if d == 7 { '7' }
    else if d == 8 { '8' }
    else { '9' }
}

/// `p` is an initial segment of `s`.
pub open spec fn starts_with(s: Seq<char>, p: Seq<char>) -> bool {
    p.len() <= s.len() && forall|i: int| 0 <= i < p.len() ==> s[i] == p[i]
}

/// The characters of `s` as a vector, for random access during parsing.
pub fn chars_vec(s: &str) -> (r: Vec<char>)
    ensures
        r@ == s@,
{
    let n = s.unicode_len();
    let mut r: Vec<char> = Vec::new();
    let mut i: usize = 0;
    while i < n
        invariant
            n == s@.len(),
            i <= n,
            r@ == s@.subrange(0, i as int),
        decreases n - i,
    {
        let c = s.get_char(i);
        r.push(c);
        proof {
            assert(r@ =~= s@.subrange(0, i + 1 as int));
        }
        i = i + 1;
    }
    proof {
        assert(r@ =~= s@);
    }
    r
}

/// Relies on `String::push`: appends the given character to the string.
#[verifier::external_body]
fn push_char(s: &mut String, c: char)
    ensures
        final(s)@ == old(s)@.push(c),
{
    s.push(c);
}

/// A `String` holding exactly the characters of `v`.
pub fn string_of(v: &Vec<char>) -> (r: String)
    ensures
        r@ == v@,
{
    let mut r = String::new();
    let mut i: usize = 0;
    while i < v.len()
        invariant
            i <= v@.len(),
            r@ == v@.subrange(0, i as int),
        decreases v@.len() - i,
    {
        push_char(&mut r, v[i]);
        proof {
            assert(r@ =~= v@.subrange(0, i + 1 as int));
        }
        i = i + 1;
    }
    proof {
        assert(r@ =~= v@);
    }
    r
}

/// The slice `v[from..to]` as a fresh vector.
pub fn sub_vec(v: &Vec<char>, from: usize, to: usize) -> (r: Vec<char>)
    requires
        from <= to <= v@.len(),
    ensures
        r@ == v@.subrange(from as int, to as int),
{
    let mut r: Vec<char> = Vec::new();
    let mut i: usize = from;
    while i < to
        invariant
            from <= i <= to <= v@.len(),
            r@ == v@.subrange(from as int, i as int),
        decreases to - i,
    {
        r.push(v[i]);
        proof {
            assert(r@ =~= v@.subrange(from as int, i + 1 as int));
        }
        i = i + 1;
    }
    r
}

/// Whether the characters of `v` are exactly those of `p`.
pub fn eq_str(v: &Vec<char>, p: &str) -> (b: bool)
    ensures
        b == (v@ == p@),
{
    let n = p.unicode_len();
    if v.len() != n {
        return false;
    }
    let mut i: usize = 0;
    while i < n
        invariant
            n == p@.len(),
            v@.len() == n,
            i <= n,
            forall|j: int| 0 <= j < i ==> v@[j] == p@[j],
        decreases n - i,
    {
        if v[i] != p.get_char(i) {
            return false;
        }
        i = i + 1;
    }
    proof {
        assert(v@ =~= p@);
    }
    true
}

/// Whether the text in `v` begins with the literal `p`.
pub fn starts_with_str(v: &Vec<char>, p: &str) -> (b: bool)
    ensures
        b == starts_with(v@, p@),
{
    let n = p.unicode_len();
    if v.len() < n {
        return false;
    }
    let mut i: usize = 0;
    while i < n
        invariant
            n == p@.len(),
            n <= v@.len(),
            i <= n,
            forall|j: int| 0 <= j < i ==> v@[j] == p@[j],
        decreases n - i,
    {
        if v[i] != p.get_char(i) {
            return false;
        }
        i = i + 1;
    }
    true
}

/// A space or a tab: the separators inside a request line.
pub open spec fn is_sp(c: char) -> bool {
    c == ' ' || c == '\t'
}

/// The first index at or after `i` whose character is not whitespace.
pub open spec fn skip_ws(s: Seq<char>, i: int) -> int
    decreases s.len() - i,
{
    if 0 <= i < s.len() && is_ws(s[i]) {
        skip_ws(s, i + 1)
    } else {
        i
    }
}

/// The first index at or after `i` whose character is not a space or tab.
pub open spec fn skip_sp(s: Seq<char>, i: int) -> int
    decreases s.len() - i,
{
    if 0 <= i < s.len() && is_sp(s[i]) {
        skip_sp(s, i + 1)
    } else {
        i
    }
}

/// The first index at or after `i` holding whitespace, or the length.
pub open spec fn ws_idx_from(s: Seq<char>, i: int) -> int
    decreases s.len() - i,
{
    if 0 <= i < s.len() {
        if is_ws(s[i]) {
            i
        } else {
            ws_idx_from(s, i + 1)
        }
    } else {
        s.len() as int
    }
}

/// The first index at or after `i` holding the character `c`, or the length.
pub open spec fn idx_of_from(s: Seq<char>, c: char, i: int) -> int
    decreases s.len() - i,
{
    if 0 <= i < s.len() {
        if s[i] == c {
            i
        } else {
            idx_of_from(s, c, i + 1)
        }
    } else {
        s.len() as int
    }
}

/// Executable mirror of [`skip_ws`].
pub fn skip_ws_vec(v: &Vec<char>, i: usize) -> (r: usize)
    requires
        i <= v@.len(),
    ensures
        r == skip_ws(v@, i as int),
        i <= r <= v@.len(),
    decreases v@.len() - i,
{
    if i < v.len() && is_ws_char(v[i]) {
        skip_ws_vec(v, i + 1)
    } else {
        i
    }
}

/// Executable mirror of [`skip_sp`].
pub fn skip_sp_vec(v: &Vec<char>, i: usize) -> (r: usize)
    requires
        i <= v@.len(),
    ensures
        r == skip_sp(v@, i as int),
        i <= r <= v@.len(),
    decreases v@.len() - i,
{
    if i < v.len() && (v[i] == ' ' || v[i] == '\t') {
        skip_sp_vec(v, i + 1)
    } else {
        i
    }
}

/// Executable mirror of [`ws_idx_from`].
pub fn ws_idx_vec(v: &Vec<char>, i: usize) -> (r: usize)
    requires
        i <= v@.len(),
    ensures
        r == ws_idx_from(v@, i as int),
        i <= r <= v@.len(),
    decreases v@.len() - i,
{
    if i < v.len() {
        if is_ws_char(v[i]) {
            i
        } else {
            ws_idx_vec(v, i + 1)
        }
    } else {
        v.len()
    }
}

/// Executable mirror of [`idx_of_from`].
pub fn idx_of_vec(v: &Vec<char>, c: char, i: usize) -> (r: usize)
    requires
        i <= v@.len(),
    ensures
        r == idx_of_from(v@, c, i as int),
        i <= r <= v@.len(),
    decreases v@.len() - i,
{
    if i < v.len() {
        if v[i] == c {
            i
        } else {
            idx_of_vec(v, c, i + 1)
        }
    } else {
        v.len()
    }
}

proof fn lemma_num_of_prefix_step(s: Seq<char>, i: int)
    requires
        0 <= i < s.len(),
    ensures
        num_of(s.subrange(0, i)) <= num_of(s.subrange(0, i + 1)),
{
    let a = s.subrange(0, i);
    let b = s.subrange(0, i + 1);
    assert(b.drop_last() =~= a);
    assert(num_of(b) == num_of(a) * 10 + digit_val(b.last()));
}

/// Extending a digit string on the right never decreases its value.
proof fn lemma_num_of_prefix(s: Seq<char>, i: int)
    requires
        0 <= i <= s.len(),
    ensures
        num_of(s.subrange(0, i)) <= num_of(s),
    decreases s.len() - i,
{
    if i == s.len() {
        assert(s.subrange(0, i) =~= s);
    } else {
        lemma_num_of_prefix_step(s, i);
        lemma_num_of_prefix(s, i + 1);
    }
}

/// Executable mirror of [`is_digit`], returning the digit's value.
fn digit_of(c: char) -> (r: Option<u64>)
    ensures
        (r is Some) == is_digit(c),
        r matches Some(d) ==> d == digit_val(c) && d <= 9,
{
    if '0' <= c && c <= '9' {
        Some((c as u32 as u64) - ('0' as u32 as u64))
    } else {
        None
    }
}

/// Parses a decimal record id. Returns the value exactly when the token is
/// non-empty, all digits, and fits in an `i64`; leading zeros are allowed,
/// signs and any other character are not.
pub fn parse_id(s: &str) -> (r: Option<i64>)
    ensures
        (r is Some) == (spec_parse_id(s@) is Some),
        r matches Some(n) ==> spec_parse_id(s@) == Some(n as int) && n >= 0,
{
    let v = chars_vec(s);
    if v.len() == 0 {
        return None;
    }
    let mut acc: u64 = 0;
    let mut i: usize = 0;
    while i < v.len()
        invariant
            v@ == s@,
            0 < v@.len(),
            i <= v@.len(),
            all_digits(v@.subrange(0, i as int)),
            acc == num_of(v@.subrange(0, i as int)),
            acc <= 0x7fff_ffff_ffff_ffff,
        decreases v@.len() - i,
    {
        match digit_of(v[i]) {
            None => {
                assert(!all_digits(v@));
                return None;
            },
            Some(d) => {
                proof {
                    assert(v@.subrange(0, i + 1 as int).drop_last() =~= v@.subrange(0, i as int));
                    assert(num_of(v@.subrange(0, i + 1 as int)) == acc * 10 + digit_val(v@[i as int]));
                }
                if acc > 922337203685477580u64 || (acc == 922337203685477580u64 && d > 7) {
                    proof {
                        assert(num_of(v@.subrange(0, i + 1 as int)) > i64::MAX);
                        if all_digits(v@) {
                            lemma_num_of_prefix(v@, i + 1);
                        }
                    }
                    return None;
                }
                acc = acc * 10 + d;
            },
        }
        i = i + 1;
    }
    proof {
        assert(v@.subrange(0, v@.len() as int) =~= v@);
    }
    Some(acc as i64)
}

/// The decimal rendering of `n`, most significant digit first.
pub fn render_u64(n: u64) -> (r: Vec<char>)
    ensures
        r@ == dec_digits(n as nat),
    decreases n,
{
    if n < 10 {
        let mut v: Vec<char> = Vec::new();
        v.push(digit_char_of(n));
        proof {
            assert(v@ =~= dec_digits(n as nat));
        }
        v
    } else {
        let mut v = render_u64(n / 10);
        v.push(digit_char_of(n % 10));
        v
    }
}

/// Executable mirror of [`digit_char`].
fn digit_char_of(d: u64) -> (c: char)
    requires
        d <= 9,
    ensures
        c == digit_char(d as nat),
{
    if d == 0 { '0' }
    else if d == 1 { '1' }
    else if d == 2 { '2' }
    else if d == 3 { '3' }
    else if d == 4 { '4' }
    else if d == 5 { '5' }
    else if d == 6 { '6' }
    else if d == 7 { '7' }
    else if d == 8 { '8' }
    else { '9' }
}

} // verus!

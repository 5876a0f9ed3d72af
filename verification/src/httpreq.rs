//! Request parsing and routing: the request line, the body split at the
//! first blank line, the id segment of a path, and the ordered route table.

use vstd::prelude::*;
use crate::text::{
    chars_vec, idx_of_from, idx_of_vec, skip_sp, skip_sp_vec, skip_ws, skip_ws_vec,
    starts_with, starts_with_str, string_of, sub_vec, ws_idx_from, ws_idx_vec,
};

verus! {

/// The targets a request can be dispatched to, one per CRUD operation,
/// and `NoRoute` for anything the table does not match.
#[derive(PartialEq, Eq, Structural)]
pub enum Route {
    CreateUser,
    GetUser,
    ListUsers,
    UpdateUser,
    DeleteUser,
    NoRoute,
}

/// The route table in its fixed priority order: the id-bearing `GET` rule
/// stands before the bare `GET /users` rule, so `GET /users/<id>` can never
/// fall through to the list handler.
pub open spec fn route_of(r: Seq<char>) -> Route {
    if starts_with(r, "POST /users"@) {
        Route::CreateUser
    } else if starts_with(r, "GET /users/"@) {
        Route::GetUser
    } else if starts_with(r, "GET /users"@) {
        Route::ListUsers
    } else if starts_with(r, "PUT /users/"@) {
        Route::UpdateUser
    } else if starts_with(r, "DELETE /users/"@) {
        Route::DeleteUser
    } else {
        Route::NoRoute
    }
}

/// Matches the raw request text against the route table, in table order.
pub fn route(request: &str) -> (r: Route)
    ensures
        r == route_of(request@),
{
    let v = chars_vec(request);
    if starts_with_str(&v, "POST /users") {
        Route::CreateUser
    } else if starts_with_str(&v, "GET /users/") {
        Route::GetUser
    } else if starts_with_str(&v, "GET /users") {
        Route::ListUsers
    } else if starts_with_str(&v, "PUT /users/") {
        Route::UpdateUser
    } else if starts_with_str(&v, "DELETE /users/") {
        Route::DeleteUser
    } else {
        Route::NoRoute
    }
}

/// The id token of a request: the text between the second and third `/`,
/// leading whitespace dropped, cut at the next whitespace. Empty whenever a
/// piece is missing; no step of the extraction can fail.
pub open spec fn spec_extract_id(r: Seq<char>) -> Seq<char> {
    let a = idx_of_from(r, '/', 0);
    if a == r.len() {
        Seq::empty()
    } else {
        let b = idx_of_from(r, '/', a + 1);
        if b == r.len() {
            Seq::empty()
        } else {
            let c = idx_of_from(r, '/', b + 1);
            let seg = r.subrange(b + 1, c);
            let p = skip_ws(seg, 0);
            seg.subrange(p, ws_idx_from(seg, p))
        }
    }
}

/// Returns the id token of the request path, as [`spec_extract_id`] says:
/// the first whitespace-delimited token after the second `/`-separated
/// segment, or the empty string where there is none.
pub fn get_id(request: &str) -> (r: String)
    ensures
        r@ == spec_extract_id(request@),
{
    let v = chars_vec(request);
    let a = idx_of_vec(&v, '/', 0);
    if a == v.len() {
        return String::new();
    }
    let b = idx_of_vec(&v, '/', a + 1);
    if b == v.len() {
        return String::new();
    }
    let c = idx_of_vec(&v, '/', b + 1);
    let seg = sub_vec(&v, b + 1, c);
    let p = skip_ws_vec(&seg, 0);
    let q = ws_idx_vec(&seg, p);
    let tok = sub_vec(&seg, p, q);
    string_of(&tok)
}

/// The index of the first `\r\n\r\n` at or after `i`, or -1.
pub open spec fn blank_idx_from(s: Seq<char>, i: int) -> int
    decreases s.len() - i,
{
    if 0 <= i && i + 4 <= s.len() {
        if s[i] == '\r' && s[i + 1] == '\n' && s[i + 2] == '\r' && s[i + 3] == '\n' {
            i
        } else {
            blank_idx_from(s, i + 1)
        }
    } else {
        -1
    }
}

/// Executable mirror of [`blank_idx_from`].
fn blank_idx_vec(v: &Vec<char>, i: usize) -> (r: Option<usize>)
    requires
        i <= v@.len(),
    ensures
        r matches Some(k) ==> blank_idx_from(v@, i as int) == k && i <= k && k + 4 <= v@.len(),
        r is None ==> blank_idx_from(v@, i as int) == -1,
    decreases v@.len() - i,
{
    if v.len() >= 4 && i <= v.len() - 4 {
        if v[i] == '\r' && v[i + 1] == '\n' && v[i + 2] == '\r' && v[i + 3] == '\n' {
            Some(i)
        } else {
            blank_idx_vec(v, i + 1)
        }
    } else {
        None
    }
}

/// The request body: everything after the first blank line, or empty where
/// the request has no blank line.
pub open spec fn spec_body_of(r: Seq<char>) -> Seq<char> {
    let b = blank_idx_from(r, 0);
    if b == -1 {
        Seq::empty()
    } else {
        r.subrange(b + 4, r.len() as int)
    }
}

/// Splits the body off the raw request, as [`spec_body_of`] says.
pub fn body_of(request: &str) -> (r: String)
    ensures
        r@ == spec_body_of(request@),
{
    let v = chars_vec(request);
    match blank_idx_vec(&v, 0) {
        None => String::new(),
        Some(b) => {
            let n = v.len();
            let tail = sub_vec(&v, b + 4, n);
            string_of(&tail)
        },
    }
}

/// A request reduced to its three meaningful pieces. The method or path is
/// empty where the raw text has no such token; nothing here can fail.
pub struct ParsedRequest {
    pub method: String,
    pub path: String,
    pub body: String,
}

/// The method token: the request text up to the first whitespace.
pub open spec fn spec_method_of(r: Seq<char>) -> Seq<char> {
    r.subrange(0, ws_idx_from(r, 0))
}

/// The path token: the second token of the request line. Empty where the
/// line ends after the method.
pub open spec fn spec_path_of(r: Seq<char>) -> Seq<char> {
    let p = skip_sp(r, ws_idx_from(r, 0));
    r.subrange(p, ws_idx_from(r, p))
}

/// Structures a raw request: method and path from the request line, body
/// after the first blank line. Degrades to empty pieces on garbage input,
/// never to an error.
pub fn parse_request(request: &str) -> (pr: ParsedRequest)
    ensures
        pr.method@ == spec_method_of(request@),
        pr.path@ == spec_path_of(request@),
        pr.body@ == spec_body_of(request@),
{
    let v = chars_vec(request);
    let m_end = ws_idx_vec(&v, 0);
    let m = sub_vec(&v, 0, m_end);
    let p_start = skip_sp_vec(&v, m_end);
    let p_end = ws_idx_vec(&v, p_start);
    let p = sub_vec(&v, p_start, p_end);
    let body = body_of(request);
    ParsedRequest { method: string_of(&m), path: string_of(&p), body }
}

} // verus!

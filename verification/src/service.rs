//! The five handlers, the dispatcher, and the response writer. Every
//! handler's effect on the store and on the response is pinned down by one
//! spec function per route, and [`spec_handle`] composes them with the
//! route table into a functional model of the whole pipeline.

use vstd::prelude::*;
use vstd::string::StringExecFns;
use crate::httpreq::{Route, route, route_of, get_id, spec_extract_id, body_of, spec_body_of};
use crate::json::{
    nat_of, parse_user_body, render_list, render_record, spec_json_list, spec_json_user,
    spec_parse_user,
};
use crate::record::UserV;
use crate::store::{Store, find_id, store_model, store_wf};
use crate::text::spec_parse_id;
use crate::text::parse_id;

verus! {

/// The three failure categories the service distinguishes, beside success:
/// a malformed request, an id with no record, and a storage fault.
#[derive(PartialEq, Eq, Structural, Clone, Copy, Debug)]
pub enum StatusKind {
    Success,
    BadRequest,
    NotFound,
    ServerError,
}

/// A structured response: produced by exactly one handler, consumed once
/// by the response writer.
pub struct Response {
    pub status: StatusKind,
    pub body: String,
}

/// The fixed envelope for each status: a success carries the JSON content
/// type and its body; the failure categories are a bare status line.
pub open spec fn status_line_of(st: StatusKind) -> Seq<char> {
    match st {
        StatusKind::Success => "HTTP/1.1 200 OK\r\nContent-Type: application/json\r\n\r\n"@,
        StatusKind::BadRequest => "HTTP/1.1 400 BAD REQUEST\r\n\r\n"@,
        StatusKind::NotFound => "HTTP/1.1 404 NOT FOUND\r\n\r\n"@,
        StatusKind::ServerError => "HTTP/1.1 500 INTERNAL SERVER ERROR\r\n\r\n"@,
    }
}

pub open spec fn spec_render_response(st: StatusKind, body: Seq<char>) -> Seq<char> {
    status_line_of(st) + body
}

/// Serializes a structured response into the bytes-to-write, as
/// [`spec_render_response`] says.
pub fn render_response(resp: &Response) -> (out: String)
    ensures
        out@ == spec_render_response(resp.status, resp.body@),
{
    let mut out = String::new();
    match resp.status {
        StatusKind::Success => out.append("HTTP/1.1 200 OK\r\nContent-Type: application/json\r\n\r\n"),
        StatusKind::BadRequest => out.append("HTTP/1.1 400 BAD REQUEST\r\n\r\n"),
        StatusKind::NotFound => out.append("HTTP/1.1 404 NOT FOUND\r\n\r\n"),
        StatusKind::ServerError => out.append("HTTP/1.1 500 INTERNAL SERVER ERROR\r\n\r\n"),
    }
    out.append(resp.body.as_str());
    out
}

/// A handler's whole effect: the store contents and next id after the
/// call, and the response's status and body.
pub ghost struct Served {
    pub m: Seq<UserV>,
    pub next: int,
    pub status: StatusKind,
    pub body: Seq<char>,
}

pub open spec fn unchanged(m: Seq<UserV>, next: int, st: StatusKind) -> Served {
    Served { m, next, status: st, body: Seq::empty() }
}

/// Creation: a malformed body is refused as the client's error; otherwise
/// the record is appended under the next id and echoed back with it.
pub open spec fn spec_create(m: Seq<UserV>, next: int, req: Seq<char>) -> Served {
    match spec_parse_user(spec_body_of(req)) {
        None => unchanged(m, next, StatusKind::BadRequest),
        Some((name, email)) => {
            if next == i64::MAX {
                unchanged(m, next, StatusKind::ServerError)
            } else {
                Served {
                    m: m.push(UserV { id: next, name, email }),
                    next: next + 1,
                    status: StatusKind::Success,
                    body: spec_json_user(nat_of(next), name, email),
                }
            }
        },
    }
}

/// Reading: a non-numeric id is the client's error; a missing record is
/// not found; a present record is echoed as JSON.
pub open spec fn spec_get(m: Seq<UserV>, next: int, req: Seq<char>) -> Served {
    match spec_parse_id(spec_extract_id(req)) {
        None => unchanged(m, next, StatusKind::BadRequest),
        Some(id) => {
            let k = find_id(m, id);
            if k == -1 {
                unchanged(m, next, StatusKind::NotFound)
            } else {
                Served {
                    m,
                    next,
                    status: StatusKind::Success,
                    body: spec_json_user(nat_of(id), m[k].name, m[k].email),
                }
            }
        },
    }
}

/// Listing: always succeeds with the JSON array of the whole store.
pub open spec fn spec_list(m: Seq<UserV>, next: int) -> Served {
    Served { m, next, status: StatusKind::Success, body: spec_json_list(m) }
}

/// Updating: id errors come before body errors; a found record keeps its
/// id and position and takes the new fields, echoed back as JSON.
pub open spec fn spec_update(m: Seq<UserV>, next: int, req: Seq<char>) -> Served {
    match spec_parse_id(spec_extract_id(req)) {
        None => unchanged(m, next, StatusKind::BadRequest),
        Some(id) => match spec_parse_user(spec_body_of(req)) {
            None => unchanged(m, next, StatusKind::BadRequest),
            Some((name, email)) => {
                let k = find_id(m, id);
                if k == -1 {
                    unchanged(m, next, StatusKind::NotFound)
                } else {
                    Served {
                        m: m.update(k, UserV { id, name, email }),
                        next,
                        status: StatusKind::Success,
                        body: spec_json_user(nat_of(id), name, email),
                    }
                }
            },
        },
    }
}

/// Deletion: removes the record and confirms with an empty success body;
/// a second deletion of the same id finds nothing.
pub open spec fn spec_delete(m: Seq<UserV>, next: int, req: Seq<char>) -> Served {
    match spec_parse_id(spec_extract_id(req)) {
        None => unchanged(m, next, StatusKind::BadRequest),
        Some(id) => {
            let k = find_id(m, id);
            if k == -1 {
                unchanged(m, next, StatusKind::NotFound)
            } else {
                Served { m: m.remove(k), next, status: StatusKind::Success, body: Seq::empty() }
            }
        },
    }
}

/// The whole pipeline on decoded text: route, then the matched handler.
pub open spec fn spec_handle(m: Seq<UserV>, next: int, req: Seq<char>) -> Served {
    match route_of(req) {
        Route::CreateUser => spec_create(m, next, req),
        Route::GetUser => spec_get(m, next, req),
        Route::ListUsers => spec_list(m, next),
        Route::UpdateUser => spec_update(m, next, req),
        Route::DeleteUser => spec_delete(m, next, req),
        Route::NoRoute => unchanged(m, next, StatusKind::NotFound),
    }
}

/// The handler's effect matches the given model transition.
pub open spec fn serves(pre: Store, post: Store, resp: Response, out: Served) -> bool {
    &&& store_model(post) == out.m
    &&& post.next_id as int == out.next
    &&& resp.status == out.status
    &&& resp.body@ == out.body
}

fn empty_response(st: StatusKind) -> (r: Response)
    ensures
        r.status == st,
        r.body@ == Seq::<char>::empty(),
{
    Response { status: st, body: String::new() }
}

/// `POST /users`: deserializes the body and creates the record.
pub fn handle_create(store: &mut Store, request: &str) -> (resp: Response)
    requires
        store_wf(*old(store)),
    ensures
        store_wf(*final(store)),
        serves(
            *old(store),
            *final(store),
            resp,
            spec_create(store_model(*old(store)), old(store).next_id as int, request@),
        ),
{
    let body = body_of(request);
    match parse_user_body(body.as_str()) {
        None => empty_response(StatusKind::BadRequest),
        Some((name, email)) => {
            let name2 = name.clone();
            let email2 = email.clone();
            match store.create(name, email) {
                None => empty_response(StatusKind::ServerError),
                Some(id) => {
                    let b = render_record(id, name2.as_str(), email2.as_str());
                    Response { status: StatusKind::Success, body: b }
                },
            }
        },
    }
}

/// `GET /users/<id>`: parses the id and reads the record.
pub fn handle_get(store: &mut Store, request: &str) -> (resp: Response)
    requires
        store_wf(*old(store)),
    ensures
        store_wf(*final(store)),
        *final(store) == *old(store),
        serves(
            *old(store),
            *final(store),
            resp,
            spec_get(store_model(*old(store)), old(store).next_id as int, request@),
        ),
{
    let tok = get_id(request);
    match parse_id(tok.as_str()) {
        None => empty_response(StatusKind::BadRequest),
        Some(id) => match store.read(id) {
            None => empty_response(StatusKind::NotFound),
            Some(rec) => {
                let idv: i64 = match rec.id {
                    Some(x) => x,
                    None => 0,
                };
                let b = render_record(idv, rec.name.as_str(), rec.email.as_str());
                Response { status: StatusKind::Success, body: b }
            },
        },
    }
}

/// `GET /users`: lists every record.
pub fn handle_list(store: &mut Store, request: &str) -> (resp: Response)
    requires
        store_wf(*old(store)),
    ensures
        store_wf(*final(store)),
        *final(store) == *old(store),
        serves(
            *old(store),
            *final(store),
            resp,
            spec_list(store_model(*old(store)), old(store).next_id as int),
        ),
{
    let b = render_list(&store.recs);
    Response { status: StatusKind::Success, body: b }
}

/// `PUT /users/<id>`: parses id and body, then updates the record.
pub fn handle_update(store: &mut Store, request: &str) -> (resp: Response)
    requires
        store_wf(*old(store)),
    ensures
        store_wf(*final(store)),
        final(store).next_id == old(store).next_id,
        serves(
            *old(store),
            *final(store),
            resp,
            spec_update(store_model(*old(store)), old(store).next_id as int, request@),
        ),
{
    let tok = get_id(request);
    match parse_id(tok.as_str()) {
        None => empty_response(StatusKind::BadRequest),
        Some(id) => {
            let body = body_of(request);
            match parse_user_body(body.as_str()) {
                None => empty_response(StatusKind::BadRequest),
                Some((name, email)) => {
                    let name2 = name.clone();
                    let email2 = email.clone();
                    if store.update(id, name, email) {
                        let b = render_record(id, name2.as_str(), email2.as_str());
                        Response { status: StatusKind::Success, body: b }
                    } else {
                        empty_response(StatusKind::NotFound)
                    }
                },
            }
        },
    }
}

/// `DELETE /users/<id>`: parses the id and removes the record.
pub fn handle_delete(store: &mut Store, request: &str) -> (resp: Response)
    requires
        store_wf(*old(store)),
    ensures
        store_wf(*final(store)),
        final(store).next_id == old(store).next_id,
        serves(
            *old(store),
            *final(store),
            resp,
            spec_delete(store_model(*old(store)), old(store).next_id as int, request@),
        ),
{
    let tok = get_id(request);
    match parse_id(tok.as_str()) {
        None => empty_response(StatusKind::BadRequest),
        Some(id) => {
            if store.delete(id) {
                empty_response(StatusKind::Success)
            } else {
                empty_response(StatusKind::NotFound)
            }
        },
    }
}

/// Routes the decoded request text and runs exactly one handler, as
/// [`spec_handle`] says.
pub fn handle_request(store: &mut Store, request: &str) -> (resp: Response)
    requires
        store_wf(*old(store)),
    ensures
        store_wf(*final(store)),
        serves(
            *old(store),
            *final(store),
            resp,
            spec_handle(store_model(*old(store)), old(store).next_id as int, request@),
        ),
{
    match route(request) {
        Route::CreateUser => handle_create(store, request),
        Route::GetUser => handle_get(store, request),
        Route::ListUsers => handle_list(store, request),
        Route::UpdateUser => handle_update(store, request),
        Route::DeleteUser => handle_delete(store, request),
        Route::NoRoute => empty_response(StatusKind::NotFound),
    }
}

/// What a raw byte buffer decodes to; pure ASCII decodes to itself.
pub uninterp spec fn lossy_utf8(b: Seq<u8>) -> Seq<char>;

/// Relies on `String::from_utf8_lossy`: the result is a function of the
/// bytes alone; valid UTF-8 — in particular pure ASCII — passes through
/// unchanged, invalid sequences become replacement characters.
#[verifier::external_body]
fn decode_lossy(bytes: &[u8]) -> (r: String)
    ensures
        r@ == lossy_utf8(bytes@),
        (forall|i: int| 0 <= i < bytes@.len() ==> bytes@[i] < 128) ==> r@ == Seq::new(
            bytes@.len(),
            |i: int| bytes@[i] as char,
        ),
{
    String::from_utf8_lossy(bytes).into_owned()
}

/// The full per-connection step on one read buffer: decode the bytes
/// (never failing, garbage degrades to an unmatched route), handle the
/// request, and serialize the response.
pub fn handle_bytes(store: &mut Store, raw: &[u8]) -> (out: String)
    requires
        store_wf(*old(store)),
    ensures
        store_wf(*final(store)),
        ({
            let served = spec_handle(
                store_model(*old(store)),
                old(store).next_id as int,
                lossy_utf8(raw@),
            );
            &&& store_model(*final(store)) == served.m
            &&& final(store).next_id as int == served.next
            &&& out@ == spec_render_response(served.status, served.body)
        }),
{
    let text = decode_lossy(raw);
    let resp = handle_request(store, text.as_str());
    render_response(&resp)
}

} // verus!

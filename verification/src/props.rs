//! The laws of the pipeline, stated over the same spec functions the
//! handlers' contracts use, and proved once and for all inputs.

use vstd::prelude::*;
use crate::httpreq::{Route, route_of, spec_body_of, spec_extract_id};
use crate::json::{nat_of, spec_json_list, spec_json_user, spec_parse_user};
use crate::record::UserV;
use crate::service::{spec_handle, StatusKind};
use crate::store::{find_from, find_id, ids_below, ids_distinct};
use crate::text::{spec_parse_id, starts_with};

verus! {

/// Where no record at or after `k` carries the id, the search misses.
proof fn lemma_find_not_present(m: Seq<UserV>, id: int, k: int)
    requires
        0 <= k <= m.len(),
        forall|j: int| k <= j < m.len() ==> #[trigger] m[j].id != id,
    ensures
        find_from(m, id, k) == -1,
    decreases m.len() - k,
{
    if k < m.len() {
        lemma_find_not_present(m, id, k + 1);
    }
}

/// A freshly pushed record with an id nobody else carries is found, and
/// found at the end.
proof fn lemma_find_push_fresh(m: Seq<UserV>, uv: UserV, k: int)
    requires
        0 <= k <= m.len(),
        forall|j: int| k <= j < m.len() ==> #[trigger] m[j].id != uv.id,
    ensures
        find_from(m.push(uv), uv.id, k) == m.len(),
    decreases m.len() - k,
{
    if k < m.len() {
        lemma_find_push_fresh(m, uv, k + 1);
    }
}

/// Creating a record and then fetching it under the returned id hands the
/// very record back: same name, same email, and an id that was assigned —
/// positive, never null.
pub proof fn lemma_create_then_get(
    m: Seq<UserV>,
    next: int,
    post_req: Seq<char>,
    get_req: Seq<char>,
    name: Seq<char>,
    email: Seq<char>,
)
    requires
        1 <= next < i64::MAX,
        ids_below(m, next),
        route_of(post_req) == Route::CreateUser,
        spec_parse_user(spec_body_of(post_req)) == Some((name, email)),
        route_of(get_req) == Route::GetUser,
        spec_parse_id(spec_extract_id(get_req)) == Some(next),
    ensures
        ({
            let created = spec_handle(m, next, post_req);
            let fetched = spec_handle(created.m, created.next, get_req);
            &&& created.status == StatusKind::Success
            &&& created.body == spec_json_user(next as nat, name, email)
            &&& fetched.status == StatusKind::Success
            &&& fetched.body == spec_json_user(next as nat, name, email)
            &&& fetched.m == created.m
            &&& fetched.next == created.next
        }),
{
    let uv = UserV { id: next, name, email };
    let created = spec_handle(m, next, post_req);
    assert(created.m == m.push(uv));
    assert(forall|j: int| 0 <= j < m.len() ==> #[trigger] m[j].id != next);
    lemma_find_push_fresh(m, uv, 0);
    assert(find_id(created.m, next) == m.len());
    assert(created.m[m.len() as int] == uv);
    assert(nat_of(next) == next as nat);
}

/// Any request that reads, rewrites or removes an id the store does not
/// hold is answered with the not-found category, and the store stands as
/// it was. (For a rewrite the body must be well-formed: a malformed body
/// is the client's error and reported as such before the id is looked up.)
pub proof fn lemma_missing_id_not_found(m: Seq<UserV>, next: int, req: Seq<char>, id: int)
    requires
        spec_parse_id(spec_extract_id(req)) == Some(id),
        forall|j: int| 0 <= j < m.len() ==> #[trigger] m[j].id != id,
        route_of(req) == Route::GetUser || route_of(req) == Route::UpdateUser || route_of(req)
            == Route::DeleteUser,
        route_of(req) == Route::UpdateUser ==> spec_parse_user(spec_body_of(req)) is Some,
    ensures
        spec_handle(m, next, req).status == StatusKind::NotFound,
        spec_handle(m, next, req).m == m,
        spec_handle(m, next, req).next == next,
{
    lemma_find_not_present(m, id, 0);
}

/// Deleting an id the store holds succeeds and removes exactly that
/// record; deleting it again reports not found and changes nothing — the
/// second answer is a category, never a fault of a different kind.
pub proof fn lemma_delete_idempotent(m: Seq<UserV>, next: int, req: Seq<char>, id: int)
    requires
        ids_distinct(m),
        route_of(req) == Route::DeleteUser,
        spec_parse_id(spec_extract_id(req)) == Some(id),
        exists|j: int| 0 <= j < m.len() && #[trigger] m[j].id == id,
    ensures
        ({
            let first = spec_handle(m, next, req);
            let second = spec_handle(first.m, first.next, req);
            &&& first.status == StatusKind::Success
            &&& first.m.len() == m.len() - 1
            &&& second.status == StatusKind::NotFound
            &&& second.m == first.m
            &&& second.next == first.next
        }),
{
    crate::store::lemma_find_from(m, id, 0);
    if find_id(m, id) == -1 {
        let j = choose|j: int| 0 <= j < m.len() && #[trigger] m[j].id == id;
        assert(m[j].id != id);
    }
    let k = find_id(m, id);
    let m1 = m.remove(k);
    assert forall|j: int| 0 <= j < m1.len() implies #[trigger] m1[j].id != id by {
        if j < k {
            assert(m1[j] == m[j]);
        } else {
            assert(m1[j] == m[j + 1]);
        }
    }
    lemma_find_not_present(m1, id, 0);
}

/// The id-bearing `GET` rule wins: any request whose line begins
/// `GET /users/` dispatches to the single-record handler, never to the
/// list handler.
pub proof fn lemma_route_get_user(r: Seq<char>)
    requires
        starts_with(r, "GET /users/"@),
    ensures
        route_of(r) == Route::GetUser,
{
    reveal_strlit("GET /users/");
    reveal_strlit("POST /users");
    assert(r[0] == 'G');
    assert(!starts_with(r, "POST /users"@));
}

/// A bare `GET /users` with no further path segment dispatches to the
/// list handler.
pub proof fn lemma_route_list_users(r: Seq<char>)
    requires
        starts_with(r, "GET /users"@),
        !starts_with(r, "GET /users/"@),
    ensures
        route_of(r) == Route::ListUsers,
{
    reveal_strlit("GET /users");
    reveal_strlit("POST /users");
    assert(r[0] == 'G');
    assert(!starts_with(r, "POST /users"@));
}

/// A creation request whose body is not a well-formed `{name, email}`
/// object is answered with the client-error category — not a success, not
/// a crash — and the store stands as it was.
pub proof fn lemma_malformed_create_rejected(m: Seq<UserV>, next: int, req: Seq<char>)
    requires
        route_of(req) == Route::CreateUser,
        spec_parse_user(spec_body_of(req)) is None,
    ensures
        spec_handle(m, next, req).status == StatusKind::BadRequest,
        spec_handle(m, next, req).status != StatusKind::Success,
        spec_handle(m, next, req).m == m,
        spec_handle(m, next, req).next == next,
{
}

/// A successful creation appends exactly one record, holding the posted
/// name and email under the next free id, and touches nothing else.
pub proof fn lemma_create_appends(
    m: Seq<UserV>,
    next: int,
    req: Seq<char>,
    name: Seq<char>,
    email: Seq<char>,
)
    requires
        route_of(req) == Route::CreateUser,
        spec_parse_user(spec_body_of(req)) == Some((name, email)),
        1 <= next < i64::MAX,
    ensures
        spec_handle(m, next, req).status == StatusKind::Success,
        spec_handle(m, next, req).m == m.push(UserV { id: next, name, email }),
        spec_handle(m, next, req).next == next + 1,
{
}

/// Listing answers with the JSON array of every record the store holds,
/// in store order, changes nothing, and — under the store invariant —
/// every listed record carries a positive id, never a null one.
pub proof fn lemma_list_shows_every_record(m: Seq<UserV>, next: int, req: Seq<char>)
    requires
        route_of(req) == Route::ListUsers,
        ids_below(m, next),
    ensures
        spec_handle(m, next, req).status == StatusKind::Success,
        spec_handle(m, next, req).body == spec_json_list(m),
        spec_handle(m, next, req).m == m,
        spec_handle(m, next, req).next == next,
        forall|j: int| 0 <= j < m.len() ==> #[trigger] m[j].id >= 1,
{
}

/// Updating a held id succeeds, replaces exactly that record's fields in
/// place — same id, same position — and the following read reflects the
/// new fields.
pub proof fn lemma_update_then_get(
    m: Seq<UserV>,
    next: int,
    put_req: Seq<char>,
    get_req: Seq<char>,
    id: int,
    name: Seq<char>,
    email: Seq<char>,
)
    requires
        ids_distinct(m),
        route_of(put_req) == Route::UpdateUser,
        spec_parse_id(spec_extract_id(put_req)) == Some(id),
        spec_parse_user(spec_body_of(put_req)) == Some((name, email)),
        route_of(get_req) == Route::GetUser,
        spec_parse_id(spec_extract_id(get_req)) == Some(id),
        exists|j: int| 0 <= j < m.len() && #[trigger] m[j].id == id,
    ensures
        ({
            let updated = spec_handle(m, next, put_req);
            let fetched = spec_handle(updated.m, updated.next, get_req);
            &&& updated.status == StatusKind::Success
            &&& updated.m.len() == m.len()
            &&& fetched.status == StatusKind::Success
            &&& fetched.body == spec_json_user(nat_of(id), name, email)
            &&& fetched.m == updated.m
        }),
{
    crate::store::lemma_find_from(m, id, 0);
    if find_id(m, id) == -1 {
        let j = choose|j: int| 0 <= j < m.len() && #[trigger] m[j].id == id;
        assert(m[j].id != id);
    }
    let k = find_id(m, id);
    let uv = UserV { id, name, email };
    let m1 = m.update(k, uv);
    lemma_find_same_ids(m, m1, id, 0);
    assert(find_id(m1, id) == k);
    assert(m1[k] == uv);
}

/// Two stores that agree on every id agree on where a search lands.
proof fn lemma_find_same_ids(m0: Seq<UserV>, m1: Seq<UserV>, id: int, k: int)
    requires
        0 <= k <= m0.len(),
        m0.len() == m1.len(),
        forall|j: int| 0 <= j < m0.len() ==> #[trigger] m0[j].id == #[trigger] m1[j].id,
    ensures
        find_from(m0, id, k) == find_from(m1, id, k),
    decreases m0.len() - k,
{
    if k < m0.len() && m0[k].id != id {
        lemma_find_same_ids(m0, m1, id, k + 1);
    }
}

} // verus!

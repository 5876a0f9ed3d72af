//! The user record: its executable form and the mathematical view the
//! contracts speak of.

use vstd::prelude::*;

verus! {

/// A user record. The id is absent on a record built from a creation
/// request and present on every record handed back by the store.
pub struct Record {
    pub id: Option<i64>,
    pub name: String,
    pub email: String,
}

/// The mathematical view of a persisted record: its assigned id and the
/// character sequences of its fields.
pub ghost struct UserV {
    pub id: int,
    pub name: Seq<char>,
    pub email: Seq<char>,
}

/// The id of a persisted record, or 0 where none was assigned.
pub open spec fn rec_id(r: Record) -> int {
    match r.id {
        Some(i) => i as int,
        None => 0,
    }
}

/// A persisted record carries a positive id.
pub open spec fn rec_persisted(r: Record) -> bool {
    r.id matches Some(i) && i >= 1
}

pub open spec fn rec_view(r: Record) -> UserV {
    UserV { id: rec_id(r), name: r.name@, email: r.email@ }
}

/// The view of a whole store contents: each record abstracted to [`UserV`].
pub open spec fn model_of(recs: Seq<Record>) -> Seq<UserV> {
    recs.map(|i: int, r: Record| rec_view(r))
}

} // verus!

//! The user store: an in-memory table of persisted records with the
//! invariant every handler relies on — each record carries a positive id,
//! all ids are distinct, and all sit below the next id to be assigned.

use vstd::prelude::*;
use crate::record::{Record, UserV, model_of, rec_id, rec_persisted, rec_view};

verus! {

pub struct Store {
    pub recs: Vec<Record>,
    pub next_id: i64,
}

pub open spec fn store_model(s: Store) -> Seq<UserV> {
    model_of(s.recs@)
}

pub open spec fn ids_distinct(m: Seq<UserV>) -> bool {
    forall|j: int, k: int| 0 <= j < k < m.len() ==> m[j].id != m[k].id
}

pub open spec fn ids_below(m: Seq<UserV>, next: int) -> bool {
    forall|j: int| 0 <= j < m.len() ==> 1 <= #[trigger] m[j].id < next
}

/// The store invariant: constructors establish it, every operation keeps it.
pub open spec fn store_wf(s: Store) -> bool {
    &&& 1 <= s.next_id
    &&& forall|j: int| 0 <= j < s.recs@.len() ==> rec_persisted(#[trigger] s.recs@[j])
    &&& ids_below(store_model(s), s.next_id as int)
    &&& ids_distinct(store_model(s))
}

/// The first position at or after `k` holding the id, or -1.
pub open spec fn find_from(m: Seq<UserV>, id: int, k: int) -> int
    decreases m.len() - k,
{
    if 0 <= k < m.len() {
        if m[k].id == id {
            k
        } else {
            find_from(m, id, k + 1)
        }
    } else {
        -1
    }
}

/// The position of the record with this id, or -1 where the store has none.
pub open spec fn find_id(m: Seq<UserV>, id: int) -> int {
    find_from(m, id, 0)
}

/// What -1 and a found position mean, for every starting point.
pub proof fn lemma_find_from(m: Seq<UserV>, id: int, k: int)
    requires
        0 <= k <= m.len(),
    ensures
        find_from(m, id, k) == -1 ==> forall|j: int| k <= j < m.len() ==> #[trigger] m[j].id
            != id,
        find_from(m, id, k) != -1 ==> k <= find_from(m, id, k) < m.len() && m[find_from(
            m,
            id,
            k,
        )].id == id,
    decreases m.len() - k,
{
    if k < m.len() && m[k].id != id {
        lemma_find_from(m, id, k + 1);
    }
}

impl Store {
    /// An empty store; ids start at 1.
    pub fn new() -> (s: Store)
        ensures
            store_wf(s),
            store_model(s) == Seq::<UserV>::empty(),
            s.next_id == 1,
    {
        let s = Store { recs: Vec::new(), next_id: 1 };
        proof {
            assert(store_model(s) =~= Seq::<UserV>::empty());
        }
        s
    }

    fn find(&self, id: i64) -> (r: Option<usize>)
        ensures
            r matches Some(j) ==> find_id(store_model(*self), id as int) == j && j
                < self.recs@.len(),
            r is None ==> find_id(store_model(*self), id as int) == -1,
    {
        let ghost m = store_model(*self);
        let mut k: usize = 0;
        while k < self.recs.len()
            invariant
                k <= self.recs@.len(),
                m == store_model(*self),
                m.len() == self.recs@.len(),
                find_from(m, id as int, 0) == find_from(m, id as int, k as int),
            decreases self.recs@.len() - k,
        {
            let hit = match self.recs[k].id {
                Some(x) => x == id,
                None => id == 0,
            };
            proof {
                assert(m[k as int] == rec_view(self.recs@[k as int]));
            }
            if hit {
                return Some(k);
            }
            k = k + 1;
        }
        None
    }

    /// Appends a record under the next free id and returns that id; refuses
    /// only when the id space is exhausted, leaving the store unchanged.
    pub fn create(&mut self, name: String, email: String) -> (r: Option<i64>)
        requires
            store_wf(*old(self)),
        ensures
            store_wf(*final(self)),
            r matches Some(id) ==> id == old(self).next_id && final(self).next_id == old(
                self,
            ).next_id + 1 && store_model(*final(self)) == store_model(*old(self)).push(
                UserV { id: id as int, name: name@, email: email@ },
            ),
            r is None ==> *final(self) == *old(self) && old(self).next_id == i64::MAX,
    {
        if self.next_id == i64::MAX {
            return None;
        }
        let id = self.next_id;
        let rec = Record { id: Some(id), name, email };
        self.recs.push(rec);
        self.next_id = id + 1;
        proof {
            assert(store_model(*self) =~= store_model(*old(self)).push(
                UserV { id: id as int, name: name@, email: email@ },
            ));
        }
        Some(id)
    }

    /// Hands back a copy of the record with this id, or nothing where the
    /// store has none.
    pub fn read(&self, id: i64) -> (r: Option<Record>)
        requires
            store_wf(*self),
        ensures
            r matches Some(rec) ==> ({
                let k = find_id(store_model(*self), id as int);
                0 <= k && rec_view(rec) == store_model(*self)[k] && rec.id == Some(id)
            }),
            r is None ==> find_id(store_model(*self), id as int) == -1,
    {
        match self.find(id) {
            None => None,
            Some(k) => {
                proof {
                    lemma_find_from(store_model(*self), id as int, 0);
                    assert(store_model(*self)[k as int] == rec_view(self.recs@[k as int]));
                }
                let rc = &self.recs[k];
                let out = match rc.id {
                    Some(x) => Some(Record { id: Some(x), name: rc.name.clone(), email: rc.email.clone() }),
                    None => None,
                };
                proof {
                    assert(rec_persisted(self.recs@[k as int]));
                    assert(rec_id(self.recs@[k as int]) == id as int);
                }
                out
            },
        }
    }

    /// Replaces the name and email of the record with this id, keeping its
    /// position and id; reports whether such a record existed.
    pub fn update(&mut self, id: i64, name: String, email: String) -> (r: bool)
        requires
            store_wf(*old(self)),
        ensures
            store_wf(*final(self)),
            final(self).next_id == old(self).next_id,
            ({
                let m0 = store_model(*old(self));
                let k = find_id(m0, id as int);
                if k == -1 {
                    !r && *final(self) == *old(self)
                } else {
                    r && store_model(*final(self)) == m0.update(
                        k,
                        UserV { id: id as int, name: name@, email: email@ },
                    )
                }
            }),
    {
        let ghost m0 = store_model(*old(self));
        match self.find(id) {
            None => false,
            Some(k) => {
                proof {
                    lemma_find_from(m0, id as int, 0);
                }
                self.recs.remove(k);
                self.recs.insert(k, Record { id: Some(id), name, email });
                proof {
                    let m1 = store_model(*self);
                    let uv = UserV { id: id as int, name: name@, email: email@ };
                    assert(m1 =~= m0.update(k as int, uv));
                    assert forall|j: int| 0 <= j < m1.len() implies 1 <= #[trigger] m1[j].id
                        < self.next_id as int by {
                        assert(m1[j].id == m0[j].id);
                    }
                    assert forall|a: int, b: int| 0 <= a < b < m1.len() implies m1[a].id
                        != m1[b].id by {
                        assert(m1[a].id == m0[a].id && m1[b].id == m0[b].id);
                    }
                }
                true
            },
        }
    }

    /// Removes the record with this id; reports whether one existed. A
    /// second call with the same id finds nothing and changes nothing.
    pub fn delete(&mut self, id: i64) -> (r: bool)
        requires
            store_wf(*old(self)),
        ensures
            store_wf(*final(self)),
            final(self).next_id == old(self).next_id,
            ({
                let m0 = store_model(*old(self));
                let k = find_id(m0, id as int);
                if k == -1 {
                    !r && *final(self) == *old(self)
                } else {
                    r && store_model(*final(self)) == m0.remove(k)
                }
            }),
    {
        let ghost m0 = store_model(*old(self));
        match self.find(id) {
            None => false,
            Some(k) => {
                proof {
                    lemma_find_from(m0, id as int, 0);
                }
                self.recs.remove(k);
                proof {
                    let m1 = store_model(*self);
                    assert(m1 =~= m0.remove(k as int));
                    assert forall|j: int| 0 <= j < m1.len() implies 1 <= #[trigger] m1[j].id
                        < self.next_id as int by {
                        if j < k {
                            assert(m1[j].id == m0[j].id);
                        } else {
                            assert(m1[j].id == m0[j + 1].id);
                        }
                    }
                    assert forall|a: int, b: int| 0 <= a < b < m1.len() implies m1[a].id
                        != m1[b].id by {
                        let a0 = if a < k { a } else { a + 1 };
                        let b0 = if b < k { b } else { b + 1 };
                        assert(m1[a].id == m0[a0].id && m1[b].id == m0[b0].id);
                    }
                }
                true
            },
        }
    }
}

} // verus!

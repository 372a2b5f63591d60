//! Spec-level vocabulary for tables of identity-addressed records.
//!
//! A table is modeled as a `Seq` of records in store order. The spec
//! functions here say what it means to look a record up by its surrogate
//! identity, and, for vote records, to select or delete by the composite
//! key `(parent, voter)`.

use vstd::prelude::*;

verus! {

/// A record the store addresses by a surrogate integer identity.
pub trait Record: Sized {
    /// The record's surrogate identity.
    spec fn rec_id(self) -> i32;

    /// The record's creation timestamp, assigned by the store.
    spec fn published_of(self) -> i64;
}

/// A vote-style child record, addressed by callers through the composite
/// key (parent record, voting user).
pub trait Vote: Record {
    /// Identity of the parent record this vote belongs to.
    spec fn parent_of(self) -> i32;

    /// Identity of the user who cast this vote.
    spec fn voter_of(self) -> i32;
}

/// No two records of the table share an identity.
pub open spec fn ids_unique<T: Record>(t: Seq<T>) -> bool {
    forall|i: int, j: int|
        0 <= i < j < t.len() ==> t[i].rec_id() != t[j].rec_id()
}

/// Every identity in the table was assigned from 1 up to, excluding, `bound`.
pub open spec fn ids_bounded<T: Record>(t: Seq<T>, bound: int) -> bool {
    forall|i: int| 0 <= i < t.len() ==> 1 <= #[trigger] t[i].rec_id() < bound
}

/// Index of the first record with identity `id`, or -1 if the table has none.
pub open spec fn index_of_id<T: Record>(t: Seq<T>, id: i32) -> int
    decreases t.len(),
{
    if t.len() == 0 {
        -1
    } else if t[0].rec_id() == id {
        0
    } else if index_of_id(t.drop_first(), id) < 0 {
        -1
    } else {
        index_of_id(t.drop_first(), id) + 1
    }
}

/// The record with identity `id`, if the table holds one.
pub open spec fn find_by_id<T: Record>(t: Seq<T>, id: i32) -> Option<T> {
    if index_of_id(t, id) < 0 {
        None
    } else {
        Some(t[index_of_id(t, id)])
    }
}

/// Some record of the table has identity `id`.
pub open spec fn has_id<T: Record>(t: Seq<T>, id: i32) -> bool {
    exists|i: int| 0 <= i < t.len() && t[i].rec_id() == id
}

/// All votes on parent `parent`, in store order.
pub open spec fn by_parent<T: Vote>(t: Seq<T>, parent: i32) -> Seq<T>
    decreases t.len(),
{
    if t.len() == 0 {
        Seq::empty()
    } else {
        let rest = by_parent(t.drop_last(), parent);
        if t.last().parent_of() == parent {
            rest.push(t.last())
        } else {
            rest
        }
    }
}

/// Whether a vote matches the composite key `(parent, voter)`.
pub open spec fn is_pair<T: Vote>(rec: T, parent: i32, voter: i32) -> bool {
    rec.parent_of() == parent && rec.voter_of() == voter
}

/// The table with every vote matching `(parent, voter)` deleted, in store order.
pub open spec fn without_pair<T: Vote>(t: Seq<T>, parent: i32, voter: i32) -> Seq<T>
    decreases t.len(),
{
    if t.len() == 0 {
        Seq::empty()
    } else {
        let rest = without_pair(t.drop_last(), parent, voter);
        if is_pair(t.last(), parent, voter) {
            rest
        } else {
            rest.push(t.last())
        }
    }
}

/// All votes matching `(parent, voter)`, in store order.
pub open spec fn select_pair<T: Vote>(t: Seq<T>, parent: i32, voter: i32) -> Seq<T>
    decreases t.len(),
{
    if t.len() == 0 {
        Seq::empty()
    } else {
        let rest = select_pair(t.drop_last(), parent, voter);
        if is_pair(t.last(), parent, voter) {
            rest.push(t.last())
        } else {
            rest
        }
    }
}

/// How many votes match `(parent, voter)`.
pub open spec fn count_pair<T: Vote>(t: Seq<T>, parent: i32, voter: i32) -> int
    decreases t.len(),
{
    if t.len() == 0 {
        0
    } else {
        count_pair(t.drop_last(), parent, voter) + (if is_pair(t.last(), parent, voter) {
            1int
        } else {
            0int
        })
    }
}

/// Basic facts about identity lookup: the result is a valid index or -1,
/// a non-negative result is the first index carrying `id`, and -1 means
/// no record carries `id`.
pub proof fn lemma_index_of_id_props<T: Record>(t: Seq<T>, id: i32)
    ensures
        -1 <= index_of_id(t, id) < t.len(),
        index_of_id(t, id) >= 0 ==> t[index_of_id(t, id)].rec_id() == id,
        index_of_id(t, id) < 0 ==> forall|i: int| 0 <= i < t.len() ==> t[i].rec_id() != id,
        forall|i: int| 0 <= i < index_of_id(t, id) ==> t[i].rec_id() != id,
    decreases t.len(),
{
    if t.len() > 0 && t[0].rec_id() != id {
        lemma_index_of_id_props(t.drop_first(), id);
        assert forall|i: int| 1 <= i < t.len() implies t.drop_first()[i - 1] == t[i] by {}
    }
}

/// A lookup lands on `i` exactly when `t[i]` carries `id` and no earlier
/// record does.
pub proof fn lemma_index_of_id_at<T: Record>(t: Seq<T>, id: i32, i: int)
    requires
        0 <= i < t.len(),
        t[i].rec_id() == id,
        forall|j: int| 0 <= j < i ==> t[j].rec_id() != id,
    ensures
        index_of_id(t, id) == i,
        find_by_id(t, id) == Some(t[i]),
{
    lemma_index_of_id_props(t, id);
    let r = index_of_id(t, id);
    if r < 0 {
        assert(t[i].rec_id() != id);
    } else if r < i {
        assert(t[r].rec_id() != id);
    } else if r > i {
        assert(t[i].rec_id() != id);
    }
}

/// Every identity a composite-key delete keeps comes from the table, so
/// uniqueness and the id bound carry over to the kept rows.
pub proof fn lemma_without_pair_ids<T: Vote>(t: Seq<T>, parent: i32, voter: i32, bound: int)
    requires
        ids_unique(t),
        ids_bounded(t, bound),
    ensures
        ids_unique(without_pair(t, parent, voter)),
        ids_bounded(without_pair(t, parent, voter), bound),
        forall|id: i32| has_id(without_pair(t, parent, voter), id) ==> has_id(t, id),
    decreases t.len(),
{
    if t.len() > 0 {
        let t1 = t.drop_last();
        let last = t.last();
        assert forall|i: int, j: int| 0 <= i < j < t1.len() implies t1[i].rec_id()
            != t1[j].rec_id() by {
            assert(t[i].rec_id() != t[j].rec_id());
        }
        assert forall|i: int| 0 <= i < t1.len() implies 1 <= #[trigger] t1[i].rec_id() < bound by {
            assert(1 <= t[i].rec_id() < bound);
        }
        lemma_without_pair_ids(t1, parent, voter, bound);
        let w1 = without_pair(t1, parent, voter);
        let w = without_pair(t, parent, voter);
        assert forall|id: i32| has_id(t1, id) implies has_id(t, id) by {
            let k = choose|k: int| 0 <= k < t1.len() && t1[k].rec_id() == id;
            assert(t[k].rec_id() == id);
        }
        if is_pair(last, parent, voter) {
            assert(w == w1);
        } else {
            assert(w == w1.push(last));
            assert forall|i: int| 0 <= i < w1.len() implies w1[i].rec_id() != last.rec_id() by {
                if w1[i].rec_id() == last.rec_id() {
                    assert(has_id(w1, last.rec_id()));
                    assert(has_id(t1, last.rec_id()));
                    let k = choose|k: int| 0 <= k < t1.len() && t1[k].rec_id() == last.rec_id();
                    assert(t[k].rec_id() == t[t.len() - 1].rec_id());
                }
            }
            assert forall|i: int, j: int| 0 <= i < j < w.len() implies w[i].rec_id()
                != w[j].rec_id() by {
                if j < w1.len() {
                    assert(w[i] == w1[i] && w[j] == w1[j]);
                } else {
                    assert(w[j] == last && w[i] == w1[i]);
                }
            }
            assert forall|i: int| 0 <= i < w.len() implies 1 <= #[trigger] w[i].rec_id()
                < bound by {
                if i < w1.len() {
                    assert(1 <= w1[i].rec_id() < bound);
                } else {
                    assert(w[i] == last);
                    assert(1 <= t[t.len() - 1].rec_id() < bound);
                }
            }
            assert forall|id: i32| has_id(w, id) implies has_id(t, id) by {
                let k = choose|k: int| 0 <= k < w.len() && w[k].rec_id() == id;
                if k < w1.len() {
                    assert(w1[k].rec_id() == id);
                    assert(has_id(w1, id));
                } else {
                    assert(t[t.len() - 1].rec_id() == id);
                }
            }
        }
    }
}

/// Appending a record with a fresh identity makes it the one found under
/// that identity.
pub proof fn lemma_index_of_id_push_fresh<T: Record>(t: Seq<T>, rec: T)
    requires
        forall|i: int| 0 <= i < t.len() ==> t[i].rec_id() != rec.rec_id(),
    ensures
        index_of_id(t.push(rec), rec.rec_id()) == t.len(),
        find_by_id(t.push(rec), rec.rec_id()) == Some(rec),
{
    assert(t.push(rec)[t.len() as int] == rec);
    lemma_index_of_id_at(t.push(rec), rec.rec_id(), t.len() as int);
}

} // verus!

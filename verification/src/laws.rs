//! Laws of the store operations, proved once for every session state over
//! the spec functions the operation contracts are stated with.

use vstd::prelude::*;

use crate::db::Db;
use crate::post::{like_inserted, post_inserted, post_replaced, PostForm, PostLikeForm};
use crate::record::{
    by_parent, count_pair, find_by_id, ids_unique, index_of_id, is_pair,
    lemma_index_of_id_props, lemma_index_of_id_push_fresh, select_pair, without_pair, Record,
    Vote,
};

verus! {

/// Round trip: creating a post and then reading the identity the store
/// assigned finds exactly the created record, timestamps included, since
/// both sides are the same materialized row.
pub proof fn lemma_create_then_read(conn: Db, form: PostForm)
    requires
        conn.inv(),
        conn.next_post_id < i32::MAX,
    ensures
        ({
            let created = post_inserted(form, conn.next_post_id, conn.now);
            find_by_id(conn.posts@.push(created), created.id) == Some(created)
        }),
{
    let created = post_inserted(form, conn.next_post_id, conn.now);
    assert forall|i: int| 0 <= i < conn.posts@.len() implies conn.posts@[i].rec_id()
        != created.rec_id() by {
        assert(1 <= conn.posts@[i].rec_id() < conn.next_post_id as int);
    }
    lemma_index_of_id_push_fresh(conn.posts@, created);
}

/// Update overwrite: updating the record just created addresses that
/// record, and the result's fields equal the new form's values exactly —
/// unset optionals included — while the identity and the creation
/// timestamp stay what creation assigned.
pub proof fn lemma_update_overwrites(conn: Db, form1: PostForm, form2: PostForm)
    requires
        conn.inv(),
        conn.next_post_id < i32::MAX,
    ensures
        ({
            let created = post_inserted(form1, conn.next_post_id, conn.now);
            let table = conn.posts@.push(created);
            let updated = post_replaced(form2, created.id, created.published);
            &&& index_of_id(table, created.id) == conn.posts@.len()
            &&& table[index_of_id(table, created.id)] == created
            &&& updated.id == created.id
            &&& updated.published == created.published
            &&& updated.name == form2.name
            &&& updated.url == form2.url
            &&& updated.body == form2.body
            &&& updated.creator_id == form2.creator_id
            &&& updated.community_id == form2.community_id
            &&& updated.removed == form2.removed
            &&& updated.locked == form2.locked
            &&& updated.updated == form2.updated
        }),
{
    let created = post_inserted(form1, conn.next_post_id, conn.now);
    assert forall|i: int| 0 <= i < conn.posts@.len() implies conn.posts@[i].rec_id()
        != created.rec_id() by {
        assert(1 <= conn.posts@[i].rec_id() < conn.next_post_id as int);
    }
    lemma_index_of_id_push_fresh(conn.posts@, created);
}

/// Like is append-only: casting the same form twice yields two rows whose
/// identities differ, and a read by the parent identity returns both.
pub proof fn lemma_like_append_only(conn: Db, form: PostLikeForm)
    requires
        conn.inv(),
        conn.next_post_like_id + 1 < i32::MAX,
    ensures
        ({
            let first = like_inserted(form, conn.next_post_like_id, conn.now);
            let second = like_inserted(form, (conn.next_post_like_id + 1) as i32, conn.now);
            let table = conn.post_likes@.push(first).push(second);
            &&& first.id != second.id
            &&& table.len() == conn.post_likes@.len() + 2
            &&& by_parent(table, form.post_id).contains(first)
            &&& by_parent(table, form.post_id).contains(second)
        }),
{
    let first = like_inserted(form, conn.next_post_like_id, conn.now);
    let second = like_inserted(form, (conn.next_post_like_id + 1) as i32, conn.now);
    let t0 = conn.post_likes@;
    let t1 = t0.push(first);
    let t2 = t1.push(second);
    assert(t1.drop_last() =~= t0);
    assert(t1.last() == first);
    assert(t2.drop_last() =~= t1);
    assert(t2.last() == second);
    let b1 = by_parent(t1, form.post_id);
    let b2 = by_parent(t2, form.post_id);
    assert(b2 == b1.push(second));
    assert(b1 == by_parent(t0, form.post_id).push(first));
    assert(b2[b2.len() - 2] == first);
    assert(b2[b2.len() - 1] == second);
}

/// Delete leaves no record under the removed identity: a read of that
/// identity right after a delete fails not-found.
pub proof fn lemma_delete_then_read_fails<T: Record>(t: Seq<T>, i: int)
    requires
        ids_unique(t),
        0 <= i < t.len(),
    ensures
        find_by_id(t.remove(i), t[i].rec_id()) is None,
{
    let id = t[i].rec_id();
    let kept = t.remove(i);
    t.remove_ensures(i);
    lemma_index_of_id_props(kept, id);
    let k = index_of_id(kept, id);
    if k >= 0 {
        if k < i {
            assert(kept[k] == t[k]);
            assert(t[k].rec_id() != t[i].rec_id());
        } else {
            assert(kept[k] == t[k + 1]);
            assert(t[i].rec_id() != t[k + 1].rec_id());
        }
    }
}

/// Composite remove deletes every row matching the addressed pair: none
/// is left among the kept rows.
pub proof fn lemma_remove_removes_pair<T: Vote>(t: Seq<T>, parent: i32, voter: i32)
    ensures
        count_pair(without_pair(t, parent, voter), parent, voter) == 0,
    decreases t.len(),
{
    if t.len() > 0 {
        lemma_remove_removes_pair(t.drop_last(), parent, voter);
        if !is_pair(t.last(), parent, voter) {
            let w = without_pair(t, parent, voter);
            assert(w.drop_last() =~= without_pair(t.drop_last(), parent, voter));
            assert(w.last() == t.last());
        }
    }
}

/// Composite remove leaves any other user's rows on the same parent
/// untouched, unchanged and in store order.
pub proof fn lemma_remove_leaves_other_voters<T: Vote>(
    t: Seq<T>,
    parent: i32,
    voter: i32,
    other: i32,
)
    requires
        other != voter,
    ensures
        select_pair(without_pair(t, parent, voter), parent, other) == select_pair(
            t,
            parent,
            other,
        ),
    decreases t.len(),
{
    if t.len() > 0 {
        lemma_remove_leaves_other_voters(t.drop_last(), parent, voter, other);
        if !is_pair(t.last(), parent, voter) {
            let w = without_pair(t, parent, voter);
            assert(w.drop_last() =~= without_pair(t.drop_last(), parent, voter));
            assert(w.last() == t.last());
        }
    }
}

/// Composite remove leaves every row of any other parent untouched,
/// unchanged and in store order.
pub proof fn lemma_remove_leaves_other_posts<T: Vote>(
    t: Seq<T>,
    parent: i32,
    voter: i32,
    other: i32,
)
    requires
        other != parent,
    ensures
        by_parent(without_pair(t, parent, voter), other) == by_parent(t, other),
    decreases t.len(),
{
    if t.len() > 0 {
        lemma_remove_leaves_other_posts(t.drop_last(), parent, voter, other);
        if !is_pair(t.last(), parent, voter) {
            let w = without_pair(t, parent, voter);
            assert(w.drop_last() =~= without_pair(t.drop_last(), parent, voter));
            assert(w.last() == t.last());
        }
    }
}

} // verus!

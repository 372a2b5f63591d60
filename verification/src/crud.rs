//! The two store capabilities, stated once for every entity pair.
//!
//! Each contract is phrased over the implementing type's table inside the
//! session, so that a new entity plugs into the same access pattern by
//! naming its table, its id sequence, and what the store materializes
//! from its form.

use vstd::prelude::*;

use crate::db::{Db, Error};
use crate::record::{by_parent, count_pair, find_by_id, index_of_id, without_pair, Record, Vote};

verus! {

/// Lifecycle operations (create, read, update, delete) for an
/// identity-addressed record type, parameterized by the form type that
/// carries caller intent.
pub trait Crud<Form>: Record {
    /// The table of the session that holds records of this type.
    spec fn table(db: Db) -> Seq<Self>;

    /// The identity the table's sequence will assign to the next created
    /// record.
    spec fn next_id(db: Db) -> i32;

    /// The record the store materializes when `form` is inserted, with
    /// `id` and `published` assigned by the store.
    spec fn inserted(form: Form, id: i32, published: i64) -> Self;

    /// The record after a whole-form update by `form`, keeping the
    /// addressed identity and the stored creation timestamp.
    spec fn replaced(form: Form, id: i32, published: i64) -> Self;

    /// Everything in the session outside this type's table and id
    /// sequence (including the clock) is the same in `pre` and `post`.
    spec fn rest_unchanged(pre: Db, post: Db) -> bool;

    /// Inserts a new record built from `form`; the store assigns the next
    /// identity and stamps the clock. Fails exactly when the id sequence
    /// is exhausted, leaving the session unchanged.
    fn create(conn: &mut Db, form: &Form) -> (r: Result<Self, Error>)
        requires
            old(conn).inv(),
        ensures
            final(conn).inv(),
            r is Ok <==> Self::next_id(*old(conn)) < i32::MAX,
            (match r {
                Ok(rec) => {
                    &&& rec == Self::inserted(*form, Self::next_id(*old(conn)), old(conn).now)
                    &&& rec.rec_id() == Self::next_id(*old(conn))
                    &&& Self::table(*final(conn)) == Self::table(*old(conn)).push(rec)
                    &&& Self::next_id(*final(conn)) == Self::next_id(*old(conn)) + 1
                    &&& Self::rest_unchanged(*old(conn), *final(conn))
                },
                Err(e) => e == Error::ConstraintViolation && *final(conn) == *old(conn),
            }),
    ;

    /// Fetches the one record holding identity `id`, or fails not-found.
    fn read(conn: &Db, id: i32) -> (r: Result<Self, Error>)
        requires
            conn.inv(),
        ensures
            r is Ok <==> find_by_id(Self::table(*conn), id) is Some,
            (match r {
                Ok(rec) => find_by_id(Self::table(*conn), id) == Some(rec),
                Err(e) => e == Error::NotFound,
            }),
    ;

    /// Overwrites the addressed record's mutable fields with `form`'s
    /// values (whole-form replace, not a partial patch) and returns the
    /// updated record. Fails not-found, leaving the session unchanged, if
    /// no record holds `id`.
    fn update(conn: &mut Db, id: i32, form: &Form) -> (r: Result<Self, Error>)
        requires
            old(conn).inv(),
        ensures
            final(conn).inv(),
            r is Ok <==> index_of_id(Self::table(*old(conn)), id) >= 0,
            (match r {
                Ok(rec) => ({
                    let t0 = Self::table(*old(conn));
                    let i = index_of_id(t0, id);
                    &&& rec == Self::replaced(*form, id, t0[i].published_of())
                    &&& Self::table(*final(conn)) == t0.update(i, rec)
                    &&& Self::next_id(*final(conn)) == Self::next_id(*old(conn))
                    &&& Self::rest_unchanged(*old(conn), *final(conn))
                }),
                Err(e) => e == Error::NotFound && *final(conn) == *old(conn),
            }),
    ;

    /// Removes the addressed record and returns how many rows that was:
    /// 1, or 0 if no record holds `id` — a no-op delete is not an error.
    fn delete(conn: &mut Db, id: i32) -> (r: Result<usize, Error>)
        requires
            old(conn).inv(),
        ensures
            final(conn).inv(),
            r is Ok,
            (match r {
                Ok(n) => ({
                    let t0 = Self::table(*old(conn));
                    let i = index_of_id(t0, id);
                    &&& i < 0 ==> n == 0 && *final(conn) == *old(conn)
                    &&& i >= 0 ==> {
                        &&& n == 1
                        &&& Self::table(*final(conn)) == t0.remove(i)
                        &&& Self::next_id(*final(conn)) == Self::next_id(*old(conn))
                        &&& Self::rest_unchanged(*old(conn), *final(conn))
                    }
                }),
                Err(_) => true,
            }),
    ;
}

/// Vote operations (read by parent, like, remove by composite key) for a
/// vote-style child record type, parameterized by its form.
pub trait Likeable<Form>: Vote {
    /// The table of the session that holds records of this type.
    spec fn table(db: Db) -> Seq<Self>;

    /// The identity the table's sequence will assign to the next cast vote.
    spec fn next_id(db: Db) -> i32;

    /// The record the store materializes when `form` is inserted, with
    /// `id` and `published` assigned by the store.
    spec fn inserted(form: Form, id: i32, published: i64) -> Self;

    /// The parent identity the form addresses.
    spec fn form_parent(form: Form) -> i32;

    /// The voting user the form addresses.
    spec fn form_voter(form: Form) -> i32;

    /// Everything in the session outside this type's table and id
    /// sequence (including the clock) is the same in `pre` and `post`.
    spec fn rest_unchanged(pre: Db, post: Db) -> bool;

    /// Returns all vote records for the given parent identity, in store
    /// order.
    fn read(conn: &Db, parent_id: i32) -> (r: Result<Vec<Self>, Error>)
        requires
            conn.inv(),
        ensures
            r is Ok,
            (match r {
                Ok(recs) => recs@ == by_parent(Self::table(*conn), parent_id),
                Err(_) => true,
            }),
    ;

    /// Inserts a new vote built from `form` — append-only: no existence
    /// check is made for the composite key, so a second identical form
    /// yields a second row. Fails exactly when the id sequence is
    /// exhausted, leaving the session unchanged.
    fn like(conn: &mut Db, form: &Form) -> (r: Result<Self, Error>)
        requires
            old(conn).inv(),
        ensures
            final(conn).inv(),
            r is Ok <==> Self::next_id(*old(conn)) < i32::MAX,
            (match r {
                Ok(rec) => {
                    &&& rec == Self::inserted(*form, Self::next_id(*old(conn)), old(conn).now)
                    &&& rec.rec_id() == Self::next_id(*old(conn))
                    &&& rec.parent_of() == Self::form_parent(*form)
                    &&& rec.voter_of() == Self::form_voter(*form)
                    &&& Self::table(*final(conn)) == Self::table(*old(conn)).push(rec)
                    &&& Self::next_id(*final(conn)) == Self::next_id(*old(conn)) + 1
                    &&& Self::rest_unchanged(*old(conn), *final(conn))
                },
                Err(e) => e == Error::ConstraintViolation && *final(conn) == *old(conn),
            }),
    ;

    /// Deletes every vote matching both the parent and the voter of
    /// `form` (a composite-key delete) and returns how many rows that
    /// was; zero is not an error.
    fn remove(conn: &mut Db, form: &Form) -> (r: Result<usize, Error>)
        requires
            old(conn).inv(),
        ensures
            final(conn).inv(),
            r is Ok,
            (match r {
                Ok(n) => ({
                    let t0 = Self::table(*old(conn));
                    let p = Self::form_parent(*form);
                    let v = Self::form_voter(*form);
                    &&& Self::table(*final(conn)) == without_pair(t0, p, v)
                    &&& n == count_pair(t0, p, v)
                    &&& Self::next_id(*final(conn)) == Self::next_id(*old(conn))
                    &&& Self::rest_unchanged(*old(conn), *final(conn))
                }),
                Err(_) => true,
            }),
    ;
}

} // verus!

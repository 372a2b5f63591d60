//! The relational store as a value: the two tables this layer owns, the
//! id sequence of each, and the store clock.

use vstd::prelude::*;

use crate::post::{Post, PostLike};
use crate::record::{ids_bounded, ids_unique};

verus! {

/// The error a store operation surfaces.
#[derive(Clone, Copy, Debug, PartialEq, Eq, Structural)]
pub enum Error {
    /// A read or update addressed an identity no record holds.
    NotFound,
    /// An insert violated a store constraint (here: the id sequence of the
    /// addressed table is exhausted).
    ConstraintViolation,
}

/// An open store session: the post and like tables, the next identity
/// each table's sequence will assign, and the clock whose value the store
/// stamps on created records.
///
/// Operations borrow a session exclusively for the duration of one call
/// and never hold state of their own across calls.
pub struct Db {
    pub posts: Vec<Post>,
    pub post_likes: Vec<PostLike>,
    pub next_post_id: i32,
    pub next_post_like_id: i32,
    pub now: i64,
}

impl Db {
    /// Well-formedness of a session: identities are assigned from 1,
    /// never reused, and always below the table's next sequence value.
    pub open spec fn inv(self) -> bool {
        &&& 1 <= self.next_post_id
        &&& 1 <= self.next_post_like_id
        &&& ids_unique(self.posts@)
        &&& ids_bounded(self.posts@, self.next_post_id as int)
        &&& ids_unique(self.post_likes@)
        &&& ids_bounded(self.post_likes@, self.next_post_like_id as int)
    }

    /// A fresh session over an empty store, with both id sequences at 1
    /// and the clock at 0.
    pub fn new() -> (db: Db)
        ensures
            db.inv(),
            db.posts@.len() == 0,
            db.post_likes@.len() == 0,
            db.next_post_id == 1,
            db.next_post_like_id == 1,
            db.now == 0,
    {
        Db {
            posts: Vec::new(),
            post_likes: Vec::new(),
            next_post_id: 1,
            next_post_like_id: 1,
            now: 0,
        }
    }
}

} // verus!

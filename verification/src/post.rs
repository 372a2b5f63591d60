//! The content post and per-user like entities, their forms, and their
//! verified implementations of the two store capabilities.
//!
//! Timestamps are plain integers: seconds since the epoch as the store
//! clock hands them out. Converting to and from a calendar representation
//! is the caller's concern, outside this layer.

use vstd::prelude::*;

use crate::crud::{Crud, Likeable};
use crate::db::{Db, Error};
use crate::record::{
    by_parent, count_pair, index_of_id, lemma_index_of_id_at, lemma_index_of_id_props,
    lemma_without_pair_ids, without_pair, Record, Vote,
};

verus! {

/// A stored content post: the store's ground truth for one row of the
/// post table, including its assigned identity and creation timestamp.
#[derive(Debug, PartialEq, Eq)]
pub struct Post {
    pub id: i32,
    pub name: String,
    pub url: Option<String>,
    pub body: Option<String>,
    pub creator_id: i32,
    pub community_id: i32,
    pub removed: Option<bool>,
    pub locked: Option<bool>,
    pub published: i64,
    pub updated: Option<i64>,
}

/// The caller-supplied payload for creating or updating a post: every
/// post field except the store-assigned identity and creation timestamp.
#[derive(Debug, PartialEq, Eq)]
pub struct PostForm {
    pub name: String,
    pub url: Option<String>,
    pub body: Option<String>,
    pub creator_id: i32,
    pub community_id: i32,
    pub removed: Option<bool>,
    pub locked: Option<bool>,
    pub updated: Option<i64>,
}

/// A stored like: one user's scored vote on one post.
#[derive(Clone, Copy, Debug, PartialEq, Eq, Structural)]
pub struct PostLike {
    pub id: i32,
    pub post_id: i32,
    pub user_id: i32,
    pub score: i16,
    pub published: i64,
}

/// The caller-supplied payload for casting or removing a like; the pair
/// `(post_id, user_id)` is its natural composite key.
#[derive(Clone, Copy, Debug, PartialEq, Eq, Structural)]
pub struct PostLikeForm {
    pub post_id: i32,
    pub user_id: i32,
    pub score: i16,
}

impl Record for Post {
    open spec fn rec_id(self) -> i32 {
        self.id
    }

    open spec fn published_of(self) -> i64 {
        self.published
    }
}

impl Record for PostLike {
    open spec fn rec_id(self) -> i32 {
        self.id
    }

    open spec fn published_of(self) -> i64 {
        self.published
    }
}

impl Vote for PostLike {
    open spec fn parent_of(self) -> i32 {
        self.post_id
    }

    open spec fn voter_of(self) -> i32 {
        self.user_id
    }
}

/// The optional flag as the store writes it on insert: its column default
/// turns an absent flag into an explicit `false`.
pub open spec fn flag_on_insert(flag: Option<bool>) -> Option<bool> {
    match flag {
        Some(b) => Some(b),
        None => Some(false),
    }
}

/// The post the store materializes when `form` is inserted: identity and
/// creation timestamp assigned by the store, absent flags normalized to
/// `Some(false)` by the column defaults.
pub open spec fn post_inserted(form: PostForm, id: i32, published: i64) -> Post {
    Post {
        id,
        name: form.name,
        url: form.url,
        body: form.body,
        creator_id: form.creator_id,
        community_id: form.community_id,
        removed: flag_on_insert(form.removed),
        locked: flag_on_insert(form.locked),
        published,
        updated: form.updated,
    }
}

/// The post after a whole-form update: every form field, including unset
/// optionals, overwrites the stored value; identity and creation timestamp
/// are kept.
pub open spec fn post_replaced(form: PostForm, id: i32, published: i64) -> Post {
    Post {
        id,
        name: form.name,
        url: form.url,
        body: form.body,
        creator_id: form.creator_id,
        community_id: form.community_id,
        removed: form.removed,
        locked: form.locked,
        published,
        updated: form.updated,
    }
}

/// The like the store materializes when `form` is inserted.
pub open spec fn like_inserted(form: PostLikeForm, id: i32, published: i64) -> PostLike {
    PostLike {
        id,
        post_id: form.post_id,
        user_id: form.user_id,
        score: form.score,
        published,
    }
}

fn clone_opt_string(s: &Option<String>) -> (res: Option<String>)
    ensures
        res == *s,
{
    match s {
        Some(x) => Some(x.clone()),
        None => None,
    }
}

impl Clone for Post {
    fn clone(&self) -> (res: Self)
        ensures
            res == *self,
    {
        Post {
            id: self.id,
            name: self.name.clone(),
            url: clone_opt_string(&self.url),
            body: clone_opt_string(&self.body),
            creator_id: self.creator_id,
            community_id: self.community_id,
            removed: self.removed,
            locked: self.locked,
            published: self.published,
            updated: self.updated,
        }
    }
}

impl Crud<PostForm> for Post {
    open spec fn table(db: Db) -> Seq<Post> {
        db.posts@
    }

    open spec fn next_id(db: Db) -> i32 {
        db.next_post_id
    }

    open spec fn inserted(form: PostForm, id: i32, published: i64) -> Post {
        post_inserted(form, id, published)
    }

    open spec fn replaced(form: PostForm, id: i32, published: i64) -> Post {
        post_replaced(form, id, published)
    }

    open spec fn rest_unchanged(pre: Db, post: Db) -> bool {
        &&& post.post_likes@ == pre.post_likes@
        &&& post.next_post_like_id == pre.next_post_like_id
        &&& post.now == pre.now
    }

    fn create(conn: &mut Db, form: &PostForm) -> Result<Post, Error> {
        if conn.next_post_id == i32::MAX {
            return Err(Error::ConstraintViolation);
        }
        let rec = Post {
            id: conn.next_post_id,
            name: form.name.clone(),
            url: clone_opt_string(&form.url),
            body: clone_opt_string(&form.body),
            creator_id: form.creator_id,
            community_id: form.community_id,
            removed: Some(match form.removed {
                Some(b) => b,
                None => false,
            }),
            locked: Some(match form.locked {
                Some(b) => b,
                None => false,
            }),
            published: conn.now,
            updated: form.updated,
        };
        let stored = rec.clone();
        conn.posts.push(stored);
        conn.next_post_id = conn.next_post_id + 1;
        proof {
            let t0 = old(conn).posts@;
            let t1 = conn.posts@;
            assert(t1 == t0.push(rec));
            assert forall|i: int, j: int| 0 <= i < j < t1.len() implies t1[i].rec_id()
                != t1[j].rec_id() by {
                if j < t0.len() {
                } else {
                    assert(t0[i].rec_id() < old(conn).next_post_id as int);
                }
            }
            assert forall|i: int| 0 <= i < t1.len() implies 1 <= #[trigger] t1[i].rec_id()
                < conn.next_post_id as int by {
                if i < t0.len() {
                    assert(1 <= t0[i].rec_id() < old(conn).next_post_id as int);
                }
            }
        }
        Ok(rec)
    }

    #[verifier::loop_isolation(false)]
    fn read(conn: &Db, id: i32) -> Result<Post, Error> {
        let n = conn.posts.len();
        let mut i: usize = 0;
        while i < n
            invariant
                i <= n,
                forall|j: int| 0 <= j < i ==> conn.posts@[j].rec_id() != id,
            decreases n - i,
        {
            if conn.posts[i].id == id {
                proof {
                    lemma_index_of_id_at(conn.posts@, id, i as int);
                }
                return Ok(conn.posts[i].clone());
            }
            i = i + 1;
        }
        proof {
            lemma_index_of_id_props(conn.posts@, id);
            if index_of_id(conn.posts@, id) >= 0 {
                assert(conn.posts@[index_of_id(conn.posts@, id)].rec_id() == id);
            }
        }
        Err(Error::NotFound)
    }

    #[verifier::loop_isolation(false)]
    fn update(conn: &mut Db, id: i32, form: &PostForm) -> Result<Post, Error> {
        let n = conn.posts.len();
        let mut i: usize = 0;
        while i < n
            invariant
                i <= n,
                *conn == *old(conn),
                forall|j: int| 0 <= j < i ==> conn.posts@[j].rec_id() != id,
            decreases n - i,
        {
            if conn.posts[i].id == id {
                proof {
                    lemma_index_of_id_at(conn.posts@, id, i as int);
                }
                let published0 = conn.posts[i].published;
                let rec = Post {
                    id,
                    name: form.name.clone(),
                    url: clone_opt_string(&form.url),
                    body: clone_opt_string(&form.body),
                    creator_id: form.creator_id,
                    community_id: form.community_id,
                    removed: form.removed,
                    locked: form.locked,
                    published: published0,
                    updated: form.updated,
                };
                let stored = rec.clone();
                let _prev = conn.posts.remove(i);
                conn.posts.insert(i, stored);
                proof {
                    let t0 = old(conn).posts@;
                    let t1 = conn.posts@;
                    t0.remove_ensures(i as int);
                    t0.remove(i as int).insert_ensures(i as int, rec);
                    assert forall|k: int| 0 <= k < t0.len() implies t1[k] == t0.update(
                        i as int,
                        rec,
                    )[k] by {
                        if k < i as int {
                            assert(t1[k] == t0.remove(i as int)[k]);
                        } else if k > i as int {
                            assert(t1[k] == t0.remove(i as int)[k - 1]);
                            assert(t0.remove(i as int)[k - 1] == t0[k]);
                        }
                    }
                    assert(t1 =~= t0.update(i as int, rec));
                    assert forall|a: int, b: int| 0 <= a < b < t1.len() implies t1[a].rec_id()
                        != t1[b].rec_id() by {
                        assert(t0[a].rec_id() != t0[b].rec_id());
                    }
                    assert forall|a: int| 0 <= a < t1.len() implies 1 <= #[trigger] t1[a].rec_id()
                        < conn.next_post_id as int by {
                        assert(1 <= t0[a].rec_id() < old(conn).next_post_id as int);
                    }
                }
                return Ok(rec);
            }
            i = i + 1;
        }
        proof {
            lemma_index_of_id_props(conn.posts@, id);
            if index_of_id(conn.posts@, id) >= 0 {
                assert(conn.posts@[index_of_id(conn.posts@, id)].rec_id() == id);
            }
        }
        Err(Error::NotFound)
    }

    #[verifier::loop_isolation(false)]
    fn delete(conn: &mut Db, id: i32) -> Result<usize, Error> {
        let n = conn.posts.len();
        let mut i: usize = 0;
        while i < n
            invariant
                i <= n,
                *conn == *old(conn),
                forall|j: int| 0 <= j < i ==> conn.posts@[j].rec_id() != id,
            decreases n - i,
        {
            if conn.posts[i].id == id {
                proof {
                    lemma_index_of_id_at(conn.posts@, id, i as int);
                }
                let _prev = conn.posts.remove(i);
                proof {
                    let t0 = old(conn).posts@;
                    let t1 = conn.posts@;
                    t0.remove_ensures(i as int);
                    assert forall|a: int, b: int| 0 <= a < b < t1.len() implies t1[a].rec_id()
                        != t1[b].rec_id() by {
                        let a0: int = if a < i as int {
                            a
                        } else {
                            a + 1
                        };
                        let b0: int = if b < i as int {
                            b
                        } else {
                            b + 1
                        };
                        assert(t1[a] == t0[a0]);
                        assert(t1[b] == t0[b0]);
                        assert(t0[a0].rec_id() != t0[b0].rec_id());
                    }
                    assert forall|a: int| 0 <= a < t1.len() implies 1 <= #[trigger] t1[a].rec_id()
                        < conn.next_post_id as int by {
                        let a0: int = if a < i as int {
                            a
                        } else {
                            a + 1
                        };
                        assert(t1[a] == t0[a0]);
                        assert(1 <= t0[a0].rec_id() < old(conn).next_post_id as int);
                    }
                }
                return Ok(1);
            }
            i = i + 1;
        }
        proof {
            lemma_index_of_id_props(conn.posts@, id);
            if index_of_id(conn.posts@, id) >= 0 {
                assert(conn.posts@[index_of_id(conn.posts@, id)].rec_id() == id);
            }
        }
        Ok(0)
    }
}

impl Likeable<PostLikeForm> for PostLike {
    open spec fn table(db: Db) -> Seq<PostLike> {
        db.post_likes@
    }

    open spec fn next_id(db: Db) -> i32 {
        db.next_post_like_id
    }

    open spec fn inserted(form: PostLikeForm, id: i32, published: i64) -> PostLike {
        like_inserted(form, id, published)
    }

    open spec fn form_parent(form: PostLikeForm) -> i32 {
        form.post_id
    }

    open spec fn form_voter(form: PostLikeForm) -> i32 {
        form.user_id
    }

    open spec fn rest_unchanged(pre: Db, post: Db) -> bool {
        &&& post.posts@ == pre.posts@
        &&& post.next_post_id == pre.next_post_id
        &&& post.now == pre.now
    }

    #[verifier::loop_isolation(false)]
    fn read(conn: &Db, parent_id: i32) -> Result<Vec<PostLike>, Error> {
        let n = conn.post_likes.len();
        let mut out: Vec<PostLike> = Vec::new();
        let mut i: usize = 0;
        while i < n
            invariant
                i <= n,
                out@ == by_parent(conn.post_likes@.subrange(0, i as int), parent_id),
            decreases n - i,
        {
            let rec = conn.post_likes[i];
            proof {
                let t = conn.post_likes@;
                assert(t.subrange(0, i as int + 1).drop_last() =~= t.subrange(0, i as int));
                assert(t.subrange(0, i as int + 1).last() == t[i as int]);
            }
            if rec.post_id == parent_id {
                out.push(rec);
            }
            i = i + 1;
        }
        proof {
            assert(conn.post_likes@.subrange(0, n as int) =~= conn.post_likes@);
        }
        Ok(out)
    }

    fn like(conn: &mut Db, form: &PostLikeForm) -> Result<PostLike, Error> {
        if conn.next_post_like_id == i32::MAX {
            return Err(Error::ConstraintViolation);
        }
        let rec = PostLike {
            id: conn.next_post_like_id,
            post_id: form.post_id,
            user_id: form.user_id,
            score: form.score,
            published: conn.now,
        };
        conn.post_likes.push(rec);
        conn.next_post_like_id = conn.next_post_like_id + 1;
        proof {
            let t0 = old(conn).post_likes@;
            let t1 = conn.post_likes@;
            assert(t1 == t0.push(rec));
            assert forall|i: int, j: int| 0 <= i < j < t1.len() implies t1[i].rec_id()
                != t1[j].rec_id() by {
                if j < t0.len() {
                } else {
                    assert(t0[i].rec_id() < old(conn).next_post_like_id as int);
                }
            }
            assert forall|i: int| 0 <= i < t1.len() implies 1 <= #[trigger] t1[i].rec_id()
                < conn.next_post_like_id as int by {
                if i < t0.len() {
                    assert(1 <= t0[i].rec_id() < old(conn).next_post_like_id as int);
                }
            }
        }
        Ok(rec)
    }

    #[verifier::loop_isolation(false)]
    fn remove(conn: &mut Db, form: &PostLikeForm) -> Result<usize, Error> {
        let n = conn.post_likes.len();
        let mut kept: Vec<PostLike> = Vec::new();
        let mut removed: usize = 0;
        let mut i: usize = 0;
        while i < n
            invariant
                i <= n,
                *conn == *old(conn),
                removed <= i,
                kept@ == without_pair(
                    conn.post_likes@.subrange(0, i as int),
                    form.post_id,
                    form.user_id,
                ),
                removed as int == count_pair(
                    conn.post_likes@.subrange(0, i as int),
                    form.post_id,
                    form.user_id,
                ),
            decreases n - i,
        {
            let rec = conn.post_likes[i];
            proof {
                let t = conn.post_likes@;
                assert(t.subrange(0, i as int + 1).drop_last() =~= t.subrange(0, i as int));
                assert(t.subrange(0, i as int + 1).last() == t[i as int]);
            }
            if rec.post_id == form.post_id && rec.user_id == form.user_id {
                removed = removed + 1;
            } else {
                kept.push(rec);
            }
            i = i + 1;
        }
        proof {
            assert(conn.post_likes@.subrange(0, n as int) =~= conn.post_likes@);
            lemma_without_pair_ids(
                conn.post_likes@,
                form.post_id,
                form.user_id,
                conn.next_post_like_id as int,
            );
        }
        conn.post_likes = kept;
        Ok(removed)
    }
}

impl Clone for PostForm {
    fn clone(&self) -> (res: Self)
        ensures
            res == *self,
    {
        PostForm {
            name: self.name.clone(),
            url: clone_opt_string(&self.url),
            body: clone_opt_string(&self.body),
            creator_id: self.creator_id,
            community_id: self.community_id,
            removed: self.removed,
            locked: self.locked,
            updated: self.updated,
        }
    }
}

} // verus!

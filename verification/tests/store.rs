use post_store::crud::{Crud, Likeable};
use post_store::db::{Db, Error};
use post_store::post::{Post, PostForm, PostLike, PostLikeForm};

fn sample_form(creator_id: i32, community_id: i32) -> PostForm {
    PostForm {
        name: "A test post".into(),
        url: None,
        body: None,
        creator_id,
        community_id,
        removed: None,
        locked: None,
        updated: None,
    }
}

#[test]
fn test_crud() {
    let mut conn = Db::new();

    // The user and community entities live outside this layer and enter
    // it only as foreign references.
    let inserted_user_id = 1;
    let inserted_community_id = 1;

    let new_post = sample_form(inserted_user_id, inserted_community_id);

    let inserted_post = Post::create(&mut conn, &new_post).unwrap();

    let expected_post = Post {
        id: inserted_post.id,
        name: "A test post".into(),
        url: None,
        body: None,
        creator_id: inserted_user_id,
        community_id: inserted_community_id,
        published: inserted_post.published,
        removed: Some(false),
        locked: Some(false),
        updated: None,
    };

    let post_like_form = PostLikeForm {
        post_id: inserted_post.id,
        user_id: inserted_user_id,
        score: 1,
    };

    let inserted_post_like = PostLike::like(&mut conn, &post_like_form).unwrap();

    let expected_post_like = PostLike {
        id: inserted_post_like.id,
        post_id: inserted_post.id,
        user_id: inserted_user_id,
        published: inserted_post_like.published,
        score: 1,
    };

    let read_post = Post::read(&conn, inserted_post.id).unwrap();
    let updated_post = Post::update(&mut conn, inserted_post.id, &new_post).unwrap();
    let like_removed = PostLike::remove(&mut conn, &post_like_form).unwrap();
    let num_deleted = Post::delete(&mut conn, inserted_post.id).unwrap();

    // An update is a whole-form replace: the flags the form leaves unset
    // come back unset, unlike on insert where the column defaults fill
    // them with false.
    let expected_updated_post = Post {
        id: inserted_post.id,
        name: "A test post".into(),
        url: None,
        body: None,
        creator_id: inserted_user_id,
        community_id: inserted_community_id,
        published: inserted_post.published,
        removed: None,
        locked: None,
        updated: None,
    };

    assert_eq!(expected_post, read_post);
    assert_eq!(expected_post, inserted_post);
    assert_eq!(expected_updated_post, updated_post);
    assert_eq!(expected_post_like, inserted_post_like);
    assert_eq!(1, like_removed);
    assert_eq!(1, num_deleted);
}

#[test]
fn create_then_read_round_trip() {
    let mut conn = Db::new();
    conn.now = 1700000000;
    let form = PostForm {
        name: "round trip".into(),
        url: Some("https://example.test/a".into()),
        body: Some("body text".into()),
        creator_id: 3,
        community_id: 4,
        removed: Some(true),
        locked: None,
        updated: Some(1700000100),
    };
    let created = Post::create(&mut conn, &form).unwrap();
    assert_eq!(created.id, 1);
    assert_eq!(created.published, 1700000000);
    let read_back = Post::read(&conn, created.id).unwrap();
    assert_eq!(created, read_back);
}

#[test]
fn update_overwrites_whole_form() {
    let mut conn = Db::new();
    conn.now = 50;
    let first = PostForm {
        name: "first".into(),
        url: Some("https://example.test/first".into()),
        body: Some("first body".into()),
        creator_id: 1,
        community_id: 2,
        removed: Some(true),
        locked: Some(true),
        updated: None,
    };
    let created = Post::create(&mut conn, &first).unwrap();

    conn.now = 60;
    let second = PostForm {
        name: "second".into(),
        url: None,
        body: None,
        creator_id: 7,
        community_id: 8,
        removed: None,
        locked: Some(false),
        updated: Some(60),
    };
    let updated = Post::update(&mut conn, created.id, &second).unwrap();

    let expected = Post {
        id: created.id,
        name: "second".into(),
        url: None,
        body: None,
        creator_id: 7,
        community_id: 8,
        removed: None,
        locked: Some(false),
        published: 50,
        updated: Some(60),
    };
    assert_eq!(expected, updated);
    assert_eq!(expected, Post::read(&conn, created.id).unwrap());
}

#[test]
fn delete_missing_id_returns_zero() {
    let mut conn = Db::new();
    assert_eq!(Ok(0), Post::delete(&mut conn, 17));
    let created = Post::create(&mut conn, &sample_form(1, 1)).unwrap();
    assert_eq!(Ok(0), Post::delete(&mut conn, created.id + 1));
    assert_eq!(Ok(1), Post::delete(&mut conn, created.id));
    assert_eq!(Ok(0), Post::delete(&mut conn, created.id));
}

#[test]
fn read_and_update_missing_id_fail_not_found() {
    let mut conn = Db::new();
    assert_eq!(Err(Error::NotFound), Post::read(&conn, 5));
    assert_eq!(
        Err(Error::NotFound),
        Post::update(&mut conn, 5, &sample_form(1, 1))
    );
}

#[test]
fn create_fails_when_id_sequence_is_exhausted() {
    let mut conn = Db::new();
    conn.next_post_id = i32::MAX;
    assert_eq!(
        Err(Error::ConstraintViolation),
        Post::create(&mut conn, &sample_form(1, 1))
    );
    assert!(conn.posts.is_empty());

    conn.next_post_like_id = i32::MAX;
    let like_form = PostLikeForm {
        post_id: 1,
        user_id: 1,
        score: 1,
    };
    assert_eq!(
        Err(Error::ConstraintViolation),
        PostLike::like(&mut conn, &like_form)
    );
    assert!(conn.post_likes.is_empty());
}

#[test]
fn like_is_append_only() {
    let mut conn = Db::new();
    let form = PostLikeForm {
        post_id: 9,
        user_id: 2,
        score: 1,
    };
    let first = PostLike::like(&mut conn, &form).unwrap();
    let second = PostLike::like(&mut conn, &form).unwrap();
    assert_ne!(first.id, second.id);
    assert_eq!(first.id, 1);
    assert_eq!(second.id, 2);
    let likes = PostLike::read(&conn, 9).unwrap();
    assert_eq!(vec![first, second], likes);
}

#[test]
fn remove_deletes_exactly_the_composite_key() {
    let mut conn = Db::new();
    let by_user_one = PostLikeForm {
        post_id: 1,
        user_id: 1,
        score: 1,
    };
    let by_user_two = PostLikeForm {
        post_id: 1,
        user_id: 2,
        score: -1,
    };
    let other_post = PostLikeForm {
        post_id: 2,
        user_id: 1,
        score: 1,
    };
    // user 1 voted twice on post 1 (no uniqueness constraint at this layer)
    let _ = PostLike::like(&mut conn, &by_user_one).unwrap();
    let kept_vote = PostLike::like(&mut conn, &by_user_two).unwrap();
    let _ = PostLike::like(&mut conn, &by_user_one).unwrap();
    let kept_elsewhere = PostLike::like(&mut conn, &other_post).unwrap();

    assert_eq!(Ok(2), PostLike::remove(&mut conn, &by_user_one));
    assert_eq!(vec![kept_vote], PostLike::read(&conn, 1).unwrap());
    assert_eq!(vec![kept_elsewhere], PostLike::read(&conn, 2).unwrap());
    assert_eq!(Ok(0), PostLike::remove(&mut conn, &by_user_one));
}

#[test]
fn likes_come_back_in_store_order() {
    let mut conn = Db::new();
    let mut expected = Vec::new();
    let mut user: i32 = 1;
    while user < 5 {
        let form = PostLikeForm {
            post_id: 3,
            user_id: user,
            score: if user % 2 == 0 { 1 } else { -1 },
        };
        expected.push(PostLike::like(&mut conn, &form).unwrap());
        let unrelated = PostLikeForm {
            post_id: 4,
            user_id: user,
            score: 1,
        };
        PostLike::like(&mut conn, &unrelated).unwrap();
        user += 1;
    }
    assert_eq!(expected, PostLike::read(&conn, 3).unwrap());
}

#[test]
fn end_to_end_scenario() {
    let mut conn = Db::new();
    conn.now = 123456789;
    // user and community are external entities, present only as ids
    let user_id = 10;
    let community_id = 20;

    let post = Post::create(&mut conn, &sample_form(user_id, community_id)).unwrap();
    assert_eq!(post.removed, Some(false));
    assert_eq!(post.locked, Some(false));
    assert_eq!(post.published, 123456789);
    assert_eq!(post.updated, None);

    let like_form = PostLikeForm {
        post_id: post.id,
        user_id,
        score: 1,
    };
    let like = PostLike::like(&mut conn, &like_form).unwrap();
    let likes = PostLike::read(&conn, post.id).unwrap();
    assert_eq!(vec![like], likes);
    assert_eq!(like.post_id, post.id);
    assert_eq!(like.user_id, user_id);
    assert_eq!(like.score, 1);

    assert_eq!(Ok(1), PostLike::remove(&mut conn, &like_form));
    assert_eq!(Vec::<PostLike>::new(), PostLike::read(&conn, post.id).unwrap());

    assert_eq!(Ok(1), Post::delete(&mut conn, post.id));
    assert_eq!(Err(Error::NotFound), Post::read(&conn, post.id));
}

#[test]
fn forms_and_posts_clone_deeply() {
    let form = PostForm {
        name: "clone me".into(),
        url: Some("https://example.test/c".into()),
        body: None,
        creator_id: 1,
        community_id: 2,
        removed: Some(false),
        locked: None,
        updated: Some(9),
    };
    let copy = form.clone();
    assert_eq!(form, copy);

    let mut conn = Db::new();
    let post = Post::create(&mut conn, &form).unwrap();
    assert_eq!(post, post.clone());
}

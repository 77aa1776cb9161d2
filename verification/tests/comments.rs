use medium_clone::address::{find_comment_address, find_post_address, Address, Derived};
use medium_clone::context::{
    AddComment, CreatePost, DeleteComment, DeletePost, ErrorCode, ResourceEffect, UpdateComment,
};
use medium_clone::key::{KeyScheme, RecordKey};
use medium_clone::lifecycle::{
    add_comment, add_comment_with, create_post, delete_comment, delete_comment_with, delete_post,
    update_comment, update_comment_with,
};
use medium_clone::record::Post;
use medium_clone::store::RecordStore;

fn program() -> Address {
    Address::new([9u8; 32])
}

fn alice() -> Address {
    Address::new([1u8; 32])
}

fn bob() -> Address {
    Address::new([3u8; 32])
}

fn mallory() -> Address {
    Address::new([2u8; 32])
}

fn text(len: usize) -> String {
    "c".repeat(len)
}

fn post_place(key: &RecordKey) -> Address {
    find_post_address(&program(), &alice(), key).unwrap().address
}

fn comment_place(post: &Address, key: &RecordKey) -> Address {
    find_comment_address(&program(), post, key).unwrap().address
}

fn store_with_post() -> (RecordStore, Address) {
    let mut store = RecordStore::new(program(), KeyScheme::Sequence);
    let key = RecordKey::Sequence(7);
    let post = post_place(&key);
    let ctx = CreatePost { post, author: alice(), now: 1_000 };
    assert!(create_post(&mut store, &ctx, "T".to_string(), "C".to_string(), key).is_ok());
    (store, post)
}

fn comment_on(store: &mut RecordStore, post: Address, id: u64) -> Address {
    let key = RecordKey::Sequence(id);
    let comment = comment_place(&post, &key);
    let ctx = AddComment { comment, post, author: bob(), now: 1_500 };
    let added = add_comment(store, &ctx, "hello".to_string(), key);
    assert_eq!(added, Ok(ResourceEffect::Allocate { payer: bob(), space: 600 }));
    comment
}

#[test]
fn add_comment_stores_the_comment_and_counts_it() {
    let (mut store, post) = store_with_post();
    let comment = comment_on(&mut store, post, 0);
    let read = store.comment(&comment).unwrap();
    assert_eq!(read.author, bob());
    assert_eq!(read.post_id, post);
    assert_eq!(read.id, RecordKey::Sequence(0));
    assert_eq!(read.content, "hello");
    assert_eq!(read.created_at, 1_500);
    assert_eq!(read.updated_at, 1_500);
    let parent = store.post(&post).unwrap();
    assert_eq!(parent.comment_count, 1);
    assert_eq!(parent.title, "T");
    assert_eq!(parent.content, "C");
    assert_eq!(parent.author, alice());
    assert_eq!(parent.updated_at, 1_000);
}

#[test]
fn counter_is_additions_minus_deletions() {
    let (mut store, post) = store_with_post();
    let mut comments = Vec::new();
    for id in 0..5u64 {
        comments.push(comment_on(&mut store, post, id));
    }
    assert_eq!(store.post(&post).unwrap().comment_count, 5);
    for comment in comments.iter().take(3) {
        let ctx = DeleteComment { comment: *comment, post, author: bob() };
        assert_eq!(
            delete_comment(&mut store, &ctx),
            Ok(ResourceEffect::Release { recipient: bob(), space: 600 })
        );
    }
    assert_eq!(store.post(&post).unwrap().comment_count, 2);
    assert!(store.comment(&comments[0]).is_none());
    assert!(store.comment(&comments[3]).is_some());
    assert!(store.comment(&comments[4]).is_some());
}

#[test]
fn deleting_every_comment_brings_the_counter_back_to_zero() {
    let (mut store, post) = store_with_post();
    let first = comment_on(&mut store, post, 0);
    let second = comment_on(&mut store, post, 1);
    assert!(delete_comment(&mut store, &DeleteComment { comment: first, post, author: bob() })
        .is_ok());
    assert!(delete_comment(&mut store, &DeleteComment { comment: second, post, author: bob() })
        .is_ok());
    assert_eq!(store.post(&post).unwrap().comment_count, 0);
}

#[test]
fn a_delete_beyond_the_live_comments_fails_and_the_counter_stays_at_zero() {
    let (mut store, post) = store_with_post();
    let comment = comment_place(&post, &RecordKey::Sequence(0));
    let ctx = DeleteComment { comment, post, author: bob() };
    assert_eq!(delete_comment(&mut store, &ctx), Err(ErrorCode::NotFound));
    assert_eq!(store.post(&post).unwrap().comment_count, 0);
}

#[test]
fn the_counter_never_falls_below_zero() {
    let (mut store, post) = store_with_post();
    let comment = comment_on(&mut store, post, 0);
    assert!(delete_post(&mut store, &DeletePost { post, author: alice() }).is_ok());
    let again = CreatePost { post, author: alice(), now: 2_000 };
    assert!(create_post(
        &mut store,
        &again,
        "T".to_string(),
        "C".to_string(),
        RecordKey::Sequence(7)
    )
    .is_ok());
    assert_eq!(store.post(&post).unwrap().comment_count, 0);
    let ctx = DeleteComment { comment, post, author: bob() };
    assert!(delete_comment(&mut store, &ctx).is_ok());
    assert_eq!(store.post(&post).unwrap().comment_count, 0);
    assert!(store.comment(&comment).is_none());
}

#[test]
fn a_full_counter_refuses_the_comment_and_leaves_no_orphan() {
    let mut store = RecordStore::new(program(), KeyScheme::Sequence);
    let post = post_place(&RecordKey::Sequence(7));
    let full = Post {
        author: alice(),
        id: RecordKey::Sequence(7),
        title: "T".to_string(),
        content: "C".to_string(),
        created_at: 1,
        updated_at: 1,
        comment_count: u32::MAX,
    };
    assert!(store.load_post(post, full));
    let key = RecordKey::Sequence(0);
    let comment = comment_place(&post, &key);
    let ctx = AddComment { comment, post, author: bob(), now: 5 };
    assert_eq!(
        add_comment(&mut store, &ctx, "hello".to_string(), key),
        Err(ErrorCode::CounterOverflow)
    );
    assert!(store.comment(&comment).is_none());
    assert!(!store.is_live(&comment));
    assert_eq!(store.post(&post).unwrap().comment_count, u32::MAX);
}

#[test]
fn the_counter_counts_up_to_its_greatest_value() {
    let mut store = RecordStore::new(program(), KeyScheme::Sequence);
    let post = post_place(&RecordKey::Sequence(7));
    let nearly_full = Post {
        author: alice(),
        id: RecordKey::Sequence(7),
        title: "T".to_string(),
        content: "C".to_string(),
        created_at: 1,
        updated_at: 1,
        comment_count: u32::MAX - 1,
    };
    assert!(store.load_post(post, nearly_full));
    comment_on(&mut store, post, 0);
    assert_eq!(store.post(&post).unwrap().comment_count, u32::MAX);
}

#[test]
fn add_comment_under_an_absent_post_fails_with_not_found() {
    let mut store = RecordStore::new(program(), KeyScheme::Sequence);
    let post = post_place(&RecordKey::Sequence(7));
    let key = RecordKey::Sequence(0);
    let comment = comment_place(&post, &key);
    let ctx = AddComment { comment, post, author: bob(), now: 5 };
    assert_eq!(
        add_comment(&mut store, &ctx, "hello".to_string(), key),
        Err(ErrorCode::NotFound)
    );
    assert!(!store.is_live(&comment));
}

#[test]
fn add_comment_at_an_address_that_was_not_derived_fails() {
    let (mut store, post) = store_with_post();
    let ctx = AddComment { comment: Address::new([8u8; 32]), post, author: bob(), now: 5 };
    assert_eq!(
        add_comment(&mut store, &ctx, "hello".to_string(), RecordKey::Sequence(0)),
        Err(ErrorCode::AddressMismatch)
    );
    assert_eq!(store.post(&post).unwrap().comment_count, 0);
}

#[test]
fn add_comment_at_the_address_for_another_post_fails() {
    let (mut store, post) = store_with_post();
    let key = RecordKey::Sequence(0);
    let comment = comment_place(&Address::new([8u8; 32]), &key);
    let ctx = AddComment { comment, post, author: bob(), now: 5 };
    assert_eq!(
        add_comment(&mut store, &ctx, "hello".to_string(), key),
        Err(ErrorCode::AddressMismatch)
    );
}

#[test]
fn add_comment_with_a_key_of_the_other_scheme_fails() {
    let (mut store, post) = store_with_post();
    let key = RecordKey::Opaque([1u8; 32]);
    let comment = comment_place(&post, &key);
    let ctx = AddComment { comment, post, author: bob(), now: 5 };
    assert_eq!(
        add_comment(&mut store, &ctx, "hello".to_string(), key),
        Err(ErrorCode::AddressMismatch)
    );
}

#[test]
fn add_comment_twice_at_one_address_fails_the_second_time() {
    let (mut store, post) = store_with_post();
    let comment = comment_on(&mut store, post, 0);
    let ctx = AddComment { comment, post, author: mallory(), now: 9 };
    assert_eq!(
        add_comment(&mut store, &ctx, "again".to_string(), RecordKey::Sequence(0)),
        Err(ErrorCode::DuplicateAddress)
    );
    assert_eq!(store.post(&post).unwrap().comment_count, 1);
    assert_eq!(store.comment(&comment).unwrap().content, "hello");
    assert_eq!(store.comment(&comment).unwrap().author, bob());
}

#[test]
fn add_comment_with_follows_the_derivation_it_is_given() {
    let (mut store, post) = store_with_post();
    let comment = Address::new([8u8; 32]);
    let ctx = AddComment { comment, post, author: bob(), now: 5 };
    let key = RecordKey::Sequence(0);
    assert_eq!(
        add_comment_with(&mut store, &ctx, None, text(1), key),
        Err(ErrorCode::AddressMismatch)
    );
    let at_the_post = AddComment { comment: post, post, author: bob(), now: 5 };
    let derived = Some(Derived { address: post, bump: 255 });
    assert_eq!(
        add_comment_with(&mut store, &at_the_post, derived, text(1), key),
        Err(ErrorCode::DuplicateAddress)
    );
    let derived = Some(Derived { address: comment, bump: 255 });
    assert_eq!(
        add_comment_with(&mut store, &ctx, derived, text(1), key),
        Ok(ResourceEffect::Allocate { payer: bob(), space: 600 })
    );
    assert_eq!(store.post(&post).unwrap().comment_count, 1);
}

#[test]
fn comment_limit_of_the_sequence_scheme_is_five_hundred_bytes() {
    let (mut store, post) = store_with_post();
    let key = RecordKey::Sequence(0);
    let comment = comment_place(&post, &key);
    let ctx = AddComment { comment, post, author: bob(), now: 5 };
    assert_eq!(
        add_comment(&mut store, &ctx, text(501), key),
        Err(ErrorCode::ExceedsMaxLength)
    );
    assert!(!store.is_live(&comment));
    assert_eq!(store.post(&post).unwrap().comment_count, 0);
    assert!(add_comment(&mut store, &ctx, text(500), key).is_ok());
}

#[test]
fn comment_limit_of_the_opaque_scheme_is_three_hundred_bytes() {
    let mut store = RecordStore::new(program(), KeyScheme::Opaque);
    let post_key = RecordKey::Opaque([7u8; 32]);
    let post = post_place(&post_key);
    let create = CreatePost { post, author: alice(), now: 1 };
    assert!(create_post(&mut store, &create, text(1), text(1), post_key).is_ok());
    let key = RecordKey::Opaque([8u8; 32]);
    let comment = comment_place(&post, &key);
    let ctx = AddComment { comment, post, author: bob(), now: 5 };
    assert_eq!(
        add_comment(&mut store, &ctx, text(301), key),
        Err(ErrorCode::ExceedsMaxLength)
    );
    assert_eq!(
        add_comment(&mut store, &ctx, text(300), key),
        Ok(ResourceEffect::Allocate { payer: bob(), space: 424 })
    );
}

#[test]
fn update_comment_replaces_the_content_and_records_the_time() {
    let (mut store, post) = store_with_post();
    let comment = comment_on(&mut store, post, 0);
    let ctx = UpdateComment { comment, post, author: bob(), now: 1_600 };
    assert_eq!(update_comment(&mut store, &ctx, "edited".to_string()), Ok(()));
    let read = store.comment(&comment).unwrap();
    assert_eq!(read.content, "edited");
    assert_eq!(read.created_at, 1_500);
    assert_eq!(read.updated_at, 1_600);
    assert_eq!(read.author, bob());
    assert_eq!(read.post_id, post);
    assert_eq!(read.id, RecordKey::Sequence(0));
    assert_eq!(store.post(&post).unwrap().comment_count, 1);
}

#[test]
fn update_comment_with_a_clock_behind_the_creation_keeps_the_times_in_order() {
    let (mut store, post) = store_with_post();
    let comment = comment_on(&mut store, post, 0);
    let ctx = UpdateComment { comment, post, author: bob(), now: 10 };
    assert_eq!(update_comment(&mut store, &ctx, "edited".to_string()), Ok(()));
    let read = store.comment(&comment).unwrap();
    assert_eq!(read.created_at, 1_500);
    assert_eq!(read.updated_at, 1_500);
}

#[test]
fn update_comment_checks_the_length() {
    let (mut store, post) = store_with_post();
    let comment = comment_on(&mut store, post, 0);
    let ctx = UpdateComment { comment, post, author: bob(), now: 1_600 };
    assert_eq!(update_comment(&mut store, &ctx, text(501)), Err(ErrorCode::ExceedsMaxLength));
    assert_eq!(store.comment(&comment).unwrap().content, "hello");
    assert_eq!(update_comment(&mut store, &ctx, text(500)), Ok(()));
}

#[test]
fn update_comment_by_another_signer_fails_and_changes_nothing() {
    let (mut store, post) = store_with_post();
    let comment = comment_on(&mut store, post, 0);
    let ctx = UpdateComment { comment, post, author: mallory(), now: 1_600 };
    assert_eq!(
        update_comment(&mut store, &ctx, "edited".to_string()),
        Err(ErrorCode::AuthorMismatch)
    );
    assert_eq!(
        update_comment_with(&mut store, &ctx, None, "edited".to_string()),
        Err(ErrorCode::AuthorMismatch)
    );
    let read = store.comment(&comment).unwrap();
    assert_eq!(read.content, "hello");
    assert_eq!(read.updated_at, 1_500);
}

#[test]
fn the_author_of_the_post_is_not_the_author_of_the_comment() {
    let (mut store, post) = store_with_post();
    let comment = comment_on(&mut store, post, 0);
    let update = UpdateComment { comment, post, author: alice(), now: 1_600 };
    assert_eq!(update_comment(&mut store, &update, text(1)), Err(ErrorCode::AuthorMismatch));
    let delete = DeleteComment { comment, post, author: alice() };
    assert_eq!(delete_comment(&mut store, &delete), Err(ErrorCode::AuthorMismatch));
    assert!(store.comment(&comment).is_some());
}

#[test]
fn delete_comment_by_another_signer_fails_and_changes_nothing() {
    let (mut store, post) = store_with_post();
    let comment = comment_on(&mut store, post, 0);
    let ctx = DeleteComment { comment, post, author: mallory() };
    assert_eq!(delete_comment(&mut store, &ctx), Err(ErrorCode::AuthorMismatch));
    assert_eq!(delete_comment_with(&mut store, &ctx, None), Err(ErrorCode::AuthorMismatch));
    assert_eq!(store.comment(&comment).unwrap().content, "hello");
    assert_eq!(store.post(&post).unwrap().comment_count, 1);
}

#[test]
fn a_comment_is_bound_to_the_post_it_was_added_under() {
    let (mut store, post) = store_with_post();
    let comment = comment_on(&mut store, post, 0);
    let other_key = RecordKey::Sequence(8);
    let other = post_place(&other_key);
    let create = CreatePost { post: other, author: alice(), now: 1 };
    assert!(create_post(&mut store, &create, text(1), text(1), other_key).is_ok());
    let delete = DeleteComment { comment, post: other, author: bob() };
    assert_eq!(delete_comment(&mut store, &delete), Err(ErrorCode::AddressMismatch));
    let update = UpdateComment { comment, post: other, author: bob(), now: 1_600 };
    assert_eq!(update_comment(&mut store, &update, text(1)), Err(ErrorCode::AddressMismatch));
    assert_eq!(store.post(&post).unwrap().comment_count, 1);
    assert_eq!(store.post(&other).unwrap().comment_count, 0);
    assert_eq!(store.comment(&comment).unwrap().content, "hello");
}

#[test]
fn update_and_delete_of_an_absent_comment_fail_with_not_found() {
    let (mut store, post) = store_with_post();
    let comment = comment_place(&post, &RecordKey::Sequence(0));
    let update = UpdateComment { comment, post, author: bob(), now: 1_600 };
    assert_eq!(update_comment(&mut store, &update, text(1)), Err(ErrorCode::NotFound));
    let delete = DeleteComment { comment, post, author: bob() };
    assert_eq!(delete_comment(&mut store, &delete), Err(ErrorCode::NotFound));
    let at_the_post = DeleteComment { comment: post, post, author: alice() };
    assert_eq!(delete_comment(&mut store, &at_the_post), Err(ErrorCode::NotFound));
}

#[test]
fn a_comment_whose_post_is_gone_cannot_be_deleted_but_can_be_updated() {
    let (mut store, post) = store_with_post();
    let comment = comment_on(&mut store, post, 0);
    assert!(delete_post(&mut store, &DeletePost { post, author: alice() }).is_ok());
    let delete = DeleteComment { comment, post, author: bob() };
    assert_eq!(delete_comment(&mut store, &delete), Err(ErrorCode::NotFound));
    assert_eq!(store.comment(&comment).unwrap().content, "hello");
    let update = UpdateComment { comment, post, author: bob(), now: 1_600 };
    assert_eq!(update_comment(&mut store, &update, "still here".to_string()), Ok(()));
    assert_eq!(store.comment(&comment).unwrap().content, "still here");
}

#[test]
fn delete_comment_with_a_wrong_rederivation_fails_with_address_mismatch() {
    let (mut store, post) = store_with_post();
    let comment = comment_on(&mut store, post, 0);
    let delete = DeleteComment { comment, post, author: bob() };
    assert_eq!(delete_comment_with(&mut store, &delete, None), Err(ErrorCode::AddressMismatch));
    let update = UpdateComment { comment, post, author: bob(), now: 1_600 };
    let elsewhere = Some(Derived { address: post, bump: 255 });
    assert_eq!(
        update_comment_with(&mut store, &update, elsewhere, text(1)),
        Err(ErrorCode::AddressMismatch)
    );
    assert_eq!(store.post(&post).unwrap().comment_count, 1);
    let here = Some(Derived { address: comment, bump: 255 });
    assert!(delete_comment_with(&mut store, &delete, here).is_ok());
    assert_eq!(store.post(&post).unwrap().comment_count, 0);
}

#[test]
fn a_post_cannot_be_created_where_a_comment_lives() {
    let (mut store, post) = store_with_post();
    let comment = comment_on(&mut store, post, 0);
    let ctx = CreatePost { post: comment, author: alice(), now: 1 };
    let derived = Some(Derived { address: comment, bump: 255 });
    assert_eq!(
        medium_clone::lifecycle::create_post_with(
            &mut store,
            &ctx,
            derived,
            text(1),
            text(1),
            RecordKey::Sequence(9)
        ),
        Err(ErrorCode::DuplicateAddress)
    );
    assert!(store.post(&comment).is_none());
}

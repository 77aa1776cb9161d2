use medium_clone::address::Address;
use medium_clone::context::{ErrorCode, ResourceEffect};
use medium_clone::key::{KeyScheme, RecordKey};
use medium_clone::record::{text_len, Comment, Post, MAX_TITLE_LEN};
use medium_clone::store::RecordStore;
use medium_clone::table::Table;

fn program() -> Address {
    Address::new([9u8; 32])
}

fn alice() -> Address {
    Address::new([1u8; 32])
}

fn post(title: &str, content: &str, created_at: i64, updated_at: i64) -> Post {
    Post {
        author: alice(),
        id: RecordKey::Sequence(1),
        title: title.to_string(),
        content: content.to_string(),
        created_at,
        updated_at,
        comment_count: 3,
    }
}

fn comment(content: &str, created_at: i64, updated_at: i64) -> Comment {
    Comment {
        author: alice(),
        post_id: Address::new([4u8; 32]),
        id: RecordKey::Sequence(2),
        content: content.to_string(),
        created_at,
        updated_at,
    }
}

#[test]
fn a_new_store_is_empty_and_remembers_its_deployment() {
    let store = RecordStore::new(program(), KeyScheme::Opaque);
    assert_eq!(store.program_id(), program());
    assert_eq!(store.scheme(), KeyScheme::Opaque);
    assert!(!store.is_live(&alice()));
    assert!(store.post(&alice()).is_none());
    assert!(store.comment(&alice()).is_none());
}

#[test]
fn space_of_each_record_is_the_sum_of_its_fields_at_their_limits() {
    assert_eq!(KeyScheme::Sequence.post_space(), 8 + 32 + 8 + 4 + 100 + 4 + 1000 + 8 + 8 + 4);
    assert_eq!(KeyScheme::Opaque.post_space(), 8 + 32 + 32 + 4 + 100 + 4 + 500 + 8 + 8 + 4);
    assert_eq!(KeyScheme::Sequence.comment_space(), 8 + 32 + 32 + 8 + 4 + 500 + 8 + 8);
    assert_eq!(KeyScheme::Opaque.comment_space(), 8 + 32 + 32 + 32 + 4 + 300 + 8 + 8);
    assert_eq!(KeyScheme::Sequence.post_space(), 1176);
    assert_eq!(KeyScheme::Opaque.post_space(), 700);
    assert_eq!(KeyScheme::Sequence.comment_space(), 600);
    assert_eq!(KeyScheme::Opaque.comment_space(), 424);
}

#[test]
fn limits_of_each_scheme() {
    assert_eq!(MAX_TITLE_LEN, 100);
    assert_eq!(KeyScheme::Sequence.max_content_len(), 1000);
    assert_eq!(KeyScheme::Opaque.max_content_len(), 500);
    assert_eq!(KeyScheme::Sequence.max_comment_len(), 500);
    assert_eq!(KeyScheme::Opaque.max_comment_len(), 300);
}

#[test]
fn text_len_counts_bytes() {
    assert_eq!(text_len(&String::new()), 0);
    assert_eq!(text_len(&"abc".to_string()), 3);
    assert_eq!(text_len(&"\u{e9}".to_string()), 2);
    assert_eq!(text_len(&"\u{20ac}".to_string()), 3);
    assert_eq!(text_len(&"\u{1f600}".to_string()), 4);
}

#[test]
fn load_post_takes_in_a_valid_post() {
    let mut store = RecordStore::new(program(), KeyScheme::Sequence);
    let place = Address::new([5u8; 32]);
    assert!(store.load_post(place, post("T", "C", 1, 2)));
    let read = store.post(&place).unwrap();
    assert_eq!(read, &post("T", "C", 1, 2));
    assert!(store.is_live(&place));
    assert!(store.comment(&place).is_none());
}

#[test]
fn load_post_refuses_what_is_not_valid() {
    let mut store = RecordStore::new(program(), KeyScheme::Sequence);
    let place = Address::new([5u8; 32]);
    assert!(!store.load_post(place, post(&"t".repeat(101), "C", 1, 2)));
    assert!(!store.load_post(place, post("T", &"c".repeat(1001), 1, 2)));
    assert!(!store.load_post(place, post("T", "C", 3, 2)));
    let mut opaque = post("T", "C", 1, 2);
    opaque.id = RecordKey::Opaque([1u8; 32]);
    assert!(!store.load_post(place, opaque));
    assert!(!store.is_live(&place));
    assert!(store.load_post(place, post(&"t".repeat(100), &"c".repeat(1000), 2, 2)));
    assert!(!store.load_post(place, post("T", "C", 1, 2)));
    assert_eq!(store.post(&place).unwrap().created_at, 2);
}

#[test]
fn load_comment_takes_in_a_valid_comment() {
    let mut store = RecordStore::new(program(), KeyScheme::Sequence);
    let place = Address::new([6u8; 32]);
    assert!(store.load_comment(place, comment("hello", 1, 1)));
    assert_eq!(store.comment(&place).unwrap(), &comment("hello", 1, 1));
    assert!(store.post(&place).is_none());
}

#[test]
fn load_comment_refuses_what_is_not_valid() {
    let mut store = RecordStore::new(program(), KeyScheme::Sequence);
    let place = Address::new([6u8; 32]);
    assert!(!store.load_comment(place, comment(&"c".repeat(501), 1, 1)));
    assert!(!store.load_comment(place, comment("hello", 2, 1)));
    assert!(store.load_post(place, post("T", "C", 1, 2)));
    assert!(!store.load_comment(place, comment("hello", 1, 1)));
    assert!(store.comment(&place).is_none());
}

#[test]
fn every_error_has_its_message() {
    assert_eq!(ErrorCode::ExceedsMaxLength.message(), "Title or content exceeds maximum length");
    assert_eq!(ErrorCode::AuthorMismatch.message(), "Author mismatch");
    assert_eq!(ErrorCode::AddressMismatch.message(), "Address mismatch");
    assert_eq!(ErrorCode::DuplicateAddress.message(), "Address already in use");
    assert_eq!(ErrorCode::NotFound.message(), "Record not found");
    assert_eq!(ErrorCode::CounterOverflow.message(), "Comment counter overflow");
}

#[test]
fn settling_an_allocation_takes_the_space_from_the_payer() {
    let effect = ResourceEffect::Allocate { payer: alice(), space: 700 };
    assert_eq!(effect.settle(&alice(), 1_000), Some(300));
    assert_eq!(effect.settle(&alice(), 700), Some(0));
    assert_eq!(effect.settle(&alice(), 699), None);
    assert_eq!(effect.settle(&program(), 5), Some(5));
}

#[test]
fn settling_a_release_gives_the_space_to_the_recipient() {
    let effect = ResourceEffect::Release { recipient: alice(), space: 700 };
    assert_eq!(effect.settle(&alice(), 300), Some(1_000));
    assert_eq!(effect.settle(&alice(), u64::MAX - 700), Some(u64::MAX));
    assert_eq!(effect.settle(&alice(), u64::MAX - 699), None);
    assert_eq!(effect.settle(&program(), 5), Some(5));
}

#[test]
fn a_table_keeps_one_value_for_each_address() {
    let mut table: Table<u32> = Table::new();
    let first = Address::new([1u8; 32]);
    let second = Address::new([2u8; 32]);
    assert!(!table.contains(&first));
    assert_eq!(table.get(&first), None);
    table.put(first, 10);
    table.put(second, 20);
    assert_eq!(table.get(&first), Some(&10));
    assert_eq!(table.get(&second), Some(&20));
    table.put(first, 11);
    assert_eq!(table.get(&first), Some(&11));
    assert_eq!(table.get(&second), Some(&20));
    assert_eq!(table.remove(&first), Some(11));
    assert_eq!(table.remove(&first), None);
    assert!(!table.contains(&first));
    assert!(table.contains(&second));
    assert_eq!(table.get(&second), Some(&20));
}

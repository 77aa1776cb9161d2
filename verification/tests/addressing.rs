use anchor_lang::prelude::Pubkey;
use medium_clone::address::{find_comment_address, find_post_address, Address};
use medium_clone::key::{array_to_vec, KeyScheme, RecordKey};

fn program() -> Address {
    Address::new([9u8; 32])
}

fn author() -> Address {
    Address::new([7u8; 32])
}

#[test]
fn deriving_twice_gives_the_same_address_and_bump() {
    let key = RecordKey::Sequence(7);
    let first = find_post_address(&program(), &author(), &key);
    let second = find_post_address(&program(), &author(), &key);
    assert!(first.is_some());
    assert_eq!(first, second);
}

#[test]
fn deriving_a_comment_twice_gives_the_same_address() {
    let key = RecordKey::Opaque([3u8; 32]);
    let first = find_comment_address(&program(), &author(), &key);
    let second = find_comment_address(&program(), &author(), &key);
    assert!(first.is_some());
    assert_eq!(first, second);
}

#[test]
fn keys_one_and_two_hundred_fifty_six_derive_different_addresses() {
    let one = find_post_address(&program(), &author(), &RecordKey::Sequence(1)).unwrap();
    let other = find_post_address(&program(), &author(), &RecordKey::Sequence(256)).unwrap();
    assert_ne!(one.address, other.address);
}

#[test]
fn different_opaque_keys_derive_different_addresses() {
    let mut second_key = [0u8; 32];
    second_key[31] = 1;
    let one = find_post_address(&program(), &author(), &RecordKey::Opaque([0u8; 32])).unwrap();
    let other = find_post_address(&program(), &author(), &RecordKey::Opaque(second_key)).unwrap();
    assert_ne!(one.address, other.address);
}

#[test]
fn different_authors_derive_different_addresses() {
    let key = RecordKey::Sequence(1);
    let one = find_post_address(&program(), &Address::new([1u8; 32]), &key).unwrap();
    let other = find_post_address(&program(), &Address::new([2u8; 32]), &key).unwrap();
    assert_ne!(one.address, other.address);
}

#[test]
fn different_programs_derive_different_addresses() {
    let key = RecordKey::Sequence(1);
    let one = find_post_address(&Address::new([1u8; 32]), &author(), &key).unwrap();
    let other = find_post_address(&Address::new([2u8; 32]), &author(), &key).unwrap();
    assert_ne!(one.address, other.address);
}

#[test]
fn a_post_and_a_comment_with_the_same_owner_and_key_live_apart() {
    let key = RecordKey::Sequence(5);
    let post = find_post_address(&program(), &author(), &key).unwrap();
    let comment = find_comment_address(&program(), &author(), &key).unwrap();
    assert_ne!(post.address, comment.address);
}

#[test]
fn post_address_is_the_program_address_of_its_seeds() {
    let key = RecordKey::Sequence(7);
    let found = find_post_address(&program(), &author(), &key).unwrap();
    let id_bytes = 7u64.to_le_bytes();
    let seeds: [&[u8]; 3] = [b"post", &[7u8; 32], &id_bytes];
    let (expected, bump) = Pubkey::find_program_address(&seeds, &Pubkey::new_from_array([9u8; 32]));
    assert_eq!(found.address.to_bytes(), expected.to_bytes());
    assert_eq!(found.bump, bump);
    assert_ne!(found.address, program());
    assert_ne!(found.address, author());
}

#[test]
fn comment_address_is_the_program_address_of_its_seeds() {
    let post = Address::new([4u8; 32]);
    let key = RecordKey::Opaque([5u8; 32]);
    let found = find_comment_address(&program(), &post, &key).unwrap();
    let seeds: [&[u8]; 3] = [b"comment", &[4u8; 32], &[5u8; 32]];
    let (expected, bump) = Pubkey::find_program_address(&seeds, &Pubkey::new_from_array([9u8; 32]));
    assert_eq!(found.address.to_bytes(), expected.to_bytes());
    assert_eq!(found.bump, bump);
}

#[test]
fn a_derived_address_is_off_the_curve() {
    let found = find_post_address(&program(), &author(), &RecordKey::Sequence(11)).unwrap();
    assert!(!Pubkey::new_from_array(found.address.to_bytes()).is_on_curve());
}

#[test]
fn sequence_keys_encode_as_eight_little_endian_bytes() {
    assert_eq!(RecordKey::Sequence(1).encode(), vec![1u8, 0, 0, 0, 0, 0, 0, 0]);
    assert_eq!(RecordKey::Sequence(256).encode(), vec![0u8, 1, 0, 0, 0, 0, 0, 0]);
    assert_eq!(
        RecordKey::Sequence(0x0102030405060708).encode(),
        vec![8u8, 7, 6, 5, 4, 3, 2, 1]
    );
    assert_eq!(RecordKey::Sequence(u64::MAX).encode(), vec![255u8; 8]);
}

#[test]
fn opaque_keys_encode_as_their_bytes() {
    let mut bytes = [0u8; 32];
    bytes[0] = 200;
    bytes[31] = 17;
    assert_eq!(RecordKey::Opaque(bytes).encode(), bytes.to_vec());
}

#[test]
fn a_key_knows_its_scheme() {
    assert_eq!(RecordKey::Sequence(3).kind(), KeyScheme::Sequence);
    assert_eq!(RecordKey::Opaque([3u8; 32]).kind(), KeyScheme::Opaque);
}

#[test]
fn array_to_vec_copies_every_byte() {
    let mut bytes = [0u8; 32];
    for (i, byte) in bytes.iter_mut().enumerate() {
        *byte = i as u8;
    }
    assert_eq!(array_to_vec(&bytes), bytes.to_vec());
}

#[test]
fn addresses_compare_by_their_bytes() {
    let mut bytes = [1u8; 32];
    let first = Address::new(bytes);
    assert!(first.same(&Address::new([1u8; 32])));
    bytes[31] = 2;
    assert!(!first.same(&Address::new(bytes)));
    assert_eq!(first.to_bytes(), [1u8; 32]);
}

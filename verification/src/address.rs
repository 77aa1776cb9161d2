//! Account addresses and the derivation of a record's storage address.

use vstd::prelude::*;
use crate::key::{array_to_vec, RecordKey};

verus! {

/// A 32-byte account address: an author's identity or the place where a
/// record is stored.
#[derive(Clone, Copy, Debug, PartialEq, Eq)]
pub struct Address {
    pub bytes: [u8; 32],
}

impl View for Address {
    type V = Seq<u8>;

    open spec fn view(&self) -> Seq<u8> {
        self.bytes@
    }
}

impl Address {
    /// The address with these 32 bytes.
    pub fn new(bytes: [u8; 32]) -> (address: Address)
        ensures
            address.bytes == bytes,
    {
        Address { bytes }
    }

    /// The 32 bytes of the address.
    pub fn to_bytes(&self) -> (bytes: [u8; 32])
        ensures
            bytes == self.bytes,
    {
        self.bytes
    }

    /// Whether two addresses hold the same 32 bytes.
    pub fn same(&self, other: &Address) -> (equal: bool)
        ensures
            equal == (self@ == other@),
    {
        let mut i: usize = 0;
        while i < 32
            invariant
                i <= 32,
                forall|j: int| 0 <= j < i ==> self.bytes@[j] == other.bytes@[j],
            decreases 32 - i,
        {
            if self.bytes[i] != other.bytes[i] {
                return false;
            }
            i += 1;
        }
        assert(self.bytes@ =~= other.bytes@);
        true
    }
}

/// Addresses are their bytes: equal views mean equal addresses.
pub proof fn lemma_address_by_view(first: Address, second: Address)
    ensures
        (first@ == second@) == (first == second),
        first@.len() == 32,
{
    if first@ == second@ {
        assert(first.bytes =~= second.bytes);
    }
}

/// The seed that marks a post's address: the ASCII bytes of `post`.
pub open spec fn post_tag() -> Seq<u8> {
    seq![112u8, 111u8, 115u8, 116u8]
}

/// The seed that marks a comment's address: the ASCII bytes of `comment`.
pub open spec fn comment_tag() -> Seq<u8> {
    seq![99u8, 111u8, 109u8, 109u8, 101u8, 110u8, 116u8]
}

/// The seeds of a post: the tag, the author's address, the encoded key.
pub open spec fn post_seeds(author: Seq<u8>, key: Seq<u8>) -> Seq<Seq<u8>> {
    seq![post_tag(), author, key]
}

/// The seeds of a comment: the tag, the parent post's address, the encoded key.
pub open spec fn comment_seeds(post: Seq<u8>, key: Seq<u8>) -> Seq<Seq<u8>> {
    seq![comment_tag(), post, key]
}

/// The seeds that a vector of byte vectors holds.
pub open spec fn seeds_view(seeds: &Vec<Vec<u8>>) -> Seq<Seq<u8>> {
    Seq::new(seeds@.len(), |i: int| seeds@[i]@)
}

/// The program address that the seeds derive under a program id, with its
/// bump seed, or `None` where no bump seed gives an address off the curve.
pub uninterp spec fn program_address(seeds: Seq<Seq<u8>>, program_id: Seq<u8>) -> Option<(Seq<u8>, u8)>;

/// The address alone of what the seeds derive under a program id.
pub open spec fn derived_address(seeds: Seq<Seq<u8>>, program_id: Seq<u8>) -> Option<Seq<u8>> {
    match program_address(seeds, program_id) {
        Some((address, _)) => Some(address),
        None => None,
    }
}

/// A derived address with the bump seed that was found for it.
#[derive(Clone, Copy, Debug, PartialEq, Eq)]
pub struct Derived {
    pub address: Address,
    pub bump: u8,
}

/// The address that a derivation gave, as a sequence of bytes.
pub open spec fn found_address(found: Option<Derived>) -> Option<Seq<u8>> {
    match found {
        Some(derived) => Some(derived.address@),
        None => None,
    }
}

/// Whether `found` is what the seeds derive under the program id: that
/// address with that bump seed, or nothing where the seeds derive nothing.
pub open spec fn is_derivation(found: Option<Derived>, seeds: Seq<Seq<u8>>, program_id: Seq<u8>) -> bool {
    match found {
        Some(derived) => program_address(seeds, program_id) == Some((derived.address@, derived.bump)),
        None => program_address(seeds, program_id) is None,
    }
}

/// Calls `Pubkey::try_find_program_address` of `anchor_lang`. The search
/// hashes the seeds, a bump seed, the program id and a fixed marker, so the
/// outcome depends on the seeds and the program id alone: the contract names
/// it `program_address` and claims nothing else of it.
#[verifier::external_body]
fn try_find_program_address(seeds: &Vec<Vec<u8>>, program_id: &[u8; 32]) -> (found: Option<([u8; 32], u8)>)
    ensures
        (match found {
            Some((address, bump)) => program_address(seeds_view(seeds), program_id@) == Some((address@, bump)),
            None => program_address(seeds_view(seeds), program_id@) is None,
        }),
{
    let parts: Vec<&[u8]> = seeds.iter().map(|seed| seed.as_slice()).collect();
    let program = anchor_lang::prelude::Pubkey::new_from_array(*program_id);
    anchor_lang::prelude::Pubkey::try_find_program_address(&parts, &program)
        .map(|(address, bump)| (address.to_bytes(), bump))
}

/// The tag of posts, as bytes to hash.
fn tag_of_posts() -> (tag: Vec<u8>)
    ensures
        tag@ == post_tag(),
{
    let mut tag: Vec<u8> = Vec::new();
    tag.push(112u8);
    tag.push(111u8);
    tag.push(115u8);
    tag.push(116u8);
    assert(tag@ =~= post_tag());
    tag
}

/// The tag of comments, as bytes to hash.
fn tag_of_comments() -> (tag: Vec<u8>)
    ensures
        tag@ == comment_tag(),
{
    let mut tag: Vec<u8> = Vec::new();
    tag.push(99u8);
    tag.push(111u8);
    tag.push(109u8);
    tag.push(109u8);
    tag.push(101u8);
    tag.push(110u8);
    tag.push(116u8);
    assert(tag@ =~= comment_tag());
    tag
}

/// Derives the address under `program_id` of the record that `tag`, `owner`
/// and `key` name.
fn find_address(program_id: &Address, tag: Vec<u8>, owner: &Address, key: &RecordKey) -> (found: Option<Derived>)
    ensures
        is_derivation(found, seq![tag@, owner@, key.encoding()], program_id@),
{
    let mut seeds: Vec<Vec<u8>> = Vec::new();
    seeds.push(tag);
    seeds.push(array_to_vec(&owner.bytes));
    seeds.push(key.encode());
    assert(seeds_view(&seeds) =~= seq![tag@, owner@, key.encoding()]);
    match try_find_program_address(&seeds, &program_id.bytes) {
        Some((bytes, bump)) => Some(Derived { address: Address { bytes }, bump }),
        None => None,
    }
}

/// Derives the address of the post that `author` creates under `key`.
pub fn find_post_address(program_id: &Address, author: &Address, key: &RecordKey) -> (found: Option<Derived>)
    ensures
        is_derivation(found, post_seeds(author@, key.encoding()), program_id@),
        found_address(found) == derived_address(post_seeds(author@, key.encoding()), program_id@),
{
    find_address(program_id, tag_of_posts(), author, key)
}

/// Derives the address of the comment that hangs under `post` with `key`.
pub fn find_comment_address(program_id: &Address, post: &Address, key: &RecordKey) -> (found: Option<Derived>)
    ensures
        is_derivation(found, comment_seeds(post@, key.encoding()), program_id@),
        found_address(found) == derived_address(comment_seeds(post@, key.encoding()), program_id@),
{
    find_address(program_id, tag_of_comments(), post, key)
}

} // verus!

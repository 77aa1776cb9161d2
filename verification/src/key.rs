//! Record discriminators and their canonical byte encoding.

use vstd::prelude::*;
use vstd::bytes::{
    lemma_auto_spec_u64_to_from_le_bytes, spec_u64_from_le_bytes, spec_u64_to_le_bytes, u64_to_le_bytes,
};

verus! {

/// The kind of discriminator that a deployment uses. A store is created for
/// one scheme and accepts no key of the other.
#[derive(Clone, Copy, Debug, PartialEq, Eq, Structural)]
pub enum KeyScheme {
    /// 64-bit sequence numbers, encoded as eight little-endian bytes.
    Sequence,
    /// Opaque 256-bit identifiers, encoded as their 32 bytes.
    Opaque,
}

/// The caller-chosen value that tells sibling records apart.
#[derive(Clone, Copy, Debug, PartialEq, Eq)]
pub enum RecordKey {
    /// A 64-bit sequence number.
    Sequence(u64),
    /// An opaque 256-bit identifier.
    Opaque([u8; 32]),
}

impl KeyScheme {
    /// The number of bytes that a key of this scheme encodes to.
    pub open spec fn key_len(self) -> nat {
        match self {
            KeyScheme::Sequence => 8,
            KeyScheme::Opaque => 32,
        }
    }
}

impl RecordKey {
    /// The scheme that this key belongs to.
    pub open spec fn scheme(self) -> KeyScheme {
        match self {
            RecordKey::Sequence(_) => KeyScheme::Sequence,
            RecordKey::Opaque(_) => KeyScheme::Opaque,
        }
    }

    /// The bytes that stand for this key in a seed: a sequence number as
    /// eight little-endian bytes, an opaque identifier as it is.
    pub open spec fn encoding(self) -> Seq<u8> {
        match self {
            RecordKey::Sequence(number) => spec_u64_to_le_bytes(number),
            RecordKey::Opaque(bytes) => bytes@,
        }
    }

    /// The scheme that this key belongs to.
    pub fn kind(&self) -> (scheme: KeyScheme)
        ensures
            scheme == self.scheme(),
    {
        match self {
            RecordKey::Sequence(_) => KeyScheme::Sequence,
            RecordKey::Opaque(_) => KeyScheme::Opaque,
        }
    }

    /// The bytes that stand for this key in a seed and in a stored record.
    pub fn encode(&self) -> (bytes: Vec<u8>)
        ensures
            bytes@ == self.encoding(),
            bytes@.len() == self.scheme().key_len(),
    {
        proof {
            lemma_auto_spec_u64_to_from_le_bytes();
        }
        match self {
            RecordKey::Sequence(number) => u64_to_le_bytes(*number),
            RecordKey::Opaque(bytes) => array_to_vec(bytes),
        }
    }
}

/// Copies the 32 bytes of an array into a vector.
pub fn array_to_vec(bytes: &[u8; 32]) -> (copy: Vec<u8>)
    ensures
        copy@ == bytes@,
{
    let mut copy: Vec<u8> = Vec::new();
    let mut i: usize = 0;
    while i < 32
        invariant
            i <= 32,
            copy@.len() == i,
            forall|j: int| 0 <= j < i ==> copy@[j] == bytes@[j],
        decreases 32 - i,
    {
        copy.push(bytes[i]);
        i += 1;
    }
    assert(copy@ =~= bytes@);
    copy
}

/// An encoding has the length that its scheme fixes.
pub proof fn lemma_encoding_len(key: RecordKey)
    ensures
        key.encoding().len() == key.scheme().key_len(),
{
    lemma_auto_spec_u64_to_from_le_bytes();
}

/// The encoding is canonical: two keys with the same bytes are the same key.
pub proof fn lemma_encoding_injective(first: RecordKey, second: RecordKey)
    requires
        first.encoding() == second.encoding(),
    ensures
        first == second,
{
    lemma_auto_spec_u64_to_from_le_bytes();
    match (first, second) {
        (RecordKey::Sequence(a), RecordKey::Sequence(b)) => {
            assert(spec_u64_from_le_bytes(spec_u64_to_le_bytes(a)) == a);
            assert(spec_u64_from_le_bytes(spec_u64_to_le_bytes(b)) == b);
        },
        (RecordKey::Opaque(a), RecordKey::Opaque(b)) => {
            assert(a@ == b@);
            assert(a =~= b);
        },
        (RecordKey::Sequence(a), RecordKey::Opaque(b)) => {
            assert(spec_u64_to_le_bytes(a).len() == 8);
            assert(b@.len() == 32);
        },
        (RecordKey::Opaque(a), RecordKey::Sequence(b)) => {
            assert(spec_u64_to_le_bytes(b).len() == 8);
            assert(a@.len() == 32);
        },
    }
}

} // verus!

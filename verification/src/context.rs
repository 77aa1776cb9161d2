//! What an operation is called with, what it can fail with, and what it
//! asks of the party that funds storage.

use vstd::prelude::*;
use crate::address::Address;

verus! {

/// Why an operation was refused.
#[derive(Clone, Copy, Debug, PartialEq, Eq, Structural)]
pub enum ErrorCode {
    /// A text is longer than its limit.
    ExceedsMaxLength,
    /// The signer is not the author stored in the record.
    AuthorMismatch,
    /// The address presented is not the one that the record's owner and key
    /// derive.
    AddressMismatch,
    /// A record lives at the address already.
    DuplicateAddress,
    /// No record lives at the address.
    NotFound,
    /// The post's comment counter cannot count one more.
    CounterOverflow,
}

impl ErrorCode {
    /// The message of each error, as a sequence of characters.
    pub open spec fn text(self) -> Seq<char> {
        match self {
            ErrorCode::ExceedsMaxLength => "Title or content exceeds maximum length"@,
            ErrorCode::AuthorMismatch => "Author mismatch"@,
            ErrorCode::AddressMismatch => "Address mismatch"@,
            ErrorCode::DuplicateAddress => "Address already in use"@,
            ErrorCode::NotFound => "Record not found"@,
            ErrorCode::CounterOverflow => "Comment counter overflow"@,
        }
    }

    /// The message that describes the error.
    pub fn message(&self) -> (message: String)
        ensures
            message@ == self.text(),
    {
        match self {
            ErrorCode::ExceedsMaxLength => "Title or content exceeds maximum length".to_owned(),
            ErrorCode::AuthorMismatch => "Author mismatch".to_owned(),
            ErrorCode::AddressMismatch => "Address mismatch".to_owned(),
            ErrorCode::DuplicateAddress => "Address already in use".to_owned(),
            ErrorCode::NotFound => "Record not found".to_owned(),
            ErrorCode::CounterOverflow => "Comment counter overflow".to_owned(),
        }
    }
}

/// What a successful creation or deletion asks of the party that funds
/// storage. The library decides the amount and the party; moving the funds
/// is the caller's part.
#[derive(Clone, Copy, Debug, PartialEq, Eq)]
pub enum ResourceEffect {
    /// `space` bytes were reserved, and `payer` funds them.
    Allocate { payer: Address, space: u64 },
    /// `space` bytes were released, and `recipient` gets their funds back.
    Release { recipient: Address, space: u64 },
}

impl ResourceEffect {
    /// The balance that `party` has after the effect, where it had `balance`
    /// before: less by the space it funds, more by the space it gets back,
    /// the same where the effect names another party. `None` where the
    /// balance does not cover the space or the sum is not representable.
    pub open spec fn settled(self, party: Seq<u8>, balance: u64) -> Option<u64> {
        match self {
            ResourceEffect::Allocate { payer, space } => if payer@ != party {
                Some(balance)
            } else if space <= balance {
                Some((balance - space) as u64)
            } else {
                None
            },
            ResourceEffect::Release { recipient, space } => if recipient@ != party {
                Some(balance)
            } else if balance + space <= u64::MAX {
                Some((balance + space) as u64)
            } else {
                None
            },
        }
    }

    /// Applies the effect to the balance of `party`.
    pub fn settle(&self, party: &Address, balance: u64) -> (after: Option<u64>)
        ensures
            after == self.settled(party@, balance),
    {
        match self {
            ResourceEffect::Allocate { payer, space } => {
                if !payer.same(party) {
                    Some(balance)
                } else if *space <= balance {
                    Some(balance - *space)
                } else {
                    None
                }
            },
            ResourceEffect::Release { recipient, space } => {
                if !recipient.same(party) {
                    Some(balance)
                } else if *space <= u64::MAX - balance {
                    Some(balance + *space)
                } else {
                    None
                }
            },
        }
    }
}

/// Creating a post: the address presented for it, the signer who becomes
/// its author and funds it, and the current time.
#[derive(Clone, Copy, Debug, PartialEq, Eq)]
pub struct CreatePost {
    pub post: Address,
    pub author: Address,
    pub now: i64,
}

/// Updating a post: its address, the signer, and the current time.
#[derive(Clone, Copy, Debug, PartialEq, Eq)]
pub struct UpdatePost {
    pub post: Address,
    pub author: Address,
    pub now: i64,
}

/// Deleting a post: its address and the signer, who gets the funds back.
#[derive(Clone, Copy, Debug, PartialEq, Eq)]
pub struct DeletePost {
    pub post: Address,
    pub author: Address,
}

/// Adding a comment: the address presented for it, the address of the post
/// it hangs under, the signer who becomes its author and funds it, and the
/// current time.
#[derive(Clone, Copy, Debug, PartialEq, Eq)]
pub struct AddComment {
    pub comment: Address,
    pub post: Address,
    pub author: Address,
    pub now: i64,
}

/// Updating a comment: its address, the address of its post, the signer,
/// and the current time.
#[derive(Clone, Copy, Debug, PartialEq, Eq)]
pub struct UpdateComment {
    pub comment: Address,
    pub post: Address,
    pub author: Address,
    pub now: i64,
}

/// Deleting a comment: its address, the address of its post, and the
/// signer, who gets the funds back.
#[derive(Clone, Copy, Debug, PartialEq, Eq)]
pub struct DeleteComment {
    pub comment: Address,
    pub post: Address,
    pub author: Address,
}

} // verus!

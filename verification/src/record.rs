//! The two kinds of record, their size limits and the space they reserve.

use vstd::prelude::*;
use vstd::utf8::encode_utf8;
use crate::address::Address;
use crate::key::{KeyScheme, RecordKey};

verus! {

/// The most bytes that a post's title may take.
pub const MAX_TITLE_LEN: usize = 100;

/// The bytes in front of every stored record that tell its kind.
pub const TAG_LEN: u64 = 8;

/// The bytes that count the length of a stored text.
pub const LEN_PREFIX: u64 = 4;

/// The number of bytes that a text takes when stored: its UTF-8 length.
pub open spec fn byte_len(text: Seq<char>) -> nat {
    encode_utf8(text).len()
}

impl KeyScheme {
    /// The most bytes that a post's content may take under this scheme.
    pub open spec fn spec_max_content_len(&self) -> usize {
        match self {
            KeyScheme::Sequence => 1000,
            KeyScheme::Opaque => 500,
        }
    }

    /// The most bytes that a comment's content may take under this scheme.
    pub open spec fn spec_max_comment_len(&self) -> usize {
        match self {
            KeyScheme::Sequence => 500,
            KeyScheme::Opaque => 300,
        }
    }

    /// The bytes reserved for a post: the tag, the author, the key, both
    /// texts at their greatest length with their length prefixes, the two
    /// timestamps and the comment counter.
    pub open spec fn spec_post_space(&self) -> u64 {
        (8 + 32 + self.key_len() + (4 + MAX_TITLE_LEN) + (4 + self.spec_max_content_len()) + 8 + 8 + 4) as u64
    }

    /// The bytes reserved for a comment: the tag, the author, the parent
    /// post's address, the key, the content at its greatest length with its
    /// length prefix, and the two timestamps.
    pub open spec fn spec_comment_space(&self) -> u64 {
        (8 + 32 + 32 + self.key_len() + (4 + self.spec_max_comment_len()) + 8 + 8) as u64
    }

    /// The most bytes that a post's content may take under this scheme.
    #[verifier::when_used_as_spec(spec_max_content_len)]
    pub fn max_content_len(&self) -> (limit: usize)
        ensures
            limit == self.spec_max_content_len(),
    {
        match self {
            KeyScheme::Sequence => 1000,
            KeyScheme::Opaque => 500,
        }
    }

    /// The most bytes that a comment's content may take under this scheme.
    #[verifier::when_used_as_spec(spec_max_comment_len)]
    pub fn max_comment_len(&self) -> (limit: usize)
        ensures
            limit == self.spec_max_comment_len(),
    {
        match self {
            KeyScheme::Sequence => 500,
            KeyScheme::Opaque => 300,
        }
    }

    /// The width in bytes of an encoded key of this scheme.
    fn key_width(&self) -> (width: u64)
        ensures
            width == self.key_len(),
    {
        match self {
            KeyScheme::Sequence => 8,
            KeyScheme::Opaque => 32,
        }
    }

    /// The bytes reserved for a post.
    #[verifier::when_used_as_spec(spec_post_space)]
    pub fn post_space(&self) -> (space: u64)
        ensures
            space == self.spec_post_space(),
    {
        let texts: u64 = LEN_PREFIX + MAX_TITLE_LEN as u64 + LEN_PREFIX + self.max_content_len() as u64;
        TAG_LEN + 32 + self.key_width() + texts + 8 + 8 + 4
    }

    /// The bytes reserved for a comment.
    #[verifier::when_used_as_spec(spec_comment_space)]
    pub fn comment_space(&self) -> (space: u64)
        ensures
            space == self.spec_comment_space(),
    {
        let text: u64 = LEN_PREFIX + self.max_comment_len() as u64;
        TAG_LEN + 32 + 32 + self.key_width() + text + 8 + 8
    }
}

/// A post: a titled text that its author published.
#[derive(Debug, PartialEq, Eq)]
pub struct Post {
    pub author: Address,
    pub id: RecordKey,
    pub title: String,
    pub content: String,
    pub created_at: i64,
    pub updated_at: i64,
    pub comment_count: u32,
}

/// A comment: a text that its author attached to a post.
#[derive(Debug, PartialEq, Eq)]
pub struct Comment {
    pub author: Address,
    pub post_id: Address,
    pub id: RecordKey,
    pub content: String,
    pub created_at: i64,
    pub updated_at: i64,
}

/// What a post holds, as mathematical values.
pub struct PostView {
    pub author: Seq<u8>,
    pub id: RecordKey,
    pub title: Seq<char>,
    pub content: Seq<char>,
    pub created_at: i64,
    pub updated_at: i64,
    pub comment_count: u32,
}

/// What a comment holds, as mathematical values.
pub struct CommentView {
    pub author: Seq<u8>,
    pub post_id: Seq<u8>,
    pub id: RecordKey,
    pub content: Seq<char>,
    pub created_at: i64,
    pub updated_at: i64,
}

impl View for Post {
    type V = PostView;

    open spec fn view(&self) -> PostView {
        PostView {
            author: self.author@,
            id: self.id,
            title: self.title@,
            content: self.content@,
            created_at: self.created_at,
            updated_at: self.updated_at,
            comment_count: self.comment_count,
        }
    }
}

impl View for Comment {
    type V = CommentView;

    open spec fn view(&self) -> CommentView {
        CommentView {
            author: self.author@,
            post_id: self.post_id@,
            id: self.id,
            content: self.content@,
            created_at: self.created_at,
            updated_at: self.updated_at,
        }
    }
}

impl PostView {
    /// A post is valid under a scheme when its author is an address, its key
    /// is of that scheme, its texts are within their limits and it was not
    /// updated before it was created.
    pub open spec fn valid(self, scheme: KeyScheme) -> bool {
        &&& self.author.len() == 32
        &&& self.id.scheme() == scheme
        &&& byte_len(self.title) <= MAX_TITLE_LEN
        &&& byte_len(self.content) <= scheme.spec_max_content_len()
        &&& self.created_at <= self.updated_at
    }

    /// The bytes that the post takes when stored.
    pub open spec fn stored_len(self) -> nat {
        8 + 32 + self.id.encoding().len() + (4 + byte_len(self.title)) + (4 + byte_len(self.content)) + 8
            + 8 + 4
    }
}

impl CommentView {
    /// A comment is valid under a scheme when its author and its post are
    /// addresses, its key is of that scheme, its content is within the limit
    /// and it was not updated before it was created.
    pub open spec fn valid(self, scheme: KeyScheme) -> bool {
        &&& self.author.len() == 32
        &&& self.post_id.len() == 32
        &&& self.id.scheme() == scheme
        &&& byte_len(self.content) <= scheme.spec_max_comment_len()
        &&& self.created_at <= self.updated_at
    }

    /// The bytes that the comment takes when stored.
    pub open spec fn stored_len(self) -> nat {
        8 + 32 + 32 + self.id.encoding().len() + (4 + byte_len(self.content)) + 8 + 8
    }
}

/// The number of bytes that `text` takes when stored.
pub fn text_len(text: &String) -> (len: usize)
    ensures
        len == byte_len(text@),
{
    text.as_str().as_bytes().len()
}

/// The later of a record's creation time and the time of an update: what
/// its `updated_at` becomes, so that it never lies before `created_at`.
pub open spec fn update_time(created_at: i64, now: i64) -> i64 {
    if now >= created_at {
        now
    } else {
        created_at
    }
}

/// The comment counter after one more comment, or `None` where the counter
/// is at its greatest value already.
pub open spec fn count_after_add(count: u32) -> Option<u32> {
    if count < u32::MAX {
        Some((count + 1) as u32)
    } else {
        None
    }
}

/// The comment counter after one comment less, never below zero.
pub open spec fn count_after_delete(count: u32) -> u32 {
    if count > 0 {
        (count - 1) as u32
    } else {
        0
    }
}

} // verus!

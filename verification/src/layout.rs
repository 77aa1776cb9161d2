//! How a record is laid out in the bytes of its account.
//!
//! A record starts with the eight bytes that mark its kind. Its fields
//! follow in the order in which they are declared: an address as its 32
//! bytes, a key in its canonical encoding, a text as its length in four
//! little-endian bytes and then its UTF-8 bytes, a timestamp in eight
//! little-endian bytes, the counter in four. An account has the space of its
//! kind of record; what the record does not take is zero.

use vstd::prelude::*;
use vstd::bytes::{
    lemma_auto_spec_u32_to_from_le_bytes, lemma_auto_spec_u64_to_from_le_bytes, spec_u32_from_le_bytes,
    spec_u32_to_le_bytes, spec_u64_from_le_bytes, spec_u64_to_le_bytes, u32_from_le_bytes,
    u32_to_le_bytes, u64_from_le_bytes, u64_to_le_bytes,
};
use vstd::slice::{slice_subrange, slice_to_vec};
use vstd::utf8::{decode_utf8, encode_utf8, encode_utf8_decode_utf8, encode_utf8_valid_utf8, valid_utf8};
use crate::address::Address;
use crate::key::{lemma_encoding_len, KeyScheme, RecordKey};
use crate::record::{byte_len, text_len, Comment, CommentView, Post, PostView, MAX_TITLE_LEN};

verus! {

/// The eight bytes that mark a post: the first eight bytes of the SHA-256
/// hash of `account:Post`, which is how Anchor marks an account of that
/// name.
pub open spec fn post_marker() -> Seq<u8> {
    seq![8u8, 147u8, 90u8, 186u8, 185u8, 56u8, 192u8, 150u8]
}

/// The eight bytes that mark a comment: the first eight bytes of the
/// SHA-256 hash of `account:Comment`.
pub open spec fn comment_marker() -> Seq<u8> {
    seq![150u8, 135u8, 96u8, 244u8, 55u8, 199u8, 50u8, 65u8]
}

/// A timestamp as eight little-endian bytes, in two's complement.
pub open spec fn time_bytes(time: i64) -> Seq<u8> {
    spec_u64_to_le_bytes(time as u64)
}

/// A text as its length in four little-endian bytes and its UTF-8 bytes.
pub open spec fn text_bytes(text: Seq<char>) -> Seq<u8> {
    spec_u32_to_le_bytes(byte_len(text) as u32) + encode_utf8(text)
}

/// `count` bytes that are zero.
pub open spec fn zeros(count: int) -> Seq<u8> {
    Seq::new(
        if count >= 0 {
            count as nat
        } else {
            0
        },
        |i: int| 0u8,
    )
}

/// The bytes of a post.
pub open spec fn post_bytes(post: PostView) -> Seq<u8> {
    post_marker() + post.author + post.id.encoding() + text_bytes(post.title) + text_bytes(post.content)
        + time_bytes(post.created_at) + time_bytes(post.updated_at) + spec_u32_to_le_bytes(
        post.comment_count,
    )
}

/// The bytes of a comment.
pub open spec fn comment_bytes(comment: CommentView) -> Seq<u8> {
    comment_marker() + comment.author + comment.post_id + comment.id.encoding() + text_bytes(comment.content)
        + time_bytes(comment.created_at) + time_bytes(comment.updated_at)
}

/// What the account of a post holds: the bytes of the post, then zeros up to
/// the space of a post.
pub open spec fn post_blob(post: PostView, scheme: KeyScheme) -> Seq<u8> {
    post_bytes(post) + zeros(scheme.spec_post_space() - post_bytes(post).len())
}

/// What the account of a comment holds: the bytes of the comment, then
/// zeros up to the space of a comment.
pub open spec fn comment_blob(comment: CommentView, scheme: KeyScheme) -> Seq<u8> {
    comment_bytes(comment) + zeros(scheme.spec_comment_space() - comment_bytes(comment).len())
}

/// The bytes of a post are as many as `stored_len` counts.
pub proof fn lemma_post_bytes_len(post: PostView)
    requires
        post.author.len() == 32,
    ensures
        post_bytes(post).len() == post.stored_len(),
{
    lemma_auto_spec_u32_to_from_le_bytes();
    lemma_auto_spec_u64_to_from_le_bytes();
}

/// The bytes of a comment are as many as `stored_len` counts.
pub proof fn lemma_comment_bytes_len(comment: CommentView)
    requires
        comment.author.len() == 32,
        comment.post_id.len() == 32,
    ensures
        comment_bytes(comment).len() == comment.stored_len(),
{
    lemma_auto_spec_u32_to_from_le_bytes();
    lemma_auto_spec_u64_to_from_le_bytes();
}

/// Puts `bytes` at the end of `out`.
fn append(out: &mut Vec<u8>, bytes: &[u8])
    ensures
        final(out)@ == old(out)@ + bytes@,
{
    let mut i: usize = 0;
    while i < bytes.len()
        invariant
            i <= bytes@.len(),
            out@ == old(out)@ + bytes@.subrange(0, i as int),
        decreases bytes@.len() - i,
    {
        out.push(bytes[i]);
        assert(bytes@.subrange(0, i + 1) =~= bytes@.subrange(0, i as int).push(bytes@[i as int]));
        i += 1;
    }
    assert(bytes@.subrange(0, i as int) =~= bytes@);
}

/// Puts a text at the end of `out`: its length, then its bytes.
fn append_text(out: &mut Vec<u8>, text: &String)
    requires
        byte_len(text@) <= u32::MAX,
    ensures
        final(out)@ == old(out)@ + text_bytes(text@),
{
    let raw = text.as_str().as_bytes();
    let prefix = u32_to_le_bytes(raw.len() as u32);
    append(out, prefix.as_slice());
    append(out, raw);
    assert(out@ =~= old(out)@ + text_bytes(text@));
}

/// Puts a timestamp at the end of `out`.
fn append_time(out: &mut Vec<u8>, time: i64)
    ensures
        final(out)@ == old(out)@ + time_bytes(time),
{
    let raw = u64_to_le_bytes(time as u64);
    append(out, raw.as_slice());
}

/// Puts zeros at the end of `out` until it has `space` bytes.
fn pad(out: &mut Vec<u8>, space: usize)
    requires
        old(out)@.len() <= space,
    ensures
        final(out)@ == old(out)@ + zeros(space - old(out)@.len()),
{
    while out.len() < space
        invariant
            old(out)@.len() <= out@.len() <= space,
            out@ == old(out)@ + zeros(out@.len() - old(out)@.len()),
        decreases space - out@.len(),
    {
        out.push(0u8);
        assert(out@ =~= old(out)@ + zeros(out@.len() - old(out)@.len()));
    }
    assert(out@ =~= old(out)@ + zeros(space - old(out)@.len()));
}

/// Lays a post out for its account. A post that is not valid under the
/// scheme has no layout.
pub fn encode_post(post: &Post, scheme: KeyScheme) -> (blob: Option<Vec<u8>>)
    ensures
        blob is Some <==> post@.valid(scheme),
        blob matches Some(bytes) ==> bytes@ == post_blob(post@, scheme) && bytes@.len()
            == scheme.spec_post_space(),
{
    if post.id.kind() != scheme || text_len(&post.title) > MAX_TITLE_LEN || text_len(&post.content)
        > scheme.max_content_len() || post.created_at > post.updated_at {
        return None;
    }
    proof {
        lemma_post_bytes_len(post@);
        lemma_encoding_len(post.id);
    }
    let mut out: Vec<u8> = Vec::new();
    append(&mut out, marker_of_posts().as_slice());
    append(&mut out, &post.author.bytes);
    append(&mut out, post.id.encode().as_slice());
    append_text(&mut out, &post.title);
    append_text(&mut out, &post.content);
    append_time(&mut out, post.created_at);
    append_time(&mut out, post.updated_at);
    append(&mut out, u32_to_le_bytes(post.comment_count).as_slice());
    assert(out@ =~= post_bytes(post@));
    pad(&mut out, scheme.post_space() as usize);
    Some(out)
}

/// Lays a comment out for its account. A comment that is not valid under
/// the scheme has no layout.
pub fn encode_comment(comment: &Comment, scheme: KeyScheme) -> (blob: Option<Vec<u8>>)
    ensures
        blob is Some <==> comment@.valid(scheme),
        blob matches Some(bytes) ==> bytes@ == comment_blob(comment@, scheme) && bytes@.len()
            == scheme.spec_comment_space(),
{
    if comment.id.kind() != scheme || text_len(&comment.content) > scheme.max_comment_len()
        || comment.created_at > comment.updated_at {
        return None;
    }
    proof {
        lemma_comment_bytes_len(comment@);
        lemma_encoding_len(comment.id);
    }
    let mut out: Vec<u8> = Vec::new();
    append(&mut out, marker_of_comments().as_slice());
    append(&mut out, &comment.author.bytes);
    append(&mut out, &comment.post_id.bytes);
    append(&mut out, comment.id.encode().as_slice());
    append_text(&mut out, &comment.content);
    append_time(&mut out, comment.created_at);
    append_time(&mut out, comment.updated_at);
    assert(out@ =~= comment_bytes(comment@));
    pad(&mut out, scheme.comment_space() as usize);
    Some(out)
}

/// The marker of posts, as bytes to write.
fn marker_of_posts() -> (marker: Vec<u8>)
    ensures
        marker@ == post_marker(),
{
    let mut marker: Vec<u8> = Vec::new();
    marker.push(8u8);
    marker.push(147u8);
    marker.push(90u8);
    marker.push(186u8);
    marker.push(185u8);
    marker.push(56u8);
    marker.push(192u8);
    marker.push(150u8);
    assert(marker@ =~= post_marker());
    marker
}

/// The marker of comments, as bytes to write.
fn marker_of_comments() -> (marker: Vec<u8>)
    ensures
        marker@ == comment_marker(),
{
    let mut marker: Vec<u8> = Vec::new();
    marker.push(150u8);
    marker.push(135u8);
    marker.push(96u8);
    marker.push(244u8);
    marker.push(55u8);
    marker.push(199u8);
    marker.push(50u8);
    marker.push(65u8);
    assert(marker@ =~= comment_marker());
    marker
}

/// The `len` bytes of `bytes` from `at` on, where it has that many.
pub open spec fn field(bytes: Seq<u8>, at: int, len: int) -> Option<Seq<u8>> {
    if 0 <= at && 0 <= len && at + len <= bytes.len() {
        Some(bytes.subrange(at, at + len))
    } else {
        None
    }
}

/// The array that holds the 32 bytes of `bytes`.
pub open spec fn array_of(bytes: Seq<u8>) -> [u8; 32] {
    choose|array: [u8; 32]| array@ == bytes
}

/// The timestamp that eight bytes stand for.
pub open spec fn time_of(raw: Seq<u8>) -> i64 {
    spec_u64_from_le_bytes(raw) as i64
}

/// The key of `scheme` that starts at `at`, and where it ends.
pub open spec fn parsed_key(bytes: Seq<u8>, at: int, scheme: KeyScheme) -> Option<(RecordKey, int)> {
    match scheme {
        KeyScheme::Sequence => match field(bytes, at, 8) {
            Some(raw) => Some((RecordKey::Sequence(spec_u64_from_le_bytes(raw)), at + 8)),
            None => None,
        },
        KeyScheme::Opaque => match field(bytes, at, 32) {
            Some(raw) => Some((RecordKey::Opaque(array_of(raw)), at + 32)),
            None => None,
        },
    }
}

/// The text that starts at `at`, and where it ends: four bytes give its
/// length, and as many bytes follow, which must be UTF-8.
pub open spec fn parsed_text(bytes: Seq<u8>, at: int) -> Option<(Seq<char>, int)> {
    match field(bytes, at, 4) {
        Some(prefix) => {
            let len = spec_u32_from_le_bytes(prefix) as int;
            match field(bytes, at + 4, len) {
                Some(raw) => if valid_utf8(raw) {
                    Some((decode_utf8(raw), at + 4 + len))
                } else {
                    None
                },
                None => None,
            }
        },
        None => None,
    }
}

/// The post that the bytes of an account hold, where they hold one: the
/// marker of a post and every field in its place. What follows the last
/// field is not looked at.
pub open spec fn parsed_post(bytes: Seq<u8>, scheme: KeyScheme) -> Option<PostView> {
    if field(bytes, 0, 8) != Some(post_marker()) {
        None
    } else if field(bytes, 8, 32) is None {
        None
    } else if parsed_key(bytes, 40, scheme) is None {
        None
    } else {
        let author = field(bytes, 8, 32)->Some_0;
        let (id, title_at) = parsed_key(bytes, 40, scheme)->Some_0;
        match parsed_text(bytes, title_at) {
            Some((title, content_at)) => match parsed_text(bytes, content_at) {
                Some((content, at)) => if field(bytes, at, 20) is Some {
                    Some(
                        PostView {
                            author,
                            id,
                            title,
                            content,
                            created_at: time_of(bytes.subrange(at, at + 8)),
                            updated_at: time_of(bytes.subrange(at + 8, at + 16)),
                            comment_count: spec_u32_from_le_bytes(bytes.subrange(at + 16, at + 20)),
                        },
                    )
                } else {
                    None
                },
                None => None,
            },
            None => None,
        }
    }
}

/// The comment that the bytes of an account hold, where they hold one.
pub open spec fn parsed_comment(bytes: Seq<u8>, scheme: KeyScheme) -> Option<CommentView> {
    if field(bytes, 0, 8) != Some(comment_marker()) {
        None
    } else if field(bytes, 8, 64) is None {
        None
    } else if parsed_key(bytes, 72, scheme) is None {
        None
    } else {
        let (id, content_at) = parsed_key(bytes, 72, scheme)->Some_0;
        match parsed_text(bytes, content_at) {
            Some((content, at)) => if field(bytes, at, 16) is Some {
                Some(
                    CommentView {
                        author: bytes.subrange(8, 40),
                        post_id: bytes.subrange(40, 72),
                        id,
                        content,
                        created_at: time_of(bytes.subrange(at, at + 8)),
                        updated_at: time_of(bytes.subrange(at + 8, at + 16)),
                    },
                )
            } else {
                None
            },
            None => None,
        }
    }
}

/// Calls `String::from_utf8` of std, which makes a string of the bytes
/// where they are valid UTF-8 and refuses them where they are not. The
/// string has the bytes it was made of.
#[verifier::external_body]
fn string_of(bytes: Vec<u8>) -> (text: Option<String>)
    ensures
        text is Some <==> valid_utf8(bytes@),
        text matches Some(found) ==> encode_utf8(found@) == bytes@,
{
    String::from_utf8(bytes).ok()
}

/// Reads the `len` bytes from `at` on.
fn read_field(bytes: &[u8], at: usize, len: usize) -> (got: Option<&[u8]>)
    ensures
        (match got {
            Some(raw) => field(bytes@, at as int, len as int) == Some(raw@),
            None => field(bytes@, at as int, len as int) is None,
        }),
        got is Some ==> at + len <= bytes@.len() <= usize::MAX,
{
    if len <= bytes.len() && at <= bytes.len() - len {
        Some(slice_subrange(bytes, at, at + len))
    } else {
        None
    }
}

/// Reads the 32 bytes from `at` on into an array.
fn read_array(bytes: &[u8], at: usize) -> (got: Option<[u8; 32]>)
    ensures
        (match got {
            Some(array) => field(bytes@, at as int, 32) == Some(array@),
            None => field(bytes@, at as int, 32) is None,
        }),
        got is Some ==> at + 32 <= bytes@.len() <= usize::MAX,
{
    match read_field(bytes, at, 32) {
        Some(raw) => {
            let mut array = [0u8; 32];
            let mut i: usize = 0;
            while i < 32
                invariant
                    i <= 32,
                    raw@.len() == 32,
                    forall|j: int| 0 <= j < i ==> array@[j] == raw@[j],
                decreases 32 - i,
            {
                array[i] = raw[i];
                i += 1;
            }
            assert(array@ =~= raw@);
            Some(array)
        },
        None => None,
    }
}

/// Reads the key of `scheme` that starts at `at`.
fn read_key(bytes: &[u8], at: usize, scheme: KeyScheme) -> (got: Option<(RecordKey, usize)>)
    ensures
        (match got {
            Some((key, next)) => parsed_key(bytes@, at as int, scheme) == Some((key, next as int)),
            None => parsed_key(bytes@, at as int, scheme) is None,
        }),
        got matches Some(found) ==> found.1 <= bytes@.len() <= usize::MAX,
{
    match scheme {
        KeyScheme::Sequence => match read_field(bytes, at, 8) {
            Some(raw) => Some((RecordKey::Sequence(u64_from_le_bytes(raw)), at + 8)),
            None => None,
        },
        KeyScheme::Opaque => match read_array(bytes, at) {
            Some(array) => {
                assert(array_of(array@) =~= array);
                Some((RecordKey::Opaque(array), at + 32))
            },
            None => None,
        },
    }
}

/// Reads the text that starts at `at`.
fn read_text(bytes: &[u8], at: usize) -> (got: Option<(String, usize)>)
    ensures
        (match got {
            Some((text, next)) => parsed_text(bytes@, at as int) == Some((text@, next as int)),
            None => parsed_text(bytes@, at as int) is None,
        }),
        got matches Some(found) ==> found.1 <= bytes@.len() <= usize::MAX,
{
    let prefix = match read_field(bytes, at, 4) {
        Some(prefix) => prefix,
        None => {
            return None;
        },
    };
    let len = u32_from_le_bytes(prefix) as usize;
    let raw = match read_field(bytes, at + 4, len) {
        Some(raw) => raw,
        None => {
            return None;
        },
    };
    match string_of(slice_to_vec(raw)) {
        Some(text) => {
            proof {
                encode_utf8_decode_utf8(text@);
            }
            Some((text, at + 4 + len))
        },
        None => None,
    }
}

/// Reads the timestamp in the eight bytes from `at` on.
fn read_time(bytes: &[u8], at: usize) -> (time: i64)
    requires
        at + 8 <= bytes@.len() <= usize::MAX,
    ensures
        time == time_of(bytes@.subrange(at as int, at + 8)),
{
    #[verifier::truncate]
    (u64_from_le_bytes(slice_subrange(bytes, at, at + 8)) as i64)
}

/// Reads a post from the bytes of its account.
pub fn decode_post(bytes: &[u8], scheme: KeyScheme) -> (post: Option<Post>)
    ensures
        (match post {
            Some(found) => parsed_post(bytes@, scheme) == Some(found@),
            None => parsed_post(bytes@, scheme) is None,
        }),
{
    match read_field(bytes, 0, 8) {
        Some(marker) => {
            if !same_bytes(marker, marker_of_posts().as_slice()) {
                return None;
            }
        },
        None => {
            return None;
        },
    }
    let author = match read_array(bytes, 8) {
        Some(author) => author,
        None => {
            return None;
        },
    };
    let (id, title_at) = match read_key(bytes, 40, scheme) {
        Some(found) => found,
        None => {
            return None;
        },
    };
    let (title, content_at) = match read_text(bytes, title_at) {
        Some(found) => found,
        None => {
            return None;
        },
    };
    let (content, at) = match read_text(bytes, content_at) {
        Some(found) => found,
        None => {
            return None;
        },
    };
    if read_field(bytes, at, 20).is_none() {
        return None;
    }
    let created_at = read_time(bytes, at);
    let updated_at = read_time(bytes, at + 8);
    let comment_count = u32_from_le_bytes(slice_subrange(bytes, at + 16, at + 20));
    Some(Post { author: Address { bytes: author }, id, title, content, created_at, updated_at, comment_count })
}

/// Reads a comment from the bytes of its account.
pub fn decode_comment(bytes: &[u8], scheme: KeyScheme) -> (comment: Option<Comment>)
    ensures
        (match comment {
            Some(found) => parsed_comment(bytes@, scheme) == Some(found@),
            None => parsed_comment(bytes@, scheme) is None,
        }),
{
    match read_field(bytes, 0, 8) {
        Some(marker) => {
            if !same_bytes(marker, marker_of_comments().as_slice()) {
                return None;
            }
        },
        None => {
            return None;
        },
    }
    if read_field(bytes, 8, 64).is_none() {
        return None;
    }
    let author = match read_array(bytes, 8) {
        Some(author) => author,
        None => {
            return None;
        },
    };
    let post_id = match read_array(bytes, 40) {
        Some(post_id) => post_id,
        None => {
            return None;
        },
    };
    let (id, content_at) = match read_key(bytes, 72, scheme) {
        Some(found) => found,
        None => {
            return None;
        },
    };
    let (content, at) = match read_text(bytes, content_at) {
        Some(found) => found,
        None => {
            return None;
        },
    };
    if read_field(bytes, at, 16).is_none() {
        return None;
    }
    let created_at = read_time(bytes, at);
    let updated_at = read_time(bytes, at + 8);
    Some(
        Comment {
            author: Address { bytes: author },
            post_id: Address { bytes: post_id },
            id,
            content,
            created_at,
            updated_at,
        },
    )
}

/// Whether two runs of bytes are the same.
fn same_bytes(first: &[u8], second: &[u8]) -> (same: bool)
    ensures
        same == (first@ == second@),
{
    if first.len() != second.len() {
        return false;
    }
    let mut i: usize = 0;
    while i < first.len()
        invariant
            i <= first@.len(),
            first@.len() == second@.len(),
            forall|j: int| 0 <= j < i ==> first@[j] == second@[j],
        decreases first@.len() - i,
    {
        if first[i] != second[i] {
            return false;
        }
        i += 1;
    }
    assert(first@ =~= second@);
    true
}

/// A piece laid between two runs of bytes is the field at its place.
proof fn lemma_field_between(head: Seq<u8>, piece: Seq<u8>, tail: Seq<u8>)
    ensures
        field(head + piece + tail, head.len() as int, piece.len() as int) == Some(piece),
        (head + piece + tail).subrange(head.len() as int, (head.len() + piece.len()) as int) == piece,
{
    assert((head + piece + tail).subrange(head.len() as int, (head.len() + piece.len()) as int) =~= piece);
}

/// A text laid between two runs of bytes is the text at its place.
proof fn lemma_text_between(head: Seq<u8>, text: Seq<char>, tail: Seq<u8>)
    requires
        byte_len(text) <= u32::MAX,
    ensures
        parsed_text(head + text_bytes(text) + tail, head.len() as int) == Some(
            (text, (head.len() + 4 + byte_len(text)) as int),
        ),
{
    lemma_auto_spec_u32_to_from_le_bytes();
    encode_utf8_valid_utf8(text);
    encode_utf8_decode_utf8(text);
    let prefix = spec_u32_to_le_bytes(byte_len(text) as u32);
    let raw = encode_utf8(text);
    let whole = head + text_bytes(text) + tail;
    assert(whole =~= head + prefix + (raw + tail));
    lemma_field_between(head, prefix, raw + tail);
    assert(whole =~= (head + prefix) + raw + tail);
    lemma_field_between(head + prefix, raw, tail);
}

/// A key laid between two runs of bytes is the key at its place.
proof fn lemma_key_between(head: Seq<u8>, key: RecordKey, tail: Seq<u8>)
    ensures
        parsed_key(head + key.encoding() + tail, head.len() as int, key.scheme()) == Some(
            (key, (head.len() + key.scheme().key_len()) as int),
        ),
{
    lemma_auto_spec_u64_to_from_le_bytes();
    lemma_encoding_len(key);
    lemma_field_between(head, key.encoding(), tail);
    match key {
        RecordKey::Sequence(number) => {},
        RecordKey::Opaque(array) => {
            assert(array_of(array@) =~= array);
        },
    }
}

/// A timestamp is the one that its bytes stand for.
proof fn lemma_time_round_trip(time: i64)
    ensures
        time_of(time_bytes(time)) == time,
        time_bytes(time).len() == 8,
{
    lemma_auto_spec_u64_to_from_le_bytes();
    assert((time as u64) as i64 == time) by (bit_vector);
}

/// Runs of bytes can be joined in either order of joining.
proof fn lemma_join(first: Seq<u8>, second: Seq<u8>, third: Seq<u8>)
    ensures
        (first + second) + third == first + (second + third),
{
    assert((first + second) + third =~= first + (second + third));
}

/// Reading gives back what was laid out: the account of a valid post holds
/// that post, and has exactly the space of a post.
pub proof fn lemma_post_layout_round_trip(post: PostView, scheme: KeyScheme)
    requires
        post.valid(scheme),
    ensures
        parsed_post(post_blob(post, scheme), scheme) == Some(post),
        post_blob(post, scheme).len() == scheme.spec_post_space(),
{
    let marker = post_marker();
    let key = post.id.encoding();
    let title = text_bytes(post.title);
    let content = text_bytes(post.content);
    let created = time_bytes(post.created_at);
    let updated = time_bytes(post.updated_at);
    let count = spec_u32_to_le_bytes(post.comment_count);
    let rest = zeros(scheme.spec_post_space() - post_bytes(post).len());
    let blob = post_blob(post, scheme);
    let key_at = 40int;
    let title_at = key_at + scheme.key_len();
    let content_at = title_at + 4 + byte_len(post.title);
    let at = content_at + 4 + byte_len(post.content);

    let head1 = marker;
    let head2 = head1 + post.author;
    let head3 = head2 + key;
    let head4 = head3 + title;
    let head5 = head4 + content;
    let head6 = head5 + created;
    let head7 = head6 + updated;
    let head8 = head7 + count;
    let tail7 = count + rest;
    let tail6 = updated + tail7;
    let tail5 = created + tail6;
    let tail4 = content + tail5;
    let tail3 = title + tail4;
    let tail2 = key + tail3;
    let tail1 = post.author + tail2;

    assert(title.len() == 4 + byte_len(post.title) && content.len() == 4 + byte_len(post.content)
        && count.len() == 4 && key.len() == scheme.key_len()) by {
        lemma_auto_spec_u32_to_from_le_bytes();
        lemma_encoding_len(post.id);
    }
    assert(created.len() == 8 && time_of(created) == post.created_at) by {
        lemma_time_round_trip(post.created_at);
    }
    assert(updated.len() == 8 && time_of(updated) == post.updated_at) by {
        lemma_time_round_trip(post.updated_at);
    }
    assert(spec_u32_from_le_bytes(count) == post.comment_count) by {
        lemma_auto_spec_u32_to_from_le_bytes();
    }
    assert(blob == head8 + rest);
    assert(blob == head7 + tail7) by {
        lemma_join(head7, count, rest);
    }
    assert(blob == head6 + tail6) by {
        lemma_join(head6, updated, tail7);
    }
    assert(blob == head5 + tail5) by {
        lemma_join(head5, created, tail6);
    }
    assert(blob == head4 + tail4) by {
        lemma_join(head4, content, tail5);
    }
    assert(blob == head3 + tail3) by {
        lemma_join(head3, title, tail4);
    }
    assert(blob == head2 + tail2) by {
        lemma_join(head2, key, tail3);
    }
    assert(blob == head1 + tail1) by {
        lemma_join(head1, post.author, tail2);
    }
    assert(field(blob, 0, 8) == Some(marker)) by {
        assert(Seq::<u8>::empty() + marker =~= marker);
        lemma_field_between(Seq::<u8>::empty(), marker, tail1);
    }
    assert(field(blob, 8, 32) == Some(post.author)) by {
        lemma_field_between(head1, post.author, tail2);
    }
    assert(parsed_key(blob, key_at, scheme) == Some((post.id, title_at))) by {
        lemma_key_between(head2, post.id, tail3);
    }
    assert(parsed_text(blob, title_at) == Some((post.title, content_at))) by {
        lemma_text_between(head3, post.title, tail4);
    }
    assert(parsed_text(blob, content_at) == Some((post.content, at))) by {
        lemma_text_between(head4, post.content, tail5);
    }
    assert(blob.subrange(at, at + 8) == created) by {
        lemma_field_between(head5, created, tail6);
    }
    assert(blob.subrange(at + 8, at + 16) == updated) by {
        lemma_field_between(head6, updated, tail7);
    }
    assert(blob.subrange(at + 16, at + 20) == count && field(blob, at, 20) is Some) by {
        lemma_field_between(head7, count, rest);
    }
    assert(blob.len() == scheme.spec_post_space()) by {
        lemma_post_bytes_len(post);
    }
}

/// The account of a valid comment holds that comment, and has exactly the
/// space of a comment.
pub proof fn lemma_comment_layout_round_trip(comment: CommentView, scheme: KeyScheme)
    requires
        comment.valid(scheme),
    ensures
        parsed_comment(comment_blob(comment, scheme), scheme) == Some(comment),
        comment_blob(comment, scheme).len() == scheme.spec_comment_space(),
{
    let marker = comment_marker();
    let key = comment.id.encoding();
    let content = text_bytes(comment.content);
    let created = time_bytes(comment.created_at);
    let updated = time_bytes(comment.updated_at);
    let rest = zeros(scheme.spec_comment_space() - comment_bytes(comment).len());
    let blob = comment_blob(comment, scheme);
    let key_at = 72int;
    let content_at = key_at + scheme.key_len();
    let at = content_at + 4 + byte_len(comment.content);

    let head1 = marker;
    let head2 = head1 + comment.author;
    let head3 = head2 + comment.post_id;
    let head4 = head3 + key;
    let head5 = head4 + content;
    let head6 = head5 + created;
    let head7 = head6 + updated;
    let tail6 = updated + rest;
    let tail5 = created + tail6;
    let tail4 = content + tail5;
    let tail3 = key + tail4;
    let tail2 = comment.post_id + tail3;
    let tail1 = comment.author + tail2;

    assert(content.len() == 4 + byte_len(comment.content) && key.len() == scheme.key_len()) by {
        lemma_auto_spec_u32_to_from_le_bytes();
        lemma_encoding_len(comment.id);
    }
    assert(created.len() == 8 && time_of(created) == comment.created_at) by {
        lemma_time_round_trip(comment.created_at);
    }
    assert(updated.len() == 8 && time_of(updated) == comment.updated_at) by {
        lemma_time_round_trip(comment.updated_at);
    }
    assert(blob == head7 + rest);
    assert(blob == head6 + tail6) by {
        lemma_join(head6, updated, rest);
    }
    assert(blob == head5 + tail5) by {
        lemma_join(head5, created, tail6);
    }
    assert(blob == head4 + tail4) by {
        lemma_join(head4, content, tail5);
    }
    assert(blob == head3 + tail3) by {
        lemma_join(head3, key, tail4);
    }
    assert(blob == head2 + tail2) by {
        lemma_join(head2, comment.post_id, tail3);
    }
    assert(blob == head1 + tail1) by {
        lemma_join(head1, comment.author, tail2);
    }
    assert(field(blob, 0, 8) == Some(marker)) by {
        assert(Seq::<u8>::empty() + marker =~= marker);
        lemma_field_between(Seq::<u8>::empty(), marker, tail1);
    }
    assert(blob.subrange(8, 40) == comment.author) by {
        lemma_field_between(head1, comment.author, tail2);
    }
    assert(blob.subrange(40, 72) == comment.post_id) by {
        lemma_field_between(head2, comment.post_id, tail3);
    }
    assert(parsed_key(blob, key_at, scheme) == Some((comment.id, content_at))) by {
        lemma_key_between(head3, comment.id, tail4);
    }
    assert(parsed_text(blob, content_at) == Some((comment.content, at))) by {
        lemma_text_between(head4, comment.content, tail5);
    }
    assert(blob.subrange(at, at + 8) == created) by {
        lemma_field_between(head5, created, tail6);
    }
    assert(blob.subrange(at + 8, at + 16) == updated) by {
        lemma_field_between(head6, updated, rest);
    }
    assert(blob.len() == scheme.spec_comment_space() && field(blob, 8, 64) is Some && field(blob, at, 16)
        is Some) by {
        lemma_comment_bytes_len(comment);
    }
}

} // verus!

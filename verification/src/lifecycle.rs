//! The operations that create, update and delete records.
//!
//! Each operation is stated twice. A `spec` function gives its outcome from
//! the store, the call's context and the address that the record's owner
//! and key derive. The executable operation is proved to return that
//! outcome, and to leave the store as it was when it fails.
//!
//! The operations whose names end in `_with` take the derived address as an
//! argument; the others derive it first and then do the same.

use vstd::prelude::*;
use crate::address::{find_comment_address, find_post_address, found_address, Address, Derived};
use crate::context::{
    AddComment, CreatePost, DeleteComment, DeletePost, ErrorCode, ResourceEffect, UpdateComment,
    UpdatePost,
};
use crate::key::RecordKey;
use crate::record::{
    byte_len, count_after_add, count_after_delete, text_len, update_time, Comment, CommentView, Post,
    PostView, MAX_TITLE_LEN,
};
use crate::store::{RecordStore, StoreState};

verus! {

/// The outcome of creating a post, where `derived` is the address that the
/// signer and `id` derive. The address presented must be that address and
/// hold no record, and both texts must be within their limits. The new post
/// belongs to the signer, carries the current time twice and counts no
/// comment; the signer funds the space of a post.
pub open spec fn create_post_outcome(
    store: StoreState,
    ctx: CreatePost,
    derived: Option<Seq<u8>>,
    title: Seq<char>,
    content: Seq<char>,
    id: RecordKey,
) -> Result<(StoreState, ResourceEffect), ErrorCode> {
    if id.scheme() != store.scheme || derived != Some(ctx.post@) {
        Err(ErrorCode::AddressMismatch)
    } else if store.is_live(ctx.post@) {
        Err(ErrorCode::DuplicateAddress)
    } else if byte_len(title) > MAX_TITLE_LEN || byte_len(content) > store.scheme.spec_max_content_len() {
        Err(ErrorCode::ExceedsMaxLength)
    } else {
        Ok(
            (
                store.with_post(
                    ctx.post@,
                    PostView {
                        author: ctx.author@,
                        id,
                        title,
                        content,
                        created_at: ctx.now,
                        updated_at: ctx.now,
                        comment_count: 0,
                    },
                ),
                ResourceEffect::Allocate { payer: ctx.author, space: store.scheme.spec_post_space() },
            ),
        )
    }
}

/// The outcome of updating a post, where `derived` is the address that the
/// signer derives with the post's key. A post must live at the address
/// presented, the signer must be its author, the address must be the one
/// derived and both texts must be within their limits. The texts are
/// replaced and the time of the update is recorded; nothing else changes.
pub open spec fn update_post_outcome(
    store: StoreState,
    ctx: UpdatePost,
    derived: Option<Seq<u8>>,
    title: Seq<char>,
    content: Seq<char>,
) -> Result<StoreState, ErrorCode> {
    if !store.posts.contains_key(ctx.post@) {
        Err(ErrorCode::NotFound)
    } else if store.posts[ctx.post@].author != ctx.author@ {
        Err(ErrorCode::AuthorMismatch)
    } else if derived != Some(ctx.post@) {
        Err(ErrorCode::AddressMismatch)
    } else if byte_len(title) > MAX_TITLE_LEN || byte_len(content) > store.scheme.spec_max_content_len() {
        Err(ErrorCode::ExceedsMaxLength)
    } else {
        let post = store.posts[ctx.post@];
        Ok(
            store.with_post(
                ctx.post@,
                PostView { title, content, updated_at: update_time(post.created_at, ctx.now), ..post },
            ),
        )
    }
}

/// The outcome of deleting a post, where `derived` is the address that the
/// signer derives with the post's key. A post must live at the address
/// presented, the signer must be its author and the address must be the one
/// derived. The post leaves the store, and the signer gets back the funds
/// for the space of a post.
pub open spec fn delete_post_outcome(store: StoreState, ctx: DeletePost, derived: Option<Seq<u8>>) -> Result<
    (StoreState, ResourceEffect),
    ErrorCode,
> {
    if !store.posts.contains_key(ctx.post@) {
        Err(ErrorCode::NotFound)
    } else if store.posts[ctx.post@].author != ctx.author@ {
        Err(ErrorCode::AuthorMismatch)
    } else if derived != Some(ctx.post@) {
        Err(ErrorCode::AddressMismatch)
    } else {
        Ok(
            (
                store.without_post(ctx.post@),
                ResourceEffect::Release { recipient: ctx.author, space: store.scheme.spec_post_space() },
            ),
        )
    }
}

/// The outcome of adding a comment, where `derived` is the address that the
/// post's address and `id` derive. The post must live, the address presented
/// for the comment must be the one derived and hold no record, the content
/// must be within its limit and the post's counter must be able to count one
/// more. The new comment belongs to the signer, points to the post and
/// carries the current time twice; the post counts one comment more; the
/// signer funds the space of a comment.
pub open spec fn add_comment_outcome(
    store: StoreState,
    ctx: AddComment,
    derived: Option<Seq<u8>>,
    content: Seq<char>,
    id: RecordKey,
) -> Result<(StoreState, ResourceEffect), ErrorCode> {
    if !store.posts.contains_key(ctx.post@) {
        Err(ErrorCode::NotFound)
    } else if id.scheme() != store.scheme || derived != Some(ctx.comment@) {
        Err(ErrorCode::AddressMismatch)
    } else if store.is_live(ctx.comment@) {
        Err(ErrorCode::DuplicateAddress)
    } else if byte_len(content) > store.scheme.spec_max_comment_len() {
        Err(ErrorCode::ExceedsMaxLength)
    } else {
        let post = store.posts[ctx.post@];
        match count_after_add(post.comment_count) {
            None => Err(ErrorCode::CounterOverflow),
            Some(count) => Ok(
                (
                    store.with_comment(
                        ctx.comment@,
                        CommentView {
                            author: ctx.author@,
                            post_id: ctx.post@,
                            id,
                            content,
                            created_at: ctx.now,
                            updated_at: ctx.now,
                        },
                    ).with_post(ctx.post@, PostView { comment_count: count, ..post }),
                    ResourceEffect::Allocate {
                        payer: ctx.author,
                        space: store.scheme.spec_comment_space(),
                    },
                ),
            ),
        }
    }
}

/// The outcome of updating a comment, where `derived` is the address that
/// the post presented derives with the comment's key. A comment must live
/// at the address presented, the signer must be its author, the post
/// presented must be the one it points to, the address must be the one
/// derived and the content must be within its limit. The content is
/// replaced and the time of the update is recorded; nothing else changes.
pub open spec fn update_comment_outcome(
    store: StoreState,
    ctx: UpdateComment,
    derived: Option<Seq<u8>>,
    content: Seq<char>,
) -> Result<StoreState, ErrorCode> {
    if !store.comments.contains_key(ctx.comment@) {
        Err(ErrorCode::NotFound)
    } else if store.comments[ctx.comment@].author != ctx.author@ {
        Err(ErrorCode::AuthorMismatch)
    } else if store.comments[ctx.comment@].post_id != ctx.post@ || derived != Some(ctx.comment@) {
        Err(ErrorCode::AddressMismatch)
    } else if byte_len(content) > store.scheme.spec_max_comment_len() {
        Err(ErrorCode::ExceedsMaxLength)
    } else {
        let comment = store.comments[ctx.comment@];
        Ok(
            store.with_comment(
                ctx.comment@,
                CommentView {
                    content,
                    updated_at: update_time(comment.created_at, ctx.now),
                    ..comment
                },
            ),
        )
    }
}

/// The outcome of deleting a comment, where `derived` is the address that
/// the post presented derives with the comment's key. A comment must live
/// at the address presented, the signer must be its author, the post
/// presented must be the one it points to, the address must be the one
/// derived, and the post must live. The comment leaves the store, the post
/// counts one comment less but never less than none, and the signer gets
/// back the funds for the space of a comment.
pub open spec fn delete_comment_outcome(
    store: StoreState,
    ctx: DeleteComment,
    derived: Option<Seq<u8>>,
) -> Result<(StoreState, ResourceEffect), ErrorCode> {
    if !store.comments.contains_key(ctx.comment@) {
        Err(ErrorCode::NotFound)
    } else if store.comments[ctx.comment@].author != ctx.author@ {
        Err(ErrorCode::AuthorMismatch)
    } else if store.comments[ctx.comment@].post_id != ctx.post@ || derived != Some(ctx.comment@) {
        Err(ErrorCode::AddressMismatch)
    } else if !store.posts.contains_key(ctx.post@) {
        Err(ErrorCode::NotFound)
    } else {
        let post = store.posts[ctx.post@];
        Ok(
            (
                store.without_comment(ctx.comment@).with_post(
                    ctx.post@,
                    PostView { comment_count: count_after_delete(post.comment_count), ..post },
                ),
                ResourceEffect::Release {
                    recipient: ctx.author,
                    space: store.scheme.spec_comment_space(),
                },
            ),
        )
    }
}

/// Creates a post at the address presented, given the address that the
/// signer and `id` derive.
pub fn create_post_with(
    store: &mut RecordStore,
    ctx: &CreatePost,
    derived: Option<Derived>,
    title: String,
    content: String,
    id: RecordKey,
) -> (result: Result<ResourceEffect, ErrorCode>)
    requires
        old(store).wf(),
    ensures
        final(store).wf(),
        ({
            let outcome = create_post_outcome(
                old(store)@,
                *ctx,
                found_address(derived),
                title@,
                content@,
                id,
            );
            match result {
                Ok(effect) => outcome matches Ok(done) && done == (final(store)@, effect),
                Err(error) => outcome matches Err(refused) && refused == error && *final(store)
                    == *old(store),
            }
        }),
{
    if id.kind() != store.scheme() || !presented(&derived, &ctx.post) {
        return Err(ErrorCode::AddressMismatch);
    }
    if store.is_live(&ctx.post) {
        return Err(ErrorCode::DuplicateAddress);
    }
    if text_len(&title) > MAX_TITLE_LEN || text_len(&content) > store.scheme().max_content_len() {
        return Err(ErrorCode::ExceedsMaxLength);
    }
    let space = store.scheme().post_space();
    let post = Post {
        author: ctx.author,
        id,
        title,
        content,
        created_at: ctx.now,
        updated_at: ctx.now,
        comment_count: 0,
    };
    store.put_post(ctx.post, post);
    Ok(ResourceEffect::Allocate { payer: ctx.author, space })
}

/// Creates a post: derives the address of the signer's post with key `id`
/// and creates the post there, if that is the address presented.
pub fn create_post(
    store: &mut RecordStore,
    ctx: &CreatePost,
    title: String,
    content: String,
    id: RecordKey,
) -> (result: Result<ResourceEffect, ErrorCode>)
    requires
        old(store).wf(),
    ensures
        final(store).wf(),
        ({
            let outcome = create_post_outcome(
                old(store)@,
                *ctx,
                old(store)@.post_address(ctx.author@, id),
                title@,
                content@,
                id,
            );
            match result {
                Ok(effect) => outcome matches Ok(done) && done == (final(store)@, effect),
                Err(error) => outcome matches Err(refused) && refused == error && *final(store)
                    == *old(store),
            }
        }),
{
    let derived = find_post_address(&store.program_id(), &ctx.author, &id);
    create_post_with(store, ctx, derived, title, content, id)
}

/// Adds a comment at the address presented, given the address that the
/// post's address and `id` derive.
pub fn add_comment_with(
    store: &mut RecordStore,
    ctx: &AddComment,
    derived: Option<Derived>,
    content: String,
    id: RecordKey,
) -> (result: Result<ResourceEffect, ErrorCode>)
    requires
        old(store).wf(),
    ensures
        final(store).wf(),
        ({
            let outcome = add_comment_outcome(
                old(store)@,
                *ctx,
                found_address(derived),
                content@,
                id,
            );
            match result {
                Ok(effect) => outcome matches Ok(done) && done == (final(store)@, effect),
                Err(error) => outcome matches Err(refused) && refused == error && *final(store)
                    == *old(store),
            }
        }),
{
    let count = match store.post(&ctx.post) {
        Some(post) => post.comment_count,
        None => {
            return Err(ErrorCode::NotFound);
        },
    };
    if id.kind() != store.scheme() || !presented(&derived, &ctx.comment) {
        return Err(ErrorCode::AddressMismatch);
    }
    if store.is_live(&ctx.comment) {
        return Err(ErrorCode::DuplicateAddress);
    }
    if text_len(&content) > store.scheme().max_comment_len() {
        return Err(ErrorCode::ExceedsMaxLength);
    }
    if count == u32::MAX {
        return Err(ErrorCode::CounterOverflow);
    }
    let space = store.scheme().comment_space();
    let comment = Comment {
        author: ctx.author,
        post_id: ctx.post,
        id,
        content,
        created_at: ctx.now,
        updated_at: ctx.now,
    };
    store.put_comment(ctx.comment, comment);
    store.set_comment_count(&ctx.post, count + 1);
    Ok(ResourceEffect::Allocate { payer: ctx.author, space })
}

/// Adds a comment: derives the address of the comment under the post with
/// key `id` and creates the comment there, if that is the address
/// presented.
pub fn add_comment(store: &mut RecordStore, ctx: &AddComment, content: String, id: RecordKey) -> (result:
    Result<ResourceEffect, ErrorCode>)
    requires
        old(store).wf(),
    ensures
        final(store).wf(),
        ({
            let outcome = add_comment_outcome(
                old(store)@,
                *ctx,
                old(store)@.comment_address(ctx.post@, id),
                content@,
                id,
            );
            match result {
                Ok(effect) => outcome matches Ok(done) && done == (final(store)@, effect),
                Err(error) => outcome matches Err(refused) && refused == error && *final(store)
                    == *old(store),
            }
        }),
{
    let derived = find_comment_address(&store.program_id(), &ctx.post, &id);
    add_comment_with(store, ctx, derived, content, id)
}

/// Updates the post at the address presented, given the address that the
/// signer derives with the post's key.
pub fn update_post_with(
    store: &mut RecordStore,
    ctx: &UpdatePost,
    derived: Option<Derived>,
    title: String,
    content: String,
) -> (result: Result<(), ErrorCode>)
    requires
        old(store).wf(),
    ensures
        final(store).wf(),
        ({
            let outcome = update_post_outcome(
                old(store)@,
                *ctx,
                found_address(derived),
                title@,
                content@,
            );
            match result {
                Ok(_) => outcome matches Ok(after) && after == final(store)@,
                Err(error) => outcome matches Err(refused) && refused == error && *final(store)
                    == *old(store),
            }
        }),
{
    let (id, created_at, comment_count) = match store.post(&ctx.post) {
        Some(post) => {
            if !post.author.same(&ctx.author) {
                return Err(ErrorCode::AuthorMismatch);
            }
            (post.id, post.created_at, post.comment_count)
        },
        None => {
            return Err(ErrorCode::NotFound);
        },
    };
    if !presented(&derived, &ctx.post) {
        return Err(ErrorCode::AddressMismatch);
    }
    if text_len(&title) > MAX_TITLE_LEN || text_len(&content) > store.scheme().max_content_len() {
        return Err(ErrorCode::ExceedsMaxLength);
    }
    let updated_at = if ctx.now >= created_at {
        ctx.now
    } else {
        created_at
    };
    let post = Post { author: ctx.author, id, title, content, created_at, updated_at, comment_count };
    store.put_post(ctx.post, post);
    Ok(())
}

/// Updates a post: derives the address of the signer's post with the key
/// stored at the address presented, and replaces the texts there.
pub fn update_post(store: &mut RecordStore, ctx: &UpdatePost, title: String, content: String) -> (result:
    Result<(), ErrorCode>)
    requires
        old(store).wf(),
    ensures
        final(store).wf(),
        ({
            let outcome = update_post_outcome(
                old(store)@,
                *ctx,
                old(store)@.post_rederived(ctx.post@, ctx.author@),
                title@,
                content@,
            );
            match result {
                Ok(_) => outcome matches Ok(after) && after == final(store)@,
                Err(error) => outcome matches Err(refused) && refused == error && *final(store)
                    == *old(store),
            }
        }),
{
    let derived = rederive_post(store, &ctx.post, &ctx.author);
    update_post_with(store, ctx, derived, title, content)
}

/// Updates the comment at the address presented, given the address that
/// the post presented derives with the comment's key.
pub fn update_comment_with(
    store: &mut RecordStore,
    ctx: &UpdateComment,
    derived: Option<Derived>,
    content: String,
) -> (result: Result<(), ErrorCode>)
    requires
        old(store).wf(),
    ensures
        final(store).wf(),
        ({
            let outcome = update_comment_outcome(
                old(store)@,
                *ctx,
                found_address(derived),
                content@,
            );
            match result {
                Ok(_) => outcome matches Ok(after) && after == final(store)@,
                Err(error) => outcome matches Err(refused) && refused == error && *final(store)
                    == *old(store),
            }
        }),
{
    let (id, created_at) = match store.comment(&ctx.comment) {
        Some(comment) => {
            if !comment.author.same(&ctx.author) {
                return Err(ErrorCode::AuthorMismatch);
            }
            if !comment.post_id.same(&ctx.post) {
                return Err(ErrorCode::AddressMismatch);
            }
            (comment.id, comment.created_at)
        },
        None => {
            return Err(ErrorCode::NotFound);
        },
    };
    if !presented(&derived, &ctx.comment) {
        return Err(ErrorCode::AddressMismatch);
    }
    if text_len(&content) > store.scheme().max_comment_len() {
        return Err(ErrorCode::ExceedsMaxLength);
    }
    let updated_at = if ctx.now >= created_at {
        ctx.now
    } else {
        created_at
    };
    let comment = Comment { author: ctx.author, post_id: ctx.post, id, content, created_at, updated_at };
    store.put_comment(ctx.comment, comment);
    Ok(())
}

/// Updates a comment: derives the address of the comment under the post
/// presented with the key stored at the address presented, and replaces the
/// content there.
pub fn update_comment(store: &mut RecordStore, ctx: &UpdateComment, content: String) -> (result: Result<
    (),
    ErrorCode,
>)
    requires
        old(store).wf(),
    ensures
        final(store).wf(),
        ({
            let outcome = update_comment_outcome(
                old(store)@,
                *ctx,
                old(store)@.comment_rederived(ctx.comment@, ctx.post@),
                content@,
            );
            match result {
                Ok(_) => outcome matches Ok(after) && after == final(store)@,
                Err(error) => outcome matches Err(refused) && refused == error && *final(store)
                    == *old(store),
            }
        }),
{
    let derived = rederive_comment(store, &ctx.comment, &ctx.post);
    update_comment_with(store, ctx, derived, content)
}

/// Deletes the comment at the address presented, given the address that
/// the post presented derives with the comment's key.
pub fn delete_comment_with(store: &mut RecordStore, ctx: &DeleteComment, derived: Option<Derived>) -> (result:
    Result<ResourceEffect, ErrorCode>)
    requires
        old(store).wf(),
    ensures
        final(store).wf(),
        ({
            let outcome = delete_comment_outcome(
                old(store)@,
                *ctx,
                found_address(derived),
            );
            match result {
                Ok(effect) => outcome matches Ok(done) && done == (final(store)@, effect),
                Err(error) => outcome matches Err(refused) && refused == error && *final(store)
                    == *old(store),
            }
        }),
{
    match store.comment(&ctx.comment) {
        Some(comment) => {
            if !comment.author.same(&ctx.author) {
                return Err(ErrorCode::AuthorMismatch);
            }
            if !comment.post_id.same(&ctx.post) {
                return Err(ErrorCode::AddressMismatch);
            }
        },
        None => {
            return Err(ErrorCode::NotFound);
        },
    }
    if !presented(&derived, &ctx.comment) {
        return Err(ErrorCode::AddressMismatch);
    }
    let count = match store.post(&ctx.post) {
        Some(post) => post.comment_count,
        None => {
            return Err(ErrorCode::NotFound);
        },
    };
    let space = store.scheme().comment_space();
    store.take_comment(&ctx.comment);
    store.set_comment_count(&ctx.post, count.saturating_sub(1));
    Ok(ResourceEffect::Release { recipient: ctx.author, space })
}

/// Deletes a comment: derives the address of the comment under the post
/// presented with the key stored at the address presented, and removes the
/// comment there.
pub fn delete_comment(store: &mut RecordStore, ctx: &DeleteComment) -> (result: Result<
    ResourceEffect,
    ErrorCode,
>)
    requires
        old(store).wf(),
    ensures
        final(store).wf(),
        ({
            let outcome = delete_comment_outcome(
                old(store)@,
                *ctx,
                old(store)@.comment_rederived(ctx.comment@, ctx.post@),
            );
            match result {
                Ok(effect) => outcome matches Ok(done) && done == (final(store)@, effect),
                Err(error) => outcome matches Err(refused) && refused == error && *final(store)
                    == *old(store),
            }
        }),
{
    let derived = rederive_comment(store, &ctx.comment, &ctx.post);
    delete_comment_with(store, ctx, derived)
}

/// Deletes the post at the address presented, given the address that the
/// signer derives with the post's key.
pub fn delete_post_with(store: &mut RecordStore, ctx: &DeletePost, derived: Option<Derived>) -> (result:
    Result<ResourceEffect, ErrorCode>)
    requires
        old(store).wf(),
    ensures
        final(store).wf(),
        ({
            let outcome = delete_post_outcome(
                old(store)@,
                *ctx,
                found_address(derived),
            );
            match result {
                Ok(effect) => outcome matches Ok(done) && done == (final(store)@, effect),
                Err(error) => outcome matches Err(refused) && refused == error && *final(store)
                    == *old(store),
            }
        }),
{
    match store.post(&ctx.post) {
        Some(post) => {
            if !post.author.same(&ctx.author) {
                return Err(ErrorCode::AuthorMismatch);
            }
        },
        None => {
            return Err(ErrorCode::NotFound);
        },
    }
    if !presented(&derived, &ctx.post) {
        return Err(ErrorCode::AddressMismatch);
    }
    let space = store.scheme().post_space();
    store.take_post(&ctx.post);
    Ok(ResourceEffect::Release { recipient: ctx.author, space })
}

/// Deletes a post: derives the address of the signer's post with the key
/// stored at the address presented, and removes the post there.
pub fn delete_post(store: &mut RecordStore, ctx: &DeletePost) -> (result: Result<ResourceEffect, ErrorCode>)
    requires
        old(store).wf(),
    ensures
        final(store).wf(),
        ({
            let outcome = delete_post_outcome(
                old(store)@,
                *ctx,
                old(store)@.post_rederived(ctx.post@, ctx.author@),
            );
            match result {
                Ok(effect) => outcome matches Ok(done) && done == (final(store)@, effect),
                Err(error) => outcome matches Err(refused) && refused == error && *final(store)
                    == *old(store),
            }
        }),
{
    let derived = rederive_post(store, &ctx.post, &ctx.author);
    delete_post_with(store, ctx, derived)
}

/// Derives the address of the post of `signer` with the key of the post
/// that lives at `address`.
fn rederive_post(store: &RecordStore, address: &Address, signer: &Address) -> (derived: Option<Derived>)
    requires
        store.wf(),
    ensures
        store@.posts.contains_key(address@) ==> found_address(derived) == store@.post_rederived(
            address@,
            signer@,
        ),
{
    match store.post(address) {
        Some(post) => find_post_address(&store.program_id(), signer, &post.id),
        None => None,
    }
}

/// Derives the address of the comment under `post` with the key of the
/// comment that lives at `address`.
fn rederive_comment(store: &RecordStore, address: &Address, post: &Address) -> (derived: Option<Derived>)
    requires
        store.wf(),
    ensures
        store@.comments.contains_key(address@) ==> found_address(derived) == store@.comment_rederived(
            address@,
            post@,
        ),
{
    match store.comment(address) {
        Some(comment) => find_comment_address(&store.program_id(), post, &comment.id),
        None => None,
    }
}

/// Whether a derivation gave the address presented.
fn presented(derived: &Option<Derived>, address: &Address) -> (same: bool)
    ensures
        same == (found_address(*derived) == Some(address@)),
{
    match derived {
        Some(found) => found.address.same(address),
        None => false,
    }
}

} // verus!

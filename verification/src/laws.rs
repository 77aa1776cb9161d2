//! What holds of the library as a whole, proved from the contracts of its
//! operations.

use vstd::prelude::*;
use vstd::set_lib::lemma_len_subset;
use crate::address::{
    comment_seeds, is_derivation, lemma_address_by_view, post_seeds, Derived,
};
use crate::context::{
    AddComment, CreatePost, DeleteComment, DeletePost, ErrorCode, ResourceEffect, UpdateComment,
    UpdatePost,
};
use crate::key::{lemma_encoding_injective, lemma_encoding_len, RecordKey};
use crate::lifecycle::{
    add_comment_outcome, create_post_outcome, delete_comment_outcome, delete_post_outcome,
    update_comment_outcome, update_post_outcome,
};
use crate::record::{byte_len, count_after_delete, CommentView, PostView, MAX_TITLE_LEN};
use crate::store::StoreState;

verus! {

/// Derivation is reproducible: two derivations from the same seeds under
/// the same program give the same address and the same bump seed, or both
/// give nothing.
pub proof fn lemma_derivation_is_deterministic(
    first: Option<Derived>,
    second: Option<Derived>,
    seeds: Seq<Seq<u8>>,
    program_id: Seq<u8>,
)
    requires
        is_derivation(first, seeds, program_id),
        is_derivation(second, seeds, program_id),
    ensures
        first == second,
{
    if first is Some && second is Some {
        lemma_address_by_view(first->Some_0.address, second->Some_0.address);
    }
}

/// The seeds tell keys apart: under one owner, two different keys never
/// give the same seeds, neither for a post nor for a comment. Whether the
/// addresses hashed from different seeds differ is not claimed here.
pub proof fn lemma_distinct_keys_give_distinct_seeds(owner: Seq<u8>, first: RecordKey, second: RecordKey)
    requires
        first != second,
    ensures
        post_seeds(owner, first.encoding()) != post_seeds(owner, second.encoding()),
        comment_seeds(owner, first.encoding()) != comment_seeds(owner, second.encoding()),
{
    if first.encoding() == second.encoding() {
        lemma_encoding_injective(first, second);
    }
    assert(post_seeds(owner, first.encoding())[2] == first.encoding());
    assert(post_seeds(owner, second.encoding())[2] == second.encoding());
    assert(comment_seeds(owner, first.encoding())[2] == first.encoding());
    assert(comment_seeds(owner, second.encoding())[2] == second.encoding());
}

/// The bytes hashed for two different keys of one scheme differ too: the
/// seeds laid end to end, which is what the derivation hashes before the
/// bump seed, are not the same.
pub proof fn lemma_distinct_keys_give_distinct_preimages(owner: Seq<u8>, first: RecordKey, second: RecordKey)
    requires
        first != second,
        first.scheme() == second.scheme(),
    ensures
        post_seeds(owner, first.encoding()).flatten() != post_seeds(owner, second.encoding()).flatten(),
        comment_seeds(owner, first.encoding()).flatten() != comment_seeds(
            owner,
            second.encoding(),
        ).flatten(),
{
    if first.encoding() == second.encoding() {
        lemma_encoding_injective(first, second);
    }
    lemma_encoding_len(first);
    lemma_encoding_len(second);
    lemma_flatten_three(crate::address::post_tag(), owner, first.encoding());
    lemma_flatten_three(crate::address::post_tag(), owner, second.encoding());
    lemma_flatten_three(crate::address::comment_tag(), owner, first.encoding());
    lemma_flatten_three(crate::address::comment_tag(), owner, second.encoding());
    lemma_same_prefix(crate::address::post_tag() + owner, first.encoding(), second.encoding());
    lemma_same_prefix(crate::address::comment_tag() + owner, first.encoding(), second.encoding());
}

/// Three seeds laid end to end.
proof fn lemma_flatten_three(a: Seq<u8>, b: Seq<u8>, c: Seq<u8>)
    ensures
        seq![a, b, c].flatten() == a + b + c,
{
    let seeds = seq![a, b, c];
    assert(seeds.drop_first() =~= seq![b, c]);
    assert(seq![b, c].drop_first() =~= seq![c]);
    assert(seq![c].drop_first() =~= Seq::<Seq<u8>>::empty());
    assert(Seq::<Seq<u8>>::empty().flatten() =~= Seq::<u8>::empty());
    assert(seq![c].flatten() =~= c);
    assert(seq![b, c].flatten() =~= b + c);
    assert(seeds.flatten() =~= a + b + c);
}

/// Two sequences with one prefix and different ends of one length differ.
proof fn lemma_same_prefix(prefix: Seq<u8>, first: Seq<u8>, second: Seq<u8>)
    requires
        first != second,
        first.len() == second.len(),
    ensures
        prefix + first != prefix + second,
{
    if prefix + first == prefix + second {
        assert forall|i: int| 0 <= i < first.len() implies first[i] == second[i] by {
            assert((prefix + first)[prefix.len() + i] == first[i]);
            assert((prefix + second)[prefix.len() + i] == second[i]);
        }
        assert(first =~= second);
    }
}

/// Live records do not share an address: two posts that differ in their
/// author or their key live at different addresses, and so do two comments
/// that differ in their post or their key, whatever the derivation gives.
pub proof fn lemma_different_records_live_apart(store: StoreState, first: Seq<u8>, second: Seq<u8>)
    ensures
        store.posts.contains_key(first) && store.posts.contains_key(second) && (store.posts[first].author
            != store.posts[second].author || store.posts[first].id != store.posts[second].id) ==> first
            != second,
        store.comments.contains_key(first) && store.comments.contains_key(second) && (
        store.comments[first].post_id != store.comments[second].post_id || store.comments[first].id
            != store.comments[second].id) ==> first != second,
{
}

/// Only the author updates a post: for any signer that is not the stored
/// author, the update fails with `AuthorMismatch`, whatever else was
/// passed.
pub proof fn lemma_update_post_needs_author(
    store: StoreState,
    ctx: UpdatePost,
    derived: Option<Seq<u8>>,
    title: Seq<char>,
    content: Seq<char>,
)
    requires
        store.posts.contains_key(ctx.post@),
        store.posts[ctx.post@].author != ctx.author@,
    ensures
        update_post_outcome(store, ctx, derived, title, content) == Err::<StoreState, ErrorCode>(
            ErrorCode::AuthorMismatch,
        ),
{
}

/// Only the author deletes a post: for any signer that is not the stored
/// author, the deletion fails with `AuthorMismatch`.
pub proof fn lemma_delete_post_needs_author(store: StoreState, ctx: DeletePost, derived: Option<Seq<u8>>)
    requires
        store.posts.contains_key(ctx.post@),
        store.posts[ctx.post@].author != ctx.author@,
    ensures
        delete_post_outcome(store, ctx, derived) == Err::<(StoreState, ResourceEffect), ErrorCode>(
            ErrorCode::AuthorMismatch,
        ),
{
}

/// Only the author updates a comment: for any signer that is not the
/// stored author, the update fails with `AuthorMismatch`.
pub proof fn lemma_update_comment_needs_author(
    store: StoreState,
    ctx: UpdateComment,
    derived: Option<Seq<u8>>,
    content: Seq<char>,
)
    requires
        store.comments.contains_key(ctx.comment@),
        store.comments[ctx.comment@].author != ctx.author@,
    ensures
        update_comment_outcome(store, ctx, derived, content) == Err::<StoreState, ErrorCode>(
            ErrorCode::AuthorMismatch,
        ),
{
}

/// Only the author deletes a comment: for any signer that is not the
/// stored author, the deletion fails with `AuthorMismatch`.
pub proof fn lemma_delete_comment_needs_author(
    store: StoreState,
    ctx: DeleteComment,
    derived: Option<Seq<u8>>,
)
    requires
        store.comments.contains_key(ctx.comment@),
        store.comments[ctx.comment@].author != ctx.author@,
    ensures
        delete_comment_outcome(store, ctx, derived) == Err::<(StoreState, ResourceEffect), ErrorCode>(
            ErrorCode::AuthorMismatch,
        ),
{
}

/// One successful addition of a comment under `post` leads from `before`
/// to `after`.
pub open spec fn adds_comment(before: StoreState, after: StoreState, post: Seq<u8>) -> bool {
    exists|ctx: AddComment, derived: Option<Seq<u8>>, content: Seq<char>, id: RecordKey|
        ctx.post@ == post && (#[trigger] add_comment_outcome(before, ctx, derived, content, id))
            == Ok::<(StoreState, ResourceEffect), ErrorCode>((after, ResourceEffect::Allocate {
            payer: ctx.author,
            space: before.scheme.spec_comment_space(),
        }))
}

/// One successful deletion of a comment under `post` leads from `before`
/// to `after`.
pub open spec fn deletes_comment(before: StoreState, after: StoreState, post: Seq<u8>) -> bool {
    exists|ctx: DeleteComment, derived: Option<Seq<u8>>|
        ctx.post@ == post && (#[trigger] delete_comment_outcome(before, ctx, derived)) == Ok::<
            (StoreState, ResourceEffect),
            ErrorCode,
        >((after, ResourceEffect::Release {
            recipient: ctx.author,
            space: before.scheme.spec_comment_space(),
        }))
}

/// A run of stores in which `adds` successful additions of a comment under
/// `post` are followed by `deletes` successful deletions of a comment under
/// it, each store being the result of the operation on the one before.
pub open spec fn comment_run(states: Seq<StoreState>, post: Seq<u8>, adds: nat, deletes: nat) -> bool {
    &&& states.len() == adds + deletes + 1
    &&& forall|i: int| 0 <= i < adds ==> adds_comment(#[trigger] states[i], states[i + 1], post)
    &&& forall|i: int|
        adds <= i < adds + deletes ==> deletes_comment(#[trigger] states[i], states[i + 1], post)
}

/// What one addition does to the counter of the post.
proof fn lemma_add_step(before: StoreState, after: StoreState, post: Seq<u8>)
    requires
        adds_comment(before, after, post),
    ensures
        after.posts[post].comment_count == before.posts[post].comment_count + 1,
{
    let (ctx, derived, content, id) = choose|
        ctx: AddComment,
        derived: Option<Seq<u8>>,
        content: Seq<char>,
        id: RecordKey,
    |
        ctx.post@ == post && (#[trigger] add_comment_outcome(before, ctx, derived, content, id))
            == Ok::<(StoreState, ResourceEffect), ErrorCode>((after, ResourceEffect::Allocate {
            payer: ctx.author,
            space: before.scheme.spec_comment_space(),
        }));
    assert(add_comment_outcome(before, ctx, derived, content, id) is Ok);
}

/// What one deletion does to the counter of the post.
proof fn lemma_delete_step(before: StoreState, after: StoreState, post: Seq<u8>)
    requires
        deletes_comment(before, after, post),
    ensures
        after.posts[post].comment_count == count_after_delete(before.posts[post].comment_count),
{
    let (ctx, derived) = choose|ctx: DeleteComment, derived: Option<Seq<u8>>|
        ctx.post@ == post && (#[trigger] delete_comment_outcome(before, ctx, derived)) == Ok::<
            (StoreState, ResourceEffect),
            ErrorCode,
        >((after, ResourceEffect::Release {
            recipient: ctx.author,
            space: before.scheme.spec_comment_space(),
        }));
    assert(delete_comment_outcome(before, ctx, derived) is Ok);
}

/// The counter after the first `steps` operations of a run.
proof fn lemma_run_prefix(states: Seq<StoreState>, post: Seq<u8>, adds: nat, deletes: nat, steps: nat)
    requires
        comment_run(states, post, adds, deletes),
        deletes <= adds,
        steps <= adds + deletes,
    ensures
        steps <= adds ==> states[steps as int].posts[post].comment_count == states[0].posts[post].comment_count
            + steps,
        steps > adds ==> states[steps as int].posts[post].comment_count == states[0].posts[post].comment_count
            + adds - (steps - adds),
    decreases steps,
{
    if steps > 0 {
        let i = (steps - 1) as int;
        lemma_run_prefix(states, post, adds, deletes, (steps - 1) as nat);
        assert(states[i + 1] == states[steps as int]);
        if i < adds {
            assert(adds_comment(states[i], states[i + 1], post));
            lemma_add_step(states[i], states[i + 1], post);
        } else {
            assert(deletes_comment(states[i], states[i + 1], post));
            lemma_delete_step(states[i], states[i + 1], post);
        }
    }
}

/// The counter follows the comments: after `adds` successful additions
/// under a post, followed by `deletes` successful deletions under it, with
/// no more deletions than additions, the post counts `adds - deletes`
/// comments more than at the start. For a post that was just created, which
/// counts none, that is `adds - deletes`.
pub proof fn lemma_counter_follows_comments(states: Seq<StoreState>, post: Seq<u8>, adds: nat, deletes: nat)
    requires
        comment_run(states, post, adds, deletes),
        deletes <= adds,
    ensures
        states.last().posts[post].comment_count == states[0].posts[post].comment_count + adds - deletes,
{
    lemma_run_prefix(states, post, adds, deletes, adds + deletes);
}

/// The counter never falls below zero: a deletion under a post that counts
/// no comment leaves it counting none, and any other deletion takes one
/// off.
pub proof fn lemma_counter_never_underflows(store: StoreState, ctx: DeleteComment, derived: Option<Seq<u8>>)
    requires
        delete_comment_outcome(store, ctx, derived) is Ok,
    ensures
        ({
            let after = delete_comment_outcome(store, ctx, derived)->Ok_0.0;
            let count = store.posts[ctx.post@].comment_count;
            &&& after.posts.contains_key(ctx.post@)
            &&& count == 0 ==> after.posts[ctx.post@].comment_count == 0
            &&& count > 0 ==> after.posts[ctx.post@].comment_count == count - 1
        }),
{
}

/// A comment and its post change together. Where adding a comment
/// succeeds, the comment is new, points to the post, and the post counts
/// exactly one more; every other record is as it was. Where the post's
/// counter cannot count one more, adding fails, and a failed operation
/// leaves the store as it was: no comment is left without its count.
pub proof fn lemma_add_comment_is_all_or_nothing(
    store: StoreState,
    ctx: AddComment,
    derived: Option<Seq<u8>>,
    content: Seq<char>,
    id: RecordKey,
)
    ensures
        store.posts.contains_key(ctx.post@) && store.posts[ctx.post@].comment_count == u32::MAX
            ==> add_comment_outcome(store, ctx, derived, content, id) is Err,
        add_comment_outcome(store, ctx, derived, content, id) matches Ok(done) ==> ({
            let after = done.0;
            &&& !store.comments.contains_key(ctx.comment@)
            &&& after.comments.contains_key(ctx.comment@)
            &&& after.comments[ctx.comment@].post_id == ctx.post@
            &&& after.posts.contains_key(ctx.post@)
            &&& after.posts[ctx.post@].comment_count == store.posts[ctx.post@].comment_count + 1
            &&& after.posts[ctx.post@] == (PostView {
                comment_count: after.posts[ctx.post@].comment_count,
                ..store.posts[ctx.post@]
            })
            &&& after.comments.remove(ctx.comment@) == store.comments
            &&& after.posts.remove(ctx.post@) == store.posts.remove(ctx.post@)
        }),
{
    if add_comment_outcome(store, ctx, derived, content, id) is Ok {
        let after = add_comment_outcome(store, ctx, derived, content, id)->Ok_0.0;
        assert(after.comments.remove(ctx.comment@) =~= store.comments);
        assert(after.posts.remove(ctx.post@) =~= store.posts.remove(ctx.post@));
    }
}

/// Deleting a comment is all or nothing too: where it succeeds, the comment
/// is gone, the post is still there with its counter adjusted, and every
/// other record is as it was.
pub proof fn lemma_delete_comment_is_all_or_nothing(
    store: StoreState,
    ctx: DeleteComment,
    derived: Option<Seq<u8>>,
)
    ensures
        delete_comment_outcome(store, ctx, derived) matches Ok(done) ==> ({
            let after = done.0;
            &&& store.comments.contains_key(ctx.comment@)
            &&& !after.comments.contains_key(ctx.comment@)
            &&& after.comments == store.comments.remove(ctx.comment@)
            &&& after.posts.contains_key(ctx.post@)
            &&& after.posts[ctx.post@] == (PostView {
                comment_count: after.posts[ctx.post@].comment_count,
                ..store.posts[ctx.post@]
            })
            &&& after.posts.remove(ctx.post@) == store.posts.remove(ctx.post@)
        }),
{
    if delete_comment_outcome(store, ctx, derived) is Ok {
        let after = delete_comment_outcome(store, ctx, derived)->Ok_0.0;
        assert(after.posts.remove(ctx.post@) =~= store.posts.remove(ctx.post@));
    }
}

/// Deletion frees the address and returns the funds. After a post was
/// deleted, no record lives at its address; updating or deleting there
/// fails with `NotFound`; a post with the same key can be created there
/// again, and where records live at their derived addresses the same author
/// derives that address with that key; and the author is owed exactly the
/// space that creating a post reserves, so that a balance that can hold it
/// grows by just that.
pub proof fn lemma_delete_post_reclaims(
    store: StoreState,
    ctx: DeletePost,
    derived: Option<Seq<u8>>,
    again: CreatePost,
    title: Seq<char>,
    content: Seq<char>,
    update: UpdatePost,
    any: Option<Seq<u8>>,
    balance: u64,
)
    requires
        store.valid(),
        delete_post_outcome(store, ctx, derived) is Ok,
        again.post@ == ctx.post@,
        update.post@ == ctx.post@,
        byte_len(title) <= MAX_TITLE_LEN,
        byte_len(content) <= store.scheme.spec_max_content_len(),
    ensures
        ({
            let (after, effect) = delete_post_outcome(store, ctx, derived)->Ok_0;
            let key = store.posts[ctx.post@].id;
            let space = store.scheme.spec_post_space();
            &&& after.valid()
            &&& !after.is_live(ctx.post@)
            &&& after.posts == store.posts.remove(ctx.post@)
            &&& after.comments == store.comments
            &&& update_post_outcome(after, update, any, title, content) == Err::<StoreState, ErrorCode>(
                ErrorCode::NotFound,
            )
            &&& delete_post_outcome(after, ctx, any) == Err::<(StoreState, ResourceEffect), ErrorCode>(
                ErrorCode::NotFound,
            )
            &&& create_post_outcome(after, again, Some(ctx.post@), title, content, key) is Ok
            &&& store.addressed() && again.author@ == ctx.author@ ==> create_post_outcome(
                after,
                again,
                after.post_address(again.author@, key),
                title,
                content,
                key,
            ) is Ok
            &&& ctx.author@ == store.posts[ctx.post@].author
            &&& effect == ResourceEffect::Release { recipient: ctx.author, space }
            &&& create_post_outcome(after, again, Some(ctx.post@), title, content, key)->Ok_0.1
                == ResourceEffect::Allocate { payer: again.author, space }
            &&& balance + space <= u64::MAX ==> effect.settled(ctx.author@, balance) == Some(
                (balance + space) as u64,
            )
        }),
{
}

/// The same holds of a comment: after it was deleted its address holds no
/// comment, updating or deleting there fails with `NotFound`, and the
/// author is owed exactly the space that adding a comment reserves.
pub proof fn lemma_delete_comment_reclaims(
    store: StoreState,
    ctx: DeleteComment,
    derived: Option<Seq<u8>>,
    update: UpdateComment,
    content: Seq<char>,
    any: Option<Seq<u8>>,
    balance: u64,
)
    requires
        store.valid(),
        delete_comment_outcome(store, ctx, derived) is Ok,
        update.comment@ == ctx.comment@,
    ensures
        ({
            let (after, effect) = delete_comment_outcome(store, ctx, derived)->Ok_0;
            let space = store.scheme.spec_comment_space();
            &&& after.valid()
            &&& !after.is_live(ctx.comment@)
            &&& update_comment_outcome(after, update, any, content) == Err::<StoreState, ErrorCode>(
                ErrorCode::NotFound,
            )
            &&& delete_comment_outcome(after, ctx, any) == Err::<(StoreState, ResourceEffect), ErrorCode>(
                ErrorCode::NotFound,
            )
            &&& ctx.author@ == store.comments[ctx.comment@].author
            &&& effect == ResourceEffect::Release { recipient: ctx.author, space }
            &&& balance + space <= u64::MAX ==> effect.settled(ctx.author@, balance) == Some(
                (balance + space) as u64,
            )
        }),
{
}

/// A record never outgrows what was reserved for it: a valid post takes no
/// more bytes than the space of a post, and exactly that space when both
/// texts are at their limits.
pub proof fn lemma_post_fits_its_space(post: PostView, scheme: crate::key::KeyScheme)
    requires
        post.valid(scheme),
    ensures
        post.stored_len() <= scheme.spec_post_space(),
        byte_len(post.title) == MAX_TITLE_LEN && byte_len(post.content) == scheme.spec_max_content_len()
            ==> post.stored_len() == scheme.spec_post_space(),
{
    lemma_encoding_len(post.id);
}

/// A valid comment takes no more bytes than the space of a comment, and
/// exactly that space when its content is at the limit.
pub proof fn lemma_comment_fits_its_space(comment: CommentView, scheme: crate::key::KeyScheme)
    requires
        comment.valid(scheme),
    ensures
        comment.stored_len() <= scheme.spec_comment_space(),
        byte_len(comment.content) == scheme.spec_max_comment_len() ==> comment.stored_len()
            == scheme.spec_comment_space(),
{
    lemma_encoding_len(comment.id);
}

/// A record keeps its identity. An update of a post replaces its texts and
/// records the time, which is the current time unless that lies before the
/// creation; the author, the key, the creation time and the counter stay,
/// and so does every other record.
pub proof fn lemma_update_post_keeps_identity(
    store: StoreState,
    ctx: UpdatePost,
    derived: Option<Seq<u8>>,
    title: Seq<char>,
    content: Seq<char>,
)
    requires
        store.valid(),
        update_post_outcome(store, ctx, derived, title, content) is Ok,
    ensures
        ({
            let after = update_post_outcome(store, ctx, derived, title, content)->Ok_0;
            let old_post = store.posts[ctx.post@];
            let new_post = after.posts[ctx.post@];
            &&& after.valid()
            &&& after.posts.dom() == store.posts.dom()
            &&& after.posts.remove(ctx.post@) == store.posts.remove(ctx.post@)
            &&& after.comments == store.comments
            &&& new_post.author == old_post.author
            &&& new_post.id == old_post.id
            &&& new_post.created_at == old_post.created_at
            &&& new_post.comment_count == old_post.comment_count
            &&& new_post.title == title
            &&& new_post.content == content
            &&& new_post.created_at <= new_post.updated_at
            &&& ctx.now >= old_post.created_at ==> new_post.updated_at == ctx.now
        }),
{
    let after = update_post_outcome(store, ctx, derived, title, content)->Ok_0;
    assert(after.posts.dom() =~= store.posts.dom());
    assert(after.posts.remove(ctx.post@) =~= store.posts.remove(ctx.post@));
}

/// An update of a comment replaces its content and records the time; the
/// author, the post it points to, the key and the creation time stay, and
/// so does every other record.
pub proof fn lemma_update_comment_keeps_identity(
    store: StoreState,
    ctx: UpdateComment,
    derived: Option<Seq<u8>>,
    content: Seq<char>,
)
    requires
        store.valid(),
        update_comment_outcome(store, ctx, derived, content) is Ok,
    ensures
        ({
            let after = update_comment_outcome(store, ctx, derived, content)->Ok_0;
            let old_comment = store.comments[ctx.comment@];
            let new_comment = after.comments[ctx.comment@];
            &&& after.valid()
            &&& after.comments.dom() == store.comments.dom()
            &&& after.comments.remove(ctx.comment@) == store.comments.remove(ctx.comment@)
            &&& after.posts == store.posts
            &&& new_comment.author == old_comment.author
            &&& new_comment.post_id == old_comment.post_id
            &&& new_comment.id == old_comment.id
            &&& new_comment.created_at == old_comment.created_at
            &&& new_comment.content == content
            &&& new_comment.created_at <= new_comment.updated_at
            &&& ctx.now >= old_comment.created_at ==> new_comment.updated_at == ctx.now
        }),
{
    let after = update_comment_outcome(store, ctx, derived, content)->Ok_0;
    assert(after.comments.dom() =~= store.comments.dom());
    assert(after.comments.remove(ctx.comment@) =~= store.comments.remove(ctx.comment@));
}

/// An address holds one record for as long as that record lives: a
/// creation succeeds only where no record lives, and leaves every record
/// that was there as it was.
pub proof fn lemma_create_post_takes_a_free_address(
    store: StoreState,
    ctx: CreatePost,
    derived: Option<Seq<u8>>,
    title: Seq<char>,
    content: Seq<char>,
    id: RecordKey,
)
    requires
        store.valid(),
        create_post_outcome(store, ctx, derived, title, content, id) is Ok,
    ensures
        ({
            let after = create_post_outcome(store, ctx, derived, title, content, id)->Ok_0.0;
            &&& !store.is_live(ctx.post@)
            &&& derived == Some(ctx.post@)
            &&& after.valid()
            &&& after.posts.remove(ctx.post@) == store.posts
            &&& after.comments == store.comments
            &&& after.posts[ctx.post@].author == ctx.author@
            &&& after.posts[ctx.post@].comment_count == 0
            &&& after.posts[ctx.post@].created_at == after.posts[ctx.post@].updated_at
        }),
{
    let after = create_post_outcome(store, ctx, derived, title, content, id)->Ok_0.0;
    assert(after.posts.remove(ctx.post@) =~= store.posts);
}

/// Records stay where their owner and key derive. In a store where every
/// record lives at its derived address, each operation that is handed the
/// true derivation leaves a store of that kind.
pub proof fn lemma_operations_keep_addressing(
    store: StoreState,
    create: CreatePost,
    update: UpdatePost,
    delete: DeletePost,
    add: AddComment,
    revise: UpdateComment,
    withdraw: DeleteComment,
    title: Seq<char>,
    content: Seq<char>,
    id: RecordKey,
)
    requires
        store.addressed(),
    ensures
        create_post_outcome(store, create, store.post_address(create.author@, id), title, content, id)
            matches Ok(done) ==> done.0.addressed(),
        update_post_outcome(
            store,
            update,
            store.post_rederived(update.post@, update.author@),
            title,
            content,
        ) matches Ok(after) ==> after.addressed(),
        delete_post_outcome(store, delete, store.post_rederived(delete.post@, delete.author@))
            matches Ok(done) ==> done.0.addressed(),
        add_comment_outcome(store, add, store.comment_address(add.post@, id), content, id) matches Ok(
            done,
        ) ==> done.0.addressed(),
        update_comment_outcome(
            store,
            revise,
            store.comment_rederived(revise.comment@, revise.post@),
            content,
        ) matches Ok(after) ==> after.addressed(),
        delete_comment_outcome(
            store,
            withdraw,
            store.comment_rederived(withdraw.comment@, withdraw.post@),
        ) matches Ok(done) ==> done.0.addressed(),
{
}

/// In such a store the author is never refused for the address: the
/// address presented for a live post is the one that its author and key
/// derive, so an update or a deletion by the author re-derives it.
pub proof fn lemma_author_rederives_the_address(
    store: StoreState,
    update: UpdatePost,
    delete: DeletePost,
    title: Seq<char>,
    content: Seq<char>,
)
    requires
        store.addressed(),
    ensures
        update_post_outcome(
            store,
            update,
            store.post_rederived(update.post@, update.author@),
            title,
            content,
        ) != Err::<StoreState, ErrorCode>(ErrorCode::AddressMismatch),
        delete_post_outcome(store, delete, store.post_rederived(delete.post@, delete.author@)) != Err::<
            (StoreState, ResourceEffect),
            ErrorCode,
        >(ErrorCode::AddressMismatch),
{
}

/// For a comment the address is refused exactly when the post presented is
/// not the one that the comment points to.
pub proof fn lemma_comment_is_bound_to_its_post(
    store: StoreState,
    revise: UpdateComment,
    withdraw: DeleteComment,
    content: Seq<char>,
)
    requires
        store.addressed(),
    ensures
        update_comment_outcome(
            store,
            revise,
            store.comment_rederived(revise.comment@, revise.post@),
            content,
        ) == Err::<StoreState, ErrorCode>(ErrorCode::AddressMismatch) <==> (store.comments.contains_key(
            revise.comment@,
        ) && store.comments[revise.comment@].author == revise.author@
            && store.comments[revise.comment@].post_id != revise.post@),
        delete_comment_outcome(
            store,
            withdraw,
            store.comment_rederived(withdraw.comment@, withdraw.post@),
        ) == Err::<(StoreState, ResourceEffect), ErrorCode>(ErrorCode::AddressMismatch) <==> (
        store.comments.contains_key(withdraw.comment@) && store.comments[withdraw.comment@].author
            == withdraw.author@ && store.comments[withdraw.comment@].post_id != withdraw.post@),
{
}

/// The limits hold for every text. Where nothing else stands against a
/// creation or an update, it is refused with `ExceedsMaxLength` exactly when
/// a text is longer than its limit.
pub proof fn lemma_texts_are_held_to_their_limits(
    store: StoreState,
    create: CreatePost,
    update: UpdatePost,
    add: AddComment,
    revise: UpdateComment,
    derived: Option<Seq<u8>>,
    title: Seq<char>,
    content: Seq<char>,
    id: RecordKey,
)
    ensures
        id.scheme() == store.scheme && derived == Some(create.post@) && !store.is_live(create.post@) ==> (
        create_post_outcome(store, create, derived, title, content, id) == Err::<
            (StoreState, ResourceEffect),
            ErrorCode,
        >(ErrorCode::ExceedsMaxLength) <==> byte_len(title) > MAX_TITLE_LEN || byte_len(content)
            > store.scheme.spec_max_content_len()),
        update_post_outcome(store, update, derived, title, content) is Ok ==> byte_len(title)
            <= MAX_TITLE_LEN && byte_len(content) <= store.scheme.spec_max_content_len(),
        store.posts.contains_key(update.post@) && store.posts[update.post@].author == update.author@
            && derived == Some(update.post@) ==> (update_post_outcome(
            store,
            update,
            derived,
            title,
            content,
        ) == Err::<StoreState, ErrorCode>(ErrorCode::ExceedsMaxLength) <==> byte_len(title)
            > MAX_TITLE_LEN || byte_len(content) > store.scheme.spec_max_content_len()),
        add_comment_outcome(store, add, derived, content, id) is Ok ==> byte_len(content)
            <= store.scheme.spec_max_comment_len(),
        update_comment_outcome(store, revise, derived, content) is Ok ==> byte_len(content)
            <= store.scheme.spec_max_comment_len(),
{
}

/// An address depends on what never changes: the program, the owner (the
/// author of a post, the post of a comment) and the key. Two stores of one
/// program derive the same addresses, whatever records they hold and
/// whatever those records count.
pub proof fn lemma_addresses_ignore_what_changes(first: StoreState, second: StoreState, owner: Seq<u8>, key: RecordKey)
    requires
        first.program_id == second.program_id,
    ensures
        first.post_address(owner, key) == second.post_address(owner, key),
        first.comment_address(owner, key) == second.comment_address(owner, key),
{
}

/// Creating is not to be repeated: once a post was created, creating it
/// again at its address is refused with `DuplicateAddress`.
pub proof fn lemma_create_post_again_is_refused(
    store: StoreState,
    ctx: CreatePost,
    derived: Option<Seq<u8>>,
    title: Seq<char>,
    content: Seq<char>,
    id: RecordKey,
)
    requires
        create_post_outcome(store, ctx, derived, title, content, id) is Ok,
    ensures
        create_post_outcome(
            create_post_outcome(store, ctx, derived, title, content, id)->Ok_0.0,
            ctx,
            derived,
            title,
            content,
            id,
        ) == Err::<(StoreState, ResourceEffect), ErrorCode>(ErrorCode::DuplicateAddress),
{
}

/// Adding a comment is not to be repeated either: adding it again at its
/// address is refused with `DuplicateAddress`.
pub proof fn lemma_add_comment_again_is_refused(
    store: StoreState,
    ctx: AddComment,
    derived: Option<Seq<u8>>,
    content: Seq<char>,
    id: RecordKey,
)
    requires
        add_comment_outcome(store, ctx, derived, content, id) is Ok,
    ensures
        add_comment_outcome(
            add_comment_outcome(store, ctx, derived, content, id)->Ok_0.0,
            ctx,
            derived,
            content,
            id,
        ) == Err::<(StoreState, ResourceEffect), ErrorCode>(ErrorCode::DuplicateAddress),
{
}

/// An update may be repeated: the same update once more succeeds and
/// changes nothing.
pub proof fn lemma_update_again_changes_nothing(
    store: StoreState,
    update: UpdatePost,
    revise: UpdateComment,
    derived: Option<Seq<u8>>,
    title: Seq<char>,
    content: Seq<char>,
)
    ensures
        update_post_outcome(store, update, derived, title, content) matches Ok(after)
            ==> update_post_outcome(after, update, derived, title, content) == Ok::<StoreState, ErrorCode>(
            after,
        ),
        update_comment_outcome(store, revise, derived, content) matches Ok(after)
            ==> update_comment_outcome(after, revise, derived, content) == Ok::<StoreState, ErrorCode>(
            after,
        ),
{
    if update_post_outcome(store, update, derived, title, content) is Ok {
        let after = update_post_outcome(store, update, derived, title, content)->Ok_0;
        let again = update_post_outcome(after, update, derived, title, content);
        assert(again is Ok);
        assert(again->Ok_0.posts =~= after.posts);
        assert(again->Ok_0 =~= after);
    }
    if update_comment_outcome(store, revise, derived, content) is Ok {
        let after = update_comment_outcome(store, revise, derived, content)->Ok_0;
        let again = update_comment_outcome(after, revise, derived, content);
        assert(again is Ok);
        assert(again->Ok_0.comments =~= after.comments);
        assert(again->Ok_0 =~= after);
    }
}

/// The addresses of the live comments that point to `post`.
pub open spec fn comments_under(store: StoreState, post: Seq<u8>) -> Set<Seq<u8>> {
    Set::new(|comment: Seq<u8>| store.comments.contains_key(comment) && store.comments[comment].post_id == post)
}

/// Every live post counts exactly the live comments that point to it. A
/// store without records counts right, and every operation keeps the count
/// right; only a post created at an address that live comments already point
/// to starts out of step, since it counts none of them.
pub open spec fn counted(store: StoreState) -> bool {
    &&& store.comments.dom().finite()
    &&& forall|post: Seq<u8>| #[trigger]
        store.posts.contains_key(post) ==> store.posts[post].comment_count == comments_under(store, post).len()
}

/// The comments under a post are finitely many where the comments are.
proof fn lemma_comments_under_finite(store: StoreState, post: Seq<u8>)
    requires
        store.comments.dom().finite(),
    ensures
        comments_under(store, post).finite(),
{
    assert(comments_under(store, post).subset_of(store.comments.dom()));
    lemma_len_subset(comments_under(store, post), store.comments.dom());
}

/// A store without records counts right.
pub proof fn lemma_empty_store_is_counted(store: StoreState)
    requires
        store.posts == Map::<Seq<u8>, PostView>::empty(),
        store.comments == Map::<Seq<u8>, CommentView>::empty(),
    ensures
        counted(store),
{
}

/// Adding a comment keeps the count right.
pub proof fn lemma_add_comment_keeps_the_count(
    store: StoreState,
    ctx: AddComment,
    derived: Option<Seq<u8>>,
    content: Seq<char>,
    id: RecordKey,
)
    requires
        counted(store),
        add_comment_outcome(store, ctx, derived, content, id) is Ok,
    ensures
        counted(add_comment_outcome(store, ctx, derived, content, id)->Ok_0.0),
{
    let after = add_comment_outcome(store, ctx, derived, content, id)->Ok_0.0;
    assert(after.comments.dom() =~= store.comments.dom().insert(ctx.comment@));
    assert forall|post: Seq<u8>| #[trigger] after.posts.contains_key(post) implies after.posts[post].comment_count
        == comments_under(after, post).len() by {
        lemma_comments_under_finite(store, post);
        assert(store.posts.contains_key(post));
        if post == ctx.post@ {
            assert(comments_under(after, post) =~= comments_under(store, post).insert(ctx.comment@));
        } else {
            assert(comments_under(after, post) =~= comments_under(store, post));
        }
    }
}

/// Deleting a comment keeps the count right, and takes exactly one off.
pub proof fn lemma_delete_comment_keeps_the_count(store: StoreState, ctx: DeleteComment, derived: Option<Seq<u8>>)
    requires
        counted(store),
        delete_comment_outcome(store, ctx, derived) is Ok,
    ensures
        counted(delete_comment_outcome(store, ctx, derived)->Ok_0.0),
        store.posts[ctx.post@].comment_count > 0,
{
    let after = delete_comment_outcome(store, ctx, derived)->Ok_0.0;
    assert(after.comments.dom() =~= store.comments.dom().remove(ctx.comment@));
    lemma_comments_under_finite(store, ctx.post@);
    assert(comments_under(store, ctx.post@).contains(ctx.comment@));
    assert forall|post: Seq<u8>| #[trigger] after.posts.contains_key(post) implies after.posts[post].comment_count
        == comments_under(after, post).len() by {
        lemma_comments_under_finite(store, post);
        assert(store.posts.contains_key(post));
        if post == ctx.post@ {
            assert(comments_under(after, post) =~= comments_under(store, post).remove(ctx.comment@));
        } else {
            assert(comments_under(after, post) =~= comments_under(store, post));
        }
    }
}

/// Updates keep the count right: they change neither a counter nor what a
/// comment points to.
pub proof fn lemma_updates_keep_the_count(
    store: StoreState,
    update: UpdatePost,
    revise: UpdateComment,
    derived: Option<Seq<u8>>,
    title: Seq<char>,
    content: Seq<char>,
)
    requires
        counted(store),
    ensures
        update_post_outcome(store, update, derived, title, content) matches Ok(after) ==> counted(after),
        update_comment_outcome(store, revise, derived, content) matches Ok(after) ==> counted(after),
{
    if update_post_outcome(store, update, derived, title, content) is Ok {
        let after = update_post_outcome(store, update, derived, title, content)->Ok_0;
        assert forall|post: Seq<u8>| #[trigger] after.posts.contains_key(post) implies after.posts[post].comment_count
            == comments_under(after, post).len() by {
            assert(store.posts.contains_key(post));
            assert(comments_under(after, post) =~= comments_under(store, post));
        }
    }
    if update_comment_outcome(store, revise, derived, content) is Ok {
        let after = update_comment_outcome(store, revise, derived, content)->Ok_0;
        assert(after.comments.dom() =~= store.comments.dom());
        assert forall|post: Seq<u8>| #[trigger] after.posts.contains_key(post) implies after.posts[post].comment_count
            == comments_under(after, post).len() by {
            assert(comments_under(after, post) =~= comments_under(store, post));
        }
    }
}

/// Deleting a post keeps the count right for the posts that stay, and
/// creating a post keeps it right where no live comment points to the new
/// post's address.
pub proof fn lemma_posts_keep_the_count(
    store: StoreState,
    create: CreatePost,
    delete: DeletePost,
    derived: Option<Seq<u8>>,
    title: Seq<char>,
    content: Seq<char>,
    id: RecordKey,
)
    requires
        counted(store),
    ensures
        delete_post_outcome(store, delete, derived) matches Ok(done) ==> counted(done.0),
        create_post_outcome(store, create, derived, title, content, id) is Ok && comments_under(
            store,
            create.post@,
        ) == Set::<Seq<u8>>::empty() ==> counted(
            create_post_outcome(store, create, derived, title, content, id)->Ok_0.0,
        ),
{
    if delete_post_outcome(store, delete, derived) is Ok {
        let after = delete_post_outcome(store, delete, derived)->Ok_0.0;
        assert forall|post: Seq<u8>| #[trigger] after.posts.contains_key(post) implies after.posts[post].comment_count
            == comments_under(after, post).len() by {
            assert(store.posts.contains_key(post));
            assert(comments_under(after, post) =~= comments_under(store, post));
        }
    }
    if create_post_outcome(store, create, derived, title, content, id) is Ok && comments_under(
        store,
        create.post@,
    ) == Set::<Seq<u8>>::empty() {
        let after = create_post_outcome(store, create, derived, title, content, id)->Ok_0.0;
        assert forall|post: Seq<u8>| #[trigger] after.posts.contains_key(post) implies after.posts[post].comment_count
            == comments_under(after, post).len() by {
            assert(comments_under(after, post) =~= comments_under(store, post));
        }
    }
}

} // verus!

//! The record store: every live post and comment, each at its address.

use vstd::prelude::*;
use crate::address::{comment_seeds, derived_address, post_seeds, Address};
use crate::key::{KeyScheme, RecordKey};
use crate::record::{text_len, Comment, CommentView, Post, PostView, MAX_TITLE_LEN};
use crate::table::Table;

verus! {

/// What a store holds, as mathematical values: the program that owns the
/// addresses, the key scheme in use, and the live records by address.
#[verifier::ext_equal]
pub struct StoreState {
    pub program_id: Seq<u8>,
    pub scheme: KeyScheme,
    pub posts: Map<Seq<u8>, PostView>,
    pub comments: Map<Seq<u8>, CommentView>,
}

impl StoreState {
    /// Whether a record lives at the address. An address that holds none is
    /// absent.
    pub open spec fn is_live(self, address: Seq<u8>) -> bool {
        self.posts.contains_key(address) || self.comments.contains_key(address)
    }

    /// Every record is valid under the store's scheme, and no address holds
    /// both a post and a comment.
    pub open spec fn valid(self) -> bool {
        &&& forall|address: Seq<u8>| #[trigger]
            self.posts.contains_key(address) ==> self.posts[address].valid(self.scheme)
        &&& forall|address: Seq<u8>| #[trigger]
            self.comments.contains_key(address) ==> self.comments[address].valid(self.scheme)
        &&& forall|address: Seq<u8>|
            !(#[trigger] self.posts.contains_key(address) && #[trigger] self.comments.contains_key(
                address,
            ))
    }

    /// The address that `author` and `key` derive for a post of this store.
    pub open spec fn post_address(self, author: Seq<u8>, key: RecordKey) -> Option<Seq<u8>> {
        derived_address(post_seeds(author, key.encoding()), self.program_id)
    }

    /// The address that the post at `post` and `key` derive for a comment
    /// of this store.
    pub open spec fn comment_address(self, post: Seq<u8>, key: RecordKey) -> Option<Seq<u8>> {
        derived_address(comment_seeds(post, key.encoding()), self.program_id)
    }

    /// Every record lives where its owner and key derive: a post at the
    /// address of its author and key, a comment at the address of its
    /// post's address and key.
    pub open spec fn addressed(self) -> bool {
        &&& forall|address: Seq<u8>| #[trigger]
            self.posts.contains_key(address) ==> self.post_address(
                self.posts[address].author,
                self.posts[address].id,
            ) == Some(address)
        &&& forall|address: Seq<u8>| #[trigger]
            self.comments.contains_key(address) ==> self.comment_address(
                self.comments[address].post_id,
                self.comments[address].id,
            ) == Some(address)
    }

    /// The address that `signer` derives with the key of the post that lives
    /// at `address`.
    pub open spec fn post_rederived(self, address: Seq<u8>, signer: Seq<u8>) -> Option<Seq<u8>> {
        if self.posts.contains_key(address) {
            self.post_address(signer, self.posts[address].id)
        } else {
            None
        }
    }

    /// The address that the post at `post` derives with the key of the
    /// comment that lives at `address`.
    pub open spec fn comment_rederived(self, address: Seq<u8>, post: Seq<u8>) -> Option<Seq<u8>> {
        if self.comments.contains_key(address) {
            self.comment_address(post, self.comments[address].id)
        } else {
            None
        }
    }

    /// The store with `post` stored at `address`.
    pub open spec fn with_post(self, address: Seq<u8>, post: PostView) -> StoreState {
        StoreState { posts: self.posts.insert(address, post), ..self }
    }

    /// The store with no post at `address`.
    pub open spec fn without_post(self, address: Seq<u8>) -> StoreState {
        StoreState { posts: self.posts.remove(address), ..self }
    }

    /// The store with `comment` stored at `address`.
    pub open spec fn with_comment(self, address: Seq<u8>, comment: CommentView) -> StoreState {
        StoreState { comments: self.comments.insert(address, comment), ..self }
    }

    /// The store with no comment at `address`.
    pub open spec fn without_comment(self, address: Seq<u8>) -> StoreState {
        StoreState { comments: self.comments.remove(address), ..self }
    }
}

/// The live records of one deployment.
pub struct RecordStore {
    program_id: Address,
    scheme: KeyScheme,
    posts: Table<Post>,
    comments: Table<Comment>,
}

impl View for RecordStore {
    type V = StoreState;

    closed spec fn view(&self) -> StoreState {
        StoreState {
            program_id: self.program_id@,
            scheme: self.scheme,
            posts: self.posts@.map_values(|post: Post| post@),
            comments: self.comments@.map_values(|comment: Comment| comment@),
        }
    }
}

impl RecordStore {
    /// The tables hold no address twice.
    pub closed spec fn tables_wf(&self) -> bool {
        self.posts.wf() && self.comments.wf()
    }

    /// The store's invariant: sound tables and valid contents.
    pub open spec fn wf(&self) -> bool {
        self.tables_wf() && self@.valid()
    }

    /// An empty store for the program `program_id`, with keys of `scheme`.
    pub fn new(program_id: Address, scheme: KeyScheme) -> (store: RecordStore)
        ensures
            store.wf(),
            store@.program_id == program_id@,
            store@.scheme == scheme,
            store@.posts == Map::<Seq<u8>, PostView>::empty(),
            store@.comments == Map::<Seq<u8>, CommentView>::empty(),
    {
        let store = RecordStore { program_id, scheme, posts: Table::new(), comments: Table::new() };
        assert(store@.posts =~= Map::<Seq<u8>, PostView>::empty());
        assert(store@.comments =~= Map::<Seq<u8>, CommentView>::empty());
        store
    }

    /// The program that owns the store's addresses.
    pub fn program_id(&self) -> (program_id: Address)
        ensures
            program_id@ == self@.program_id,
    {
        self.program_id
    }

    /// The key scheme that the store was created for.
    pub fn scheme(&self) -> (scheme: KeyScheme)
        ensures
            scheme == self@.scheme,
    {
        self.scheme
    }

    /// The post that lives at `address`.
    pub fn post(&self, address: &Address) -> (found: Option<&Post>)
        requires
            self.wf(),
        ensures
            (match found {
                Some(post) => self@.posts.contains_key(address@) && post@ == self@.posts[address@],
                None => !self@.posts.contains_key(address@),
            }),
    {
        self.posts.get(address)
    }

    /// The comment that lives at `address`.
    pub fn comment(&self, address: &Address) -> (found: Option<&Comment>)
        requires
            self.wf(),
        ensures
            (match found {
                Some(comment) => self@.comments.contains_key(address@) && comment@
                    == self@.comments[address@],
                None => !self@.comments.contains_key(address@),
            }),
    {
        self.comments.get(address)
    }

    /// Whether a record lives at `address`.
    pub fn is_live(&self, address: &Address) -> (live: bool)
        ensures
            live == self@.is_live(address@),
    {
        self.posts.contains(address) || self.comments.contains(address)
    }

    /// Takes in a post that was stored before, at the address it was stored
    /// at. The post is taken in where no record lives at the address and
    /// the post is valid under the store's scheme; otherwise the store stays
    /// as it is.
    pub fn load_post(&mut self, address: Address, post: Post) -> (loaded: bool)
        requires
            old(self).wf(),
        ensures
            final(self).wf(),
            loaded == (!old(self)@.is_live(address@) && post@.valid(old(self)@.scheme)),
            loaded ==> final(self)@ == old(self)@.with_post(address@, post@),
            !loaded ==> *final(self) == *old(self),
    {
        if self.is_live(&address) || post.id.kind() != self.scheme || text_len(&post.title)
            > MAX_TITLE_LEN || text_len(&post.content) > self.scheme.max_content_len()
            || post.created_at > post.updated_at {
            return false;
        }
        self.put_post(address, post);
        true
    }

    /// Takes in a comment that was stored before, at the address it was
    /// stored at. The comment is taken in where no record lives at the
    /// address and the comment is valid under the store's scheme; otherwise
    /// the store stays as it is.
    pub fn load_comment(&mut self, address: Address, comment: Comment) -> (loaded: bool)
        requires
            old(self).wf(),
        ensures
            final(self).wf(),
            loaded == (!old(self)@.is_live(address@) && comment@.valid(old(self)@.scheme)),
            loaded ==> final(self)@ == old(self)@.with_comment(address@, comment@),
            !loaded ==> *final(self) == *old(self),
    {
        if self.is_live(&address) || comment.id.kind() != self.scheme || text_len(&comment.content)
            > self.scheme.max_comment_len() || comment.created_at > comment.updated_at {
            return false;
        }
        self.put_comment(address, comment);
        true
    }

    /// Stores `post` at `address`, in place of the post that was there.
    pub(crate) fn put_post(&mut self, address: Address, post: Post)
        requires
            old(self).wf(),
            post@.valid(old(self)@.scheme),
            !old(self)@.comments.contains_key(address@),
        ensures
            final(self).wf(),
            final(self)@ == old(self)@.with_post(address@, post@),
    {
        self.posts.put(address, post);
        assert(self@.posts =~= old(self)@.posts.insert(address@, post@));
        assert(self@ =~= old(self)@.with_post(address@, post@));
    }

    /// Takes the post at `address` out of the store.
    pub(crate) fn take_post(&mut self, address: &Address)
        requires
            old(self).wf(),
        ensures
            final(self).wf(),
            final(self)@ == old(self)@.without_post(address@),
    {
        let _ = self.posts.remove(address);
        assert(self@.posts =~= old(self)@.posts.remove(address@));
        assert(self@ =~= old(self)@.without_post(address@));
    }

    /// Sets the comment counter of the post at `address`.
    pub(crate) fn set_comment_count(&mut self, address: &Address, count: u32)
        requires
            old(self).wf(),
            old(self)@.posts.contains_key(address@),
        ensures
            final(self).wf(),
            final(self)@ == old(self)@.with_post(
                address@,
                (PostView { comment_count: count, ..old(self)@.posts[address@] }),
            ),
    {
        match self.posts.remove(address) {
            Some(post) => {
                let mut post = post;
                post.comment_count = count;
                self.posts.put(*address, post);
                assert(self@.posts =~= old(self)@.posts.insert(
                    address@,
                    PostView { comment_count: count, ..old(self)@.posts[address@] },
                ));
            },
            None => {},
        }
    }

    /// Stores `comment` at `address`, in place of the comment that was there.
    pub(crate) fn put_comment(&mut self, address: Address, comment: Comment)
        requires
            old(self).wf(),
            comment@.valid(old(self)@.scheme),
            !old(self)@.posts.contains_key(address@),
        ensures
            final(self).wf(),
            final(self)@ == old(self)@.with_comment(address@, comment@),
    {
        self.comments.put(address, comment);
        assert(self@.comments =~= old(self)@.comments.insert(address@, comment@));
        assert(self@ =~= old(self)@.with_comment(address@, comment@));
    }

    /// Takes the comment at `address` out of the store.
    pub(crate) fn take_comment(&mut self, address: &Address)
        requires
            old(self).wf(),
        ensures
            final(self).wf(),
            final(self)@ == old(self)@.without_comment(address@),
    {
        let _ = self.comments.remove(address);
        assert(self@.comments =~= old(self)@.comments.remove(address@));
        assert(self@ =~= old(self)@.without_comment(address@));
    }
}

} // verus!

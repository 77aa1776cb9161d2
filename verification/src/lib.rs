//! Record management for a publishing platform: posts and comments that live
//! at program-derived addresses, each bound to the author who created it.
//!
//! - `address`: addresses, and the derivation of a record's address from its
//!   owner and key.
//! - `key`: record keys and their canonical encoding.
//! - `record`: posts and comments, their limits and the space they reserve.
//! - `layout`: the bytes of a record in its account.
//! - `table`, `store`: the live records, each at its address.
//! - `context`: what an operation is called with and what it answers.
//! - `lifecycle`: the six operations.
//! - `laws`: what holds of the operations together.

pub mod address;
pub mod context;
pub mod key;
pub mod laws;
pub mod layout;
pub mod lifecycle;
pub mod record;
pub mod store;
pub mod table;

pub use address::{find_comment_address, find_post_address, Address, Derived};
pub use context::{
    AddComment, CreatePost, DeleteComment, DeletePost, ErrorCode, ResourceEffect, UpdateComment,
    UpdatePost,
};
pub use key::{KeyScheme, RecordKey};
pub use layout::{decode_comment, decode_post, encode_comment, encode_post};
pub use lifecycle::{
    add_comment, add_comment_with, create_post, create_post_with, delete_comment,
    delete_comment_with, delete_post, delete_post_with, update_comment, update_comment_with,
    update_post, update_post_with,
};
pub use record::{Comment, Post};
pub use store::RecordStore;

//! A bot that answers messages which link to a site with the same links to a
//! site of one's choosing, and keeps its replies in step when a message is
//! edited or deleted.
//!
//! The heart of it is `cache`: a bounded store, sorted by key, in which a key
//! is reserved before its value is known and filled in later. `cache_laws`
//! states what holds of that store. `state` shares two such stores among
//! many tasks. `pass`, `fix` and `repost` rewrite text, `pattern` is where
//! they meet the regex crate, and `dispatch` decides what to do about each
//! event.

pub mod cache;
pub mod cache_laws;
pub mod config;
pub mod dispatch;
pub mod fix;
pub mod pass;
pub mod pattern;
pub mod repost;
pub mod state;
pub mod text;

//! An in-memory key-value store guarded by two bearer tokens: one token class
//! may read, the other may write.
//!
//! [`store::Store`] holds the entries and the two tokens. The handlers
//! [`handlers::read`] and [`handlers::write`] check the token of a request
//! and then call on the store. [`shared::SharedStore`] puts a store behind a
//! lock for handlers that run at the same time. [`config::AppConfig`] is the
//! configuration a deployment starts from. [`theorems`] states what holds of
//! all of this on every store and over every history of writes.

pub mod config;
pub mod entry;
pub mod handlers;
pub mod shared;
pub mod store;
pub mod text;
pub mod theorems;
pub mod time;

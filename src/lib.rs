//! A relay for signed Nostr events: per-connection subscription state,
//! filter matching, query planning and the event store's write path.
pub mod conn;
pub mod db;
pub mod error;
pub mod event;
pub mod info;
pub mod laws;
pub mod query;
pub mod server;
pub mod sql;
pub mod subscription;

//! A permission-aware key-value front end over a hashed, append-only
//! storage engine.
//!
//! The store never performs I/O itself: each entry point and each engine
//! completion is a transition of an explicit state machine that hands back
//! either the next engine request to submit or the terminal completion to
//! deliver to the client, together with every buffer that belongs to it.

pub mod buffer;
pub mod error;
pub mod header;
pub mod permissions;
pub mod store;

//! Relay and ticket-lifecycle coordinator for a bridge between two chat
//! platforms: a forum-thread side (platform A) and a chat-session side
//! (platform B).
//!
//! The heart of the crate is the [`directory::Directory`], a bidirectional
//! mapping between platform-A thread identifiers and platform-B session
//! identifiers, together with the coordinator operations that open tickets,
//! close them from either side, and relay single messages across. All
//! network I/O (thread creation, attachment download, outbound posts) is
//! performed by the embedding program between the coordinator steps; the
//! decisions themselves are verified here.

pub mod coordinator;
pub mod directory;
pub mod laws;
pub mod message;
pub mod wire;

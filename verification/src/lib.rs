//! Verified core of a proof-of-personhood gate for group chats.
//!
//! A newly joined member is muted and shown a one-time verification
//! link; either a successful proof restores their permissions, or a
//! deadline expires and they are removed.  The heart of the crate is
//! the [`registry::Registry`]: a concurrent store of pending join
//! requests whose atomic `take` operation decides, exactly once per
//! key, which of the two outcomes wins.  Everything around it -- the
//! transport, the HTTP front end, the outbound call to the proof
//! provider -- is unverified plumbing that hands this crate plain
//! values and applies the side effects it decides on.

pub mod commands;
pub mod config;
pub mod errors;
pub mod join_check;
pub mod laws;
pub mod provider;
pub mod registry;
pub mod server;
pub mod text;

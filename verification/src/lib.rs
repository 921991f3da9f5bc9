//! Peer address metadata for a Zcash-style peer-to-peer network.
//!
//! This crate keeps, for every remote peer endpoint a node has learned about,
//! a record of the peer's advertised services and the history of local
//! interactions with it, together with the rules by which new observations
//! update those records:
//!
//! - [`meta_addr::MetaAddr`] is the per-peer record, and
//!   [`meta_addr::MetaAddrChange`] a single observation about one endpoint;
//! - applying a change to an optional previous record
//!   ([`meta_addr::MetaAddrChange::apply_to_meta_addr`]) is a pure fold whose
//!   rules stop remote peers from rewinding timers or reordering the dial
//!   queue;
//! - [`order`] defines the total order used for reconnection priority;
//! - [`meta_addr::MetaAddr::sanitize`] projects a record into its gossipable
//!   form, and [`codec`] encodes that form on the wire;
//! - [`constants`] holds the timing and protocol constants consumed by the
//!   surrounding networking stack.
//!
//! The core is deliberately clock-free: every operation that depends on the
//! current time takes it as an argument, so the fold stays a function over
//! values.

pub mod addr;
pub mod codec;
pub mod constants;
pub mod meta_addr;
pub mod order;
pub mod services;
pub mod time;

//! A chain-extension bridge for non-fungible-token operations.
//!
//! Contract code reaches a host runtime's native token module through a
//! numeric protocol: a 16-bit function id selects one of two operations
//! (query the owner of an item, or transfer an item), and a fixed-shape
//! binary payload carries the arguments. This crate holds the stateless
//! protocol logic of that bridge: selector dispatch, payload encoding and
//! decoding, status-code interpretation, and the per-call state machine
//! that orders the metering charge before the mutating module call. The
//! durable ownership state itself lives in the host runtime's token module,
//! an external collaborator that a surrounding driver talks to.

use vstd::prelude::*;

pub mod account;
pub mod error;
pub mod extension;
pub mod selector;
pub mod dispatch;
pub mod wire;

verus! {

/// The number of bytes in an account identifier.
pub const ACCOUNT_ID_LEN: usize = 32;

} // verus!

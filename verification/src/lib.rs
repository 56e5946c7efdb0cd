//! The message-passing core of a cross-chain bridge: message accounts
//! that move from draft to published exactly once or serve as reusable
//! mailboxes, per-emitter sequence numbers allocated exactly once and
//! gaplessly, fee collection that either moves the exact fee or nothing,
//! a zero-copy view over foreign token accounts, and a token-transfer
//! instruction that deposits into custody and publishes the transfer as
//! a message. Every instruction is a checked state transition over plain
//! account values: it either reports success with every effect stated in
//! its contract, or fails with a named error and changes nothing.

use vstd::prelude::*;

pub mod amounts;
pub mod config;
pub mod errors;
pub mod keys;
pub mod message;
pub mod post_message;
pub mod sequence;
pub mod token_account;
pub mod transfer;

verus! {

/// Wormhole chain identifier of the origin chain this program runs on.
pub const SOLANA_CHAIN: u16 = 1;

} // verus!

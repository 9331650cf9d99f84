//! A minimal message-passing counter contract with an IBC-style channel
//! lifecycle manager: a persisted integer counter, a forward-only migration
//! guard over semantic versions, and a channel handshake state machine that
//! spawns a correlated child instantiation on connect.
use vstd::prelude::*;

pub mod channel;
pub mod contract;
pub mod msg;
pub mod response;
pub mod semver;
pub mod state;

verus! {

/// Identity of this contract; migrations may only stay within it.
pub const CONTRACT_NAME: &'static str = "counter";

/// The build's semantic version, and the fixed protocol version offered on
/// channel open.
pub const CONTRACT_VERSION: &'static str = "0.1.0";

/// Correlation token attached to the child-instantiation request issued on
/// channel connect, so a later completion notification can be matched back.
pub const INIT_CALLBACK_ID: u64 = 7890;

} // verus!

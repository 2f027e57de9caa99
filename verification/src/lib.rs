//! A rate-limited token issuance core for a block-chain ledger.
//!
//! An account may request a token mint ("airdrop") of a chosen amount, but
//! only once per fixed block-height cooldown window. The crate models the
//! pieces the host runtime supplies — a per-account cooldown record, a
//! currency ledger, and an event sink — as plain verified data structures,
//! and proves that the issuance gate enforces the cooldown, mutates nothing
//! on rejection, and on success updates exactly the caller's record and the
//! total issuance.

use vstd::prelude::*;

pub mod bank;
pub mod cooldown;
pub mod pallet;

verus! {

/// Opaque identifier of a ledger participant; equality-comparable, used as a
/// map key.
pub type AccountId = u64;

/// Monotonically non-decreasing block counter supplied by the host ledger.
pub type BlockHeight = u64;

/// Unsigned quantity of tokens requested by a caller.
pub type Amount = u64;

} // verus!

//! The cooldown ledger: a durable mapping from account identity to the block
//! height of that account's last successful airdrop.
//!
//! Absence of an entry means "never airdropped". Entries are created lazily
//! on the first successful airdrop and are never deleted.

use vstd::prelude::*;
use std::collections::HashMap;

verus! {

broadcast use vstd::std_specs::hash::group_hash_axioms;

/// Maps each account to the height of its last successful airdrop.
pub struct CooldownLedger {
    map: HashMap<u64, u64>,
}

impl View for CooldownLedger {
    type V = Map<u64, u64>;

    closed spec fn view(&self) -> Map<u64, u64> {
        self.map@
    }
}

impl CooldownLedger {
    /// An empty ledger: no account has ever been airdropped.
    pub fn new() -> (r: CooldownLedger)
        ensures
            r@ == Map::<u64, u64>::empty(),
    {
        CooldownLedger { map: HashMap::new() }
    }

    /// The recorded height of `account`'s last airdrop, or `None` if the
    /// account was never airdropped.
    pub fn get_last_height(&self, account: u64) -> (r: Option<u64>)
        ensures
            match r {
                Some(h) => self@.contains_key(account) && self@[account] == h,
                None => !self@.contains_key(account),
            },
    {
        match self.map.get(&account) {
            Some(h) => Some(*h),
            None => None,
        }
    }

    /// Unconditionally record `height` as `account`'s last airdrop height.
    /// Called only after a successful issuance.
    pub fn set_last_height(&mut self, account: u64, height: u64)
        ensures
            final(self)@ == old(self)@.insert(account, height),
    {
        self.map.insert(account, height);
    }
}

} // verus!

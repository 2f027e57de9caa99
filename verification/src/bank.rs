//! A model of the host's currency ledger: the total issuance and the balance
//! of every existing account.
//!
//! The issuance gate needs two capabilities from the currency ledger: minting
//! new supply and crediting the minted funds to an existing account, coupled
//! so that either both happen or neither does. `deposit_into_existing` is that
//! coupled operation: it fails, changing nothing, when the destination account
//! does not exist or when the credit would overflow a balance or the total
//! supply; otherwise it raises the total issuance and the destination balance
//! by exactly the deposited amount.

use vstd::prelude::*;
use std::collections::HashMap;

verus! {

broadcast use vstd::std_specs::hash::group_hash_axioms;

/// The abstract state of a currency ledger: how much currency exists in
/// total, and which accounts exist with which balances.
#[verifier::ext_equal]
pub struct BankView {
    pub total_issuance: u64,
    pub balances: Map<u64, u64>,
}

/// A currency ledger. Accounts absent from `balances` do not exist and
/// cannot receive deposits.
pub struct Bank {
    total_issuance: u64,
    balances: HashMap<u64, u64>,
}

/// Whether `bank` can accept a deposit of `amount` newly issued units into
/// `who`'s account: the account must exist, and neither the balance nor the
/// total issuance may overflow.
pub open spec fn can_deposit(bank: BankView, who: u64, amount: u64) -> bool {
    &&& bank.balances.contains_key(who)
    &&& bank.balances[who] + amount <= u64::MAX
    &&& bank.total_issuance + amount <= u64::MAX
}

impl View for Bank {
    type V = BankView;

    closed spec fn view(&self) -> BankView {
        BankView { total_issuance: self.total_issuance, balances: self.balances@ }
    }
}

impl Bank {
    /// An empty ledger: no currency issued, no accounts.
    pub fn new() -> (r: Bank)
        ensures
            r@.total_issuance == 0,
            r@.balances == Map::<u64, u64>::empty(),
    {
        Bank { total_issuance: 0, balances: HashMap::new() }
    }

    /// Make `who` exist with balance zero; an account that already exists is
    /// left untouched. Total issuance never changes.
    pub fn open_account(&mut self, who: u64)
        ensures
            final(self)@.total_issuance == old(self)@.total_issuance,
            final(self)@.balances == if old(self)@.balances.contains_key(who) {
                old(self)@.balances
            } else {
                old(self)@.balances.insert(who, 0u64)
            },
    {
        if !self.balances.contains_key(&who) {
            self.balances.insert(who, 0);
        }
    }

    /// How much currency exists in total.
    pub fn total_issuance(&self) -> (r: u64)
        ensures
            r == self@.total_issuance,
    {
        self.total_issuance
    }

    /// The balance of `who`, or `None` if the account does not exist.
    pub fn balance_of(&self, who: u64) -> (r: Option<u64>)
        ensures
            match r {
                Some(b) => self@.balances.contains_key(who) && self@.balances[who] == b,
                None => !self@.balances.contains_key(who),
            },
    {
        match self.balances.get(&who) {
            Some(b) => Some(*b),
            None => None,
        }
    }

    /// Mint `amount` new units and credit them to the existing account `who`,
    /// as one atomic step: on failure — the account does not exist, or the
    /// credit would overflow a balance or the total supply — nothing changes.
    pub fn deposit_into_existing(&mut self, who: u64, amount: u64) -> (r: Result<(), ()>)
        ensures
            r.is_ok() <==> can_deposit(old(self)@, who, amount),
            r.is_err() ==> final(self)@ == old(self)@,
            r.is_ok() ==> final(self)@.total_issuance == old(self)@.total_issuance + amount,
            r.is_ok() ==> final(self)@.balances == old(self)@.balances.insert(
                who,
                (old(self)@.balances[who] + amount) as u64,
            ),
    {
        match self.balance_of(who) {
            None => Err(()),
            Some(b) => {
                if amount > u64::MAX - b || amount > u64::MAX - self.total_issuance {
                    Err(())
                } else {
                    self.total_issuance = self.total_issuance + amount;
                    self.balances.insert(who, b + amount);
                    Ok(())
                }
            },
        }
    }
}

} // verus!

//! The issuance gate: the state-transition logic that decides one airdrop
//! request and, on success, performs it atomically.
//!
//! A request for `amount` tokens by `who` at block height `now` succeeds when
//! the account is not cooling — it has no recorded airdrop, or at least
//! [`DELAY`] heights have elapsed since the recorded one — and the currency
//! ledger can accept the minted amount. On success the mint and credit, the
//! new cooldown record and the emitted event all happen together; on
//! rejection nothing observable changes.

use vstd::prelude::*;

use crate::bank::{can_deposit, Bank, BankView};
use crate::cooldown::CooldownLedger;
use crate::{AccountId, Amount, BlockHeight};

verus! {

/// How many block heights must elapse after a successful airdrop before the
/// same account may receive another.
pub const DELAY: u64 = 16;

/// A rejected request's reason.
#[derive(Clone, Copy, Debug, PartialEq, Eq, Structural)]
pub enum Error {
    /// The cooldown window has not elapsed since the account's last
    /// successful airdrop; recoverable by retrying after enough blocks.
    DelayNotFinished,
    /// The currency-ledger credit step failed: the destination account does
    /// not exist, or cannot accept the minted funds.
    SomethingWentWrong,
}

/// An event emitted towards the host's event sink.
#[derive(Clone, Copy, Debug, PartialEq, Eq, Structural)]
pub enum Event {
    /// A successful airdrop: the amount issued and the account credited.
    Airdrop(Amount, AccountId),
}

/// The successful outcome of one request: the amount issued and the account
/// credited. A rejection is reported as an [`Error`] instead, with no state
/// mutated.
#[derive(Clone, Copy, Debug, PartialEq, Eq, Structural)]
pub enum IssuanceOutcome {
    Issued(Amount, AccountId),
}

/// The abstract state of the pallet: the cooldown records and the events
/// emitted so far.
#[verifier::ext_equal]
pub struct PalletView {
    pub last_airdrop: Map<AccountId, BlockHeight>,
    pub events: Seq<Event>,
}

/// The airdrop pallet's own state: the cooldown ledger and the append-only
/// log of emitted events.
pub struct Pallet {
    last_airdrop: CooldownLedger,
    events: Vec<Event>,
}

/// How many heights have elapsed at `now` since `last`. A height below the
/// recorded one (as after a ledger rollback) counts as zero heights elapsed,
/// so such an account is still cooling.
pub open spec fn elapsed(now: BlockHeight, last: BlockHeight) -> int {
    if now >= last {
        now - last
    } else {
        0
    }
}

/// Whether `who` is still inside its cooldown window at height `now`: it has
/// a recorded airdrop fewer than [`DELAY`] heights ago. An account with no
/// record has never been airdropped and is never cooling.
pub open spec fn is_cooling(records: Map<AccountId, BlockHeight>, who: AccountId, now: BlockHeight) -> bool {
    records.contains_key(who) && elapsed(now, records[who]) < DELAY
}

impl View for Pallet {
    type V = PalletView;

    closed spec fn view(&self) -> PalletView {
        PalletView { last_airdrop: self.last_airdrop@, events: self.events@ }
    }
}

impl Pallet {
    /// A fresh pallet: no account has ever been airdropped, no events emitted.
    pub fn new() -> (r: Pallet)
        ensures
            r@.last_airdrop == Map::<AccountId, BlockHeight>::empty(),
            r@.events == Seq::<Event>::empty(),
    {
        Pallet { last_airdrop: CooldownLedger::new(), events: Vec::new() }
    }

    /// The recorded height of `who`'s last successful airdrop, or `None` if
    /// the account was never airdropped.
    pub fn last_airdrop(&self, who: AccountId) -> (r: Option<BlockHeight>)
        ensures
            match r {
                Some(h) => self@.last_airdrop.contains_key(who) && self@.last_airdrop[who] == h,
                None => !self@.last_airdrop.contains_key(who),
            },
    {
        self.last_airdrop.get_last_height(who)
    }

    /// The events emitted so far, oldest first.
    pub fn events(&self) -> (r: &Vec<Event>)
        ensures
            r@ == self@.events,
    {
        &self.events
    }

    /// Decide and, on success, perform one airdrop request: `who` asks for
    /// `amount` freshly minted tokens at block height `now`.
    ///
    /// The request fails with `DelayNotFinished` exactly when `who` is still
    /// cooling, and with `SomethingWentWrong` exactly when it is not cooling
    /// but the currency ledger cannot accept the credit. A rejected request
    /// changes nothing. A successful request mints `amount` new units into
    /// `who`'s balance, records `now` as `who`'s last airdrop height — no
    /// other account's record changes — and emits one `Airdrop` event.
    pub fn get_tokens(&mut self, bank: &mut Bank, who: AccountId, amount: Amount, now: BlockHeight) -> (r: Result<
        IssuanceOutcome,
        Error,
    >)
        ensures
            r == Err::<IssuanceOutcome, Error>(Error::DelayNotFinished) <==> is_cooling(
                old(self)@.last_airdrop,
                who,
                now,
            ),
            r == Err::<IssuanceOutcome, Error>(Error::SomethingWentWrong) <==> (!is_cooling(
                old(self)@.last_airdrop,
                who,
                now,
            ) && !can_deposit(old(bank)@, who, amount)),
            r == Ok::<IssuanceOutcome, Error>(IssuanceOutcome::Issued(amount, who)) <==> (!is_cooling(
                old(self)@.last_airdrop,
                who,
                now,
            ) && can_deposit(old(bank)@, who, amount)),
            r.is_err() ==> final(self)@ == old(self)@ && final(bank)@ == old(bank)@,
            r.is_ok() ==> final(self)@.last_airdrop == old(self)@.last_airdrop.insert(who, now),
            r.is_ok() ==> final(self)@.events == old(self)@.events.push(Event::Airdrop(amount, who)),
            r.is_ok() ==> final(bank)@.total_issuance == old(bank)@.total_issuance + amount,
            r.is_ok() ==> final(bank)@.balances == old(bank)@.balances.insert(
                who,
                (old(bank)@.balances[who] + amount) as u64,
            ),
    {
        let cooling: bool = match self.last_airdrop.get_last_height(who) {
            None => false,
            Some(last) => {
                let gap: u64 = if now >= last {
                    now - last
                } else {
                    0
                };
                gap < DELAY
            },
        };
        if cooling {
            return Err(Error::DelayNotFinished);
        }
        if bank.deposit_into_existing(who, amount).is_err() {
            return Err(Error::SomethingWentWrong);
        }
        self.last_airdrop.set_last_height(who, now);
        self.events.push(Event::Airdrop(amount, who));
        Ok(IssuanceOutcome::Issued(amount, who))
    }
}

/// Cooldown enforcement: after a successful airdrop for `who` at height `h1`
/// — which records `h1` for `who` — a request at any later height `h2` with
/// `h2 - h1 < DELAY` finds the account cooling, so `get_tokens` rejects it
/// with `Error::DelayNotFinished`.
pub proof fn lemma_cooldown_enforcement(
    records: Map<AccountId, BlockHeight>,
    who: AccountId,
    h1: BlockHeight,
    h2: BlockHeight,
)
    requires
        h1 < h2,
        h2 - h1 < DELAY,
    ensures
        is_cooling(records.insert(who, h1), who, h2),
{
}

/// Eligibility after the window: after a successful airdrop for `who` at
/// height `h1`, a request at height `h1 + DELAY` or later finds the account
/// not cooling, so `get_tokens` never rejects it with
/// `Error::DelayNotFinished`.
pub proof fn lemma_eligible_after_window(
    records: Map<AccountId, BlockHeight>,
    who: AccountId,
    h1: BlockHeight,
    h2: BlockHeight,
)
    requires
        h1 + DELAY <= h2,
    ensures
        !is_cooling(records.insert(who, h1), who, h2),
{
}

/// First-time default: an account with no recorded airdrop height is never
/// cooling, whatever the current height, so its first request is never
/// rejected with `Error::DelayNotFinished`.
pub proof fn lemma_first_time_eligible(
    records: Map<AccountId, BlockHeight>,
    who: AccountId,
    now: BlockHeight,
)
    requires
        !records.contains_key(who),
    ensures
        !is_cooling(records, who, now),
{
}

/// Atomic success touches only the caller: recording a new height for `who`
/// leaves every other account's record — its presence and its value —
/// exactly as it was.
pub proof fn lemma_success_touches_only_caller(
    records: Map<AccountId, BlockHeight>,
    who: AccountId,
    now: BlockHeight,
    other: AccountId,
)
    requires
        other != who,
    ensures
        records.insert(who, now).contains_key(other) == records.contains_key(other),
        records.contains_key(other) ==> records.insert(who, now)[other] == records[other],
{
}

} // verus!

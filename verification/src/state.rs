use vstd::prelude::*;

use crate::errors::LotteryError;

verus! {

/// Hard cap on tickets sold in one round.
pub const MAX_PARTICIPANTS: u32 = 100;

/// A 256-bit account address, held as two plain integers so that the
/// state machine can store and compare identities without depending on
/// the host ledger's own key type.
#[derive(Clone, Copy, PartialEq, Eq, Structural, Debug)]
pub struct AccountKey {
    pub hi: u128,
    pub lo: u128,
}

/// Lifecycle phase of a raffle round.
#[derive(Clone, Copy, PartialEq, Eq, Structural, Debug)]
pub enum LotteryStatus {
    Active,
    EndedWaitingForWinner,
    WinnerSelected,
    Completed,
}

impl Default for LotteryStatus {
    fn default() -> (s: Self)
        ensures
            s == LotteryStatus::Active,
    {
        LotteryStatus::Active
    }
}

/// The mathematical model of a raffle record: the same fields as
/// `LotteryState`, with the participant list as a sequence and the id as a
/// sequence of characters. All transition functions and laws are stated
/// over this model.
#[verifier::ext_equal]
pub ghost struct LotteryView {
    pub lottery_id: Seq<char>,
    pub admin: AccountKey,
    pub creator: AccountKey,
    pub entry_fee: u64,
    pub total_tickets: u32,
    pub participants: Seq<AccountKey>,
    pub end_time: i64,
    pub winner: Option<AccountKey>,
    pub randomness_account: Option<AccountKey>,
    pub index: u32,
    pub status: LotteryStatus,
    pub total_prize: u64,
    pub pool: u64,
}

impl LotteryView {
    /// Well-formedness of a raffle record. Every operation of the state
    /// machine preserves this predicate.
    pub open spec fn wf(self) -> bool {
        &&& self.participants.len() == self.total_tickets as int
        &&& self.index == self.total_tickets
        &&& self.total_tickets <= MAX_PARTICIPANTS
        &&& self.entry_fee > 0
        &&& !self.participants.contains(self.creator)
        &&& (self.winner is Some ==> self.status == LotteryStatus::WinnerSelected
            && self.participants.contains(self.winner->0))
        &&& (self.status == LotteryStatus::WinnerSelected ==> self.winner is Some
            && self.total_prize == self.entry_fee * self.total_tickets
            && self.total_prize <= self.pool)
        &&& ((self.status == LotteryStatus::Active || self.status
            == LotteryStatus::EndedWaitingForWinner) ==> self.winner is None && self.total_prize
            == 0 && self.entry_fee * self.total_tickets <= self.pool)
        &&& (self.status == LotteryStatus::Completed ==> self.winner is None && self.total_prize
            == 0 && self.total_tickets == 0)
    }

    /// The status a reader observes at time `now`: an Active round whose
    /// deadline has passed counts as waiting for a winner, with no stored
    /// transition needed.
    pub open spec fn spec_derived_status(self, now: i64) -> LotteryStatus {
        if self.status == LotteryStatus::Active && now > self.end_time {
            LotteryStatus::EndedWaitingForWinner
        } else {
            self.status
        }
    }
}

/// One raffle record. `pool` models the balance held in the raffle's
/// custody: ticket fees flow in, payouts and the closing sweep flow out.
pub struct LotteryState {
    pub lottery_id: String,
    pub admin: AccountKey,
    pub creator: AccountKey,
    pub entry_fee: u64,
    pub total_tickets: u32,
    pub participants: Vec<AccountKey>,
    pub end_time: i64,
    pub winner: Option<AccountKey>,
    pub randomness_account: Option<AccountKey>,
    pub index: u32,
    pub status: LotteryStatus,
    pub total_prize: u64,
    pub pool: u64,
}

impl View for LotteryState {
    type V = LotteryView;

    open spec fn view(&self) -> LotteryView {
        LotteryView {
            lottery_id: self.lottery_id@,
            admin: self.admin,
            creator: self.creator,
            entry_fee: self.entry_fee,
            total_tickets: self.total_tickets,
            participants: self.participants@,
            end_time: self.end_time,
            winner: self.winner,
            randomness_account: self.randomness_account,
            index: self.index,
            status: self.status,
            total_prize: self.total_prize,
            pool: self.pool,
        }
    }
}

impl LotteryState {
    /// Computes the derived status without touching the record.
    pub fn derived_status(&self, now: i64) -> (s: LotteryStatus)
        ensures
            s == self@.spec_derived_status(now),
    {
        if now > self.end_time && matches!(self.status, LotteryStatus::Active) {
            LotteryStatus::EndedWaitingForWinner
        } else {
            self.status
        }
    }

    /// Overwrites the stored status and nothing else.
    pub fn update_status(&mut self, new_status: LotteryStatus)
        ensures
            final(self)@ == (LotteryView { status: new_status, ..old(self)@ }),
    {
        self.status = new_status;
    }

    /// Reads the status at time `now`, first committing the lazy
    /// Active-to-expired promotion to the record if the deadline has passed.
    pub fn get_status(&mut self, now: i64) -> (s: LotteryStatus)
        ensures
            final(self)@ == (LotteryView {
                status: old(self)@.spec_derived_status(now),
                ..old(self)@
            }),
            s == old(self)@.spec_derived_status(now),
    {
        if now > self.end_time && matches!(self.status, LotteryStatus::Active) {
            self.update_status(LotteryStatus::EndedWaitingForWinner);
        }
        self.status
    }

    /// Records `winner`, provided no winner is set yet and `winner` holds a
    /// ticket; fails without touching the record otherwise.
    pub fn set_winner(&mut self, winner: AccountKey) -> (r: Result<(), LotteryError>)
        ensures
            old(self).winner is Some ==> r == Err::<(), LotteryError>(
                LotteryError::WinnerAlreadySelected,
            ) && final(self)@ == old(self)@,
            old(self).winner is None && !old(self)@.participants.contains(winner) ==> r == Err::<
                (),
                LotteryError,
            >(LotteryError::InvalidWinnerIndex) && final(self)@ == old(self)@,
            old(self).winner is None && old(self)@.participants.contains(winner) ==> r == Ok::<
                (),
                LotteryError,
            >(()) && final(self)@ == (LotteryView { winner: Some(winner), ..old(self)@ }),
    {
        if self.winner.is_some() {
            return Err(LotteryError::WinnerAlreadySelected);
        }
        if !contains_key(&self.participants, winner) {
            return Err(LotteryError::InvalidWinnerIndex);
        }
        self.winner = Some(winner);
        Ok(())
    }
}

/// True exactly when `key` occurs in `v`.
pub fn contains_key(v: &Vec<AccountKey>, key: AccountKey) -> (r: bool)
    ensures
        r == v@.contains(key),
{
    let mut i: usize = 0;
    while i < v.len()
        invariant
            0 <= i <= v@.len(),
            forall|j: int| 0 <= j < i ==> v@[j] != key,
        decreases v@.len() - i,
    {
        if v[i] == key {
            assert(v@.contains(key));
            return true;
        }
        i = i + 1;
    }
    assert(!v@.contains(key));
    false
}

} // verus!

use vstd::prelude::*;

use crate::errors::LotteryError;
use crate::randomness::{
    parse_randomness, randomness_data_well_formed, spec_random_value, spec_reveal_slot,
};
use crate::state::{AccountKey, LotteryState, LotteryStatus, LotteryView, MAX_PARTICIPANTS};

verus! {

/// What the host ledger must pay out after a successful prize claim:
/// the winner's, creator's and operator's shares of the snapshotted pool.
#[derive(Clone, Copy, PartialEq, Eq, Structural, Debug)]
pub struct PrizePayout {
    pub winner: AccountKey,
    pub winner_amount: u64,
    pub creator: AccountKey,
    pub creator_amount: u64,
    pub developer_amount: u64,
}

/// The record Create allocates: fresh counters, empty participant list,
/// Active status, nothing escrowed yet.
pub open spec fn spec_initialize(
    lottery_id: Seq<char>,
    admin: AccountKey,
    creator_key: AccountKey,
    entry_fee: u64,
    end_time: i64,
) -> LotteryView {
    LotteryView {
        lottery_id,
        admin,
        creator: creator_key,
        entry_fee,
        total_tickets: 0,
        participants: Seq::empty(),
        end_time,
        winner: None,
        randomness_account: None,
        index: 0,
        status: LotteryStatus::Active,
        total_prize: 0,
        pool: 0,
    }
}

/// Creates a fresh raffle record. The entry fee must be positive and the
/// deadline must lie in the future.
pub fn initialize(
    lottery_id: String,
    admin: AccountKey,
    creator_key: AccountKey,
    entry_fee: u64,
    end_time: i64,
    now: i64,
) -> (l: LotteryState)
    requires
        entry_fee > 0,
        now < end_time,
    ensures
        l@ == spec_initialize(lottery_id@, admin, creator_key, entry_fee, end_time),
        l@.wf(),
{
    let l = LotteryState {
        lottery_id,
        admin,
        creator: creator_key,
        entry_fee,
        total_tickets: 0,
        participants: Vec::new(),
        end_time,
        winner: None,
        randomness_account: None,
        index: 0,
        status: LotteryStatus::Active,
        total_prize: 0,
        pool: 0,
    };
    proof {
        assert(l@ =~= spec_initialize(l.lottery_id@, admin, creator_key, entry_fee, end_time));
    }
    l
}

/// Status read: checks the id, then reads the derived status, committing
/// the lazy Active-to-expired promotion to the record.
pub open spec fn spec_get_status(v: LotteryView, lottery_id: Seq<char>, now: i64) -> (
    LotteryView,
    Result<LotteryStatus, LotteryError>,
) {
    if v.lottery_id != lottery_id {
        (v, Err(LotteryError::InvalidLotteryId))
    } else {
        (
            (LotteryView { status: v.spec_derived_status(now), ..v }),
            Ok(v.spec_derived_status(now)),
        )
    }
}

/// Reports the raffle's status as of `now`, advancing a stale Active
/// record past its deadline.
pub fn get_status(lottery: &mut LotteryState, lottery_id: &String, now: i64) -> (r: Result<
    LotteryStatus,
    LotteryError,
>)
    ensures
        (final(lottery)@, r) == spec_get_status(old(lottery)@, lottery_id@, now),
        old(lottery)@.wf() ==> final(lottery)@.wf(),
{
    if !(lottery.lottery_id == *lottery_id) {
        return Err(LotteryError::InvalidLotteryId);
    }
    Ok(lottery.get_status(now))
}

/// Ticket sale: the checks in order, first failure wins; on success the
/// buyer's fee lands in the pool and the buyer is appended.
pub open spec fn spec_buy_ticket(
    v: LotteryView,
    lottery_id: Seq<char>,
    player: AccountKey,
    now: i64,
) -> (LotteryView, Result<(), LotteryError>) {
    if v.lottery_id != lottery_id {
        (v, Err(LotteryError::InvalidLotteryId))
    } else if player == v.creator {
        (v, Err(LotteryError::CreatorCannotParticipate))
    } else if v.spec_derived_status(now) != LotteryStatus::Active {
        (v, Err(LotteryError::InvalidLotteryState))
    } else if v.winner is Some {
        (v, Err(LotteryError::WinnerAlreadySelected))
    } else if v.total_tickets >= MAX_PARTICIPANTS {
        (v, Err(LotteryError::MaxParticipantsReached))
    } else if v.pool + v.entry_fee > u64::MAX {
        (v, Err(LotteryError::Overflow))
    } else {
        (
            (LotteryView {
                total_tickets: (v.total_tickets + 1) as u32,
                participants: v.participants.push(player),
                index: (v.index + 1) as u32,
                pool: (v.pool + v.entry_fee) as u64,
                ..v
            }),
            Ok(()),
        )
    }
}

/// Sells one ticket to `player` at time `now`: all-or-nothing, the fee is
/// credited to the pool exactly when the buyer is recorded.
pub fn buy_ticket(
    lottery: &mut LotteryState,
    lottery_id: &String,
    player: AccountKey,
    now: i64,
) -> (r: Result<(), LotteryError>)
    requires
        old(lottery)@.wf(),
    ensures
        (final(lottery)@, r) == spec_buy_ticket(old(lottery)@, lottery_id@, player, now),
        final(lottery)@.wf(),
{
    if !(lottery.lottery_id == *lottery_id) {
        return Err(LotteryError::InvalidLotteryId);
    }
    if player == lottery.creator {
        return Err(LotteryError::CreatorCannotParticipate);
    }
    let status = lottery.derived_status(now);
    if !matches!(status, LotteryStatus::Active) {
        return Err(LotteryError::InvalidLotteryState);
    }
    if lottery.winner.is_some() {
        return Err(LotteryError::WinnerAlreadySelected);
    }
    if lottery.total_tickets >= MAX_PARTICIPANTS {
        return Err(LotteryError::MaxParticipantsReached);
    }
    let new_pool = match lottery.pool.checked_add(lottery.entry_fee) {
        Some(p) => p,
        None => {
            return Err(LotteryError::Overflow);
        },
    };
    lottery.pool = new_pool;
    lottery.participants.push(player);
    lottery.total_tickets = lottery.total_tickets + 1;
    lottery.index = lottery.index + 1;
    proof {
        let ps = lottery@.participants;
        assert forall|j: int| 0 <= j < ps.len() implies ps[j] != lottery@.creator by {
            if j < ps.len() - 1 {
                assert(ps[j] == old(lottery)@.participants[j]);
            }
        }
        assert(!ps.contains(lottery@.creator));
        let fee = lottery@.entry_fee;
        let old_tickets = old(lottery)@.total_tickets;
        assert(fee * (old_tickets + 1) == fee * old_tickets + fee) by (nonlinear_arith);
        assert(lottery@ =~= spec_buy_ticket(old(lottery)@, lottery_id@, player, now).0);
    }
    Ok(())
}

/// The first check winner selection fails on, if any: a winner may only be
/// chosen once, for the right record, after the deadline, from at least
/// one ticket.
pub open spec fn spec_select_error(v: LotteryView, lottery_id: Seq<char>, now: i64) -> Option<
    LotteryError,
> {
    if v.winner is Some {
        Some(LotteryError::WinnerAlreadySelected)
    } else if v.lottery_id != lottery_id {
        Some(LotteryError::InvalidLotteryId)
    } else if v.spec_derived_status(now) != LotteryStatus::EndedWaitingForWinner {
        Some(LotteryError::InvalidLotteryState)
    } else if v.total_tickets == 0 {
        Some(LotteryError::NoParticipants)
    } else {
        None
    }
}

/// Winner selection from an already resolved random byte: the winner is
/// the ticket at `random_byte mod totalTickets`, the prize is snapshotted
/// as `entryFee * totalTickets`, and the record moves to WinnerSelected.
pub open spec fn spec_select_winner(
    v: LotteryView,
    lottery_id: Seq<char>,
    randomness_key: AccountKey,
    random_byte: u8,
    now: i64,
) -> (LotteryView, Result<(), LotteryError>) {
    match spec_select_error(v, lottery_id, now) {
        Some(e) => (v, Err(e)),
        None => {
            let idx = (random_byte as int) % (v.total_tickets as int);
            (
                (LotteryView {
                    winner: Some(v.participants[idx]),
                    randomness_account: Some(randomness_key),
                    status: LotteryStatus::WinnerSelected,
                    total_prize: (v.entry_fee * v.total_tickets) as u64,
                    ..v
                }),
                Ok(()),
            )
        },
    }
}

/// Runs winner selection's pure preconditions, in order.
fn select_precheck(lottery: &LotteryState, lottery_id: &String, now: i64) -> (r: Option<
    LotteryError,
>)
    requires
        lottery@.wf(),
    ensures
        r == spec_select_error(lottery@, lottery_id@, now),
{
    if lottery.winner.is_some() {
        return Some(LotteryError::WinnerAlreadySelected);
    }
    if !(lottery.lottery_id == *lottery_id) {
        return Some(LotteryError::InvalidLotteryId);
    }
    let status = lottery.derived_status(now);
    if !matches!(status, LotteryStatus::EndedWaitingForWinner) {
        return Some(LotteryError::InvalidLotteryState);
    }
    if lottery.total_tickets == 0 || lottery.participants.is_empty() {
        return Some(LotteryError::NoParticipants);
    }
    None
}

/// Chooses the winner from a random byte the oracle already resolved.
/// Public so that the selection logic is checkable on given values; the
/// oracle-reading entry point is `select_winner`.
pub fn select_winner_with_value(
    lottery: &mut LotteryState,
    lottery_id: &String,
    randomness_key: AccountKey,
    random_byte: u8,
    now: i64,
) -> (r: Result<(), LotteryError>)
    requires
        old(lottery)@.wf(),
    ensures
        (final(lottery)@, r) == spec_select_winner(
            old(lottery)@,
            lottery_id@,
            randomness_key,
            random_byte,
            now,
        ),
        final(lottery)@.wf(),
{
    if let Some(e) = select_precheck(lottery, lottery_id, now) {
        return Err(e);
    }
    let total_prize = match lottery.entry_fee.checked_mul(lottery.total_tickets as u64) {
        Some(p) => p,
        None => {
            return Err(LotteryError::Overflow);
        },
    };
    let winner_index = (random_byte as usize) % (lottery.total_tickets as usize);
    assert(winner_index < lottery@.participants.len()) by {
        vstd::arithmetic::div_mod::lemma_mod_bound(
            random_byte as int,
            lottery@.total_tickets as int,
        );
    }
    if winner_index >= lottery.participants.len() {
        // Defensive bound check; unreachable since the index is a residue
        // modulo the ticket count.
        return Err(LotteryError::InvalidWinnerIndex);
    }
    let winner_key = lottery.participants[winner_index];
    lottery.randomness_account = Some(randomness_key);
    proof {
        assert(lottery@.participants.contains(winner_key)) by {
            assert(lottery@.participants[winner_index as int] == winner_key);
        }
    }
    let set_result = lottery.set_winner(winner_key);
    match set_result {
        Ok(()) => {},
        Err(e) => {
            return Err(e);
        },
    }
    lottery.total_prize = total_prize;
    lottery.update_status(LotteryStatus::WinnerSelected);
    proof {
        assert(lottery@ =~= spec_select_winner(
            old(lottery)@,
            lottery_id@,
            randomness_key,
            random_byte,
            now,
        ).0);
    }
    Ok(())
}

/// Chooses the winner from the randomness oracle's account bytes at the
/// current slot. Fails with RandomnessUnavailable when the bytes do not
/// parse as a randomness account, and with RandomnessNotResolved when the
/// oracle's value was not revealed at `clock_slot`; all failures leave the
/// record unchanged.
pub fn select_winner(
    lottery: &mut LotteryState,
    lottery_id: &String,
    randomness_key: AccountKey,
    randomness_data: &Vec<u8>,
    clock_slot: u64,
    now: i64,
) -> (r: Result<(), LotteryError>)
    requires
        old(lottery)@.wf(),
    ensures
        final(lottery)@.wf(),
        r is Err ==> final(lottery)@ == old(lottery)@,
        spec_select_error(old(lottery)@, lottery_id@, now) matches Some(e) ==> r == Err::<
            (),
            LotteryError,
        >(e),
        spec_select_error(old(lottery)@, lottery_id@, now) is None && !randomness_data_well_formed(
            randomness_data@,
        ) ==> r == Err::<(), LotteryError>(LotteryError::RandomnessUnavailable),
        r == Err::<(), LotteryError>(LotteryError::RandomnessNotResolved)
            ==> randomness_data_well_formed(randomness_data@) && clock_slot != spec_reveal_slot(
            randomness_data@,
        ),
        r is Ok ==> randomness_data_well_formed(randomness_data@) && clock_slot
            == spec_reveal_slot(randomness_data@) && (final(lottery)@, r) == spec_select_winner(
            old(lottery)@,
            lottery_id@,
            randomness_key,
            spec_random_value(randomness_data@)[0],
            now,
        ),
{
    if let Some(e) = select_precheck(lottery, lottery_id, now) {
        return Err(e);
    }
    let snapshot = match parse_randomness(randomness_data) {
        Ok(s) => s,
        Err(e) => {
            return Err(e);
        },
    };
    let value = match snapshot.get_value(clock_slot) {
        Ok(v) => v,
        Err(e) => {
            return Err(e);
        },
    };
    select_winner_with_value(lottery, lottery_id, randomness_key, value[0], now)
}

/// Prize claim: only the recorded winner of a resolved round may claim;
/// the pool pays 85% to the winner, 5% to the creator and 10% to the
/// operator, each share truncated, and the round is reset.
pub open spec fn spec_claim_prize(v: LotteryView, lottery_id: Seq<char>, player: AccountKey) -> (
    LotteryView,
    Result<PrizePayout, LotteryError>,
) {
    if v.lottery_id != lottery_id {
        (v, Err(LotteryError::InvalidLotteryId))
    } else if v.winner is None {
        (v, Err(LotteryError::NoWinnerSelected))
    } else if v.winner != Some(player) {
        (v, Err(LotteryError::NotWinner))
    } else if v.status != LotteryStatus::WinnerSelected {
        (v, Err(LotteryError::InvalidLotteryState))
    } else if v.total_prize * 85 > u64::MAX {
        (v, Err(LotteryError::Overflow))
    } else {
        let winner_amount = v.total_prize * 85 / 100;
        let creator_amount = v.total_prize * 5 / 100;
        let developer_amount = v.total_prize * 10 / 100;
        (
            (LotteryView {
                total_tickets: 0,
                participants: Seq::empty(),
                winner: None,
                index: 0,
                status: LotteryStatus::Completed,
                total_prize: 0,
                pool: (v.pool - (winner_amount + creator_amount + developer_amount)) as u64,
                ..v
            }),
            Ok(
                PrizePayout {
                    winner: player,
                    winner_amount: winner_amount as u64,
                    creator: v.creator,
                    creator_amount: creator_amount as u64,
                    developer_amount: developer_amount as u64,
                },
            ),
        )
    }
}

/// Pays the round out to its winner. On success the returned payout tells
/// the host what to transfer, and the record is reset for the dust left by
/// truncation to be recovered only by `close`.
pub fn claim_prize(lottery: &mut LotteryState, lottery_id: &String, player: AccountKey) -> (r:
    Result<PrizePayout, LotteryError>)
    requires
        old(lottery)@.wf(),
    ensures
        (final(lottery)@, r) == spec_claim_prize(old(lottery)@, lottery_id@, player),
        final(lottery)@.wf(),
{
    if !(lottery.lottery_id == *lottery_id) {
        return Err(LotteryError::InvalidLotteryId);
    }
    let winner_key = match lottery.winner {
        Some(w) => w,
        None => {
            return Err(LotteryError::NoWinnerSelected);
        },
    };
    if !(winner_key == player) {
        return Err(LotteryError::NotWinner);
    }
    if !matches!(lottery.status, LotteryStatus::WinnerSelected) {
        return Err(LotteryError::InvalidLotteryState);
    }
    let total_collected = lottery.total_prize;
    let prize_amount = match total_collected.checked_mul(85) {
        Some(x) => x / 100,
        None => {
            return Err(LotteryError::Overflow);
        },
    };
    let creator_share = match total_collected.checked_mul(5) {
        Some(x) => x / 100,
        None => {
            return Err(LotteryError::Overflow);
        },
    };
    let developer_share = match total_collected.checked_mul(10) {
        Some(x) => x / 100,
        None => {
            return Err(LotteryError::Overflow);
        },
    };
    proof {
        crate::laws::lemma_payout_split_bounded(total_collected);
    }
    let paid = prize_amount + creator_share + developer_share;
    lottery.pool = lottery.pool - paid;
    lottery.participants = Vec::new();
    lottery.total_tickets = 0;
    lottery.index = 0;
    lottery.winner = None;
    lottery.total_prize = 0;
    lottery.update_status(LotteryStatus::Completed);
    let payout = PrizePayout {
        winner: player,
        winner_amount: prize_amount,
        creator: lottery.creator,
        creator_amount: creator_share,
        developer_amount: developer_share,
    };
    proof {
        assert(lottery@ =~= spec_claim_prize(old(lottery)@, lottery_id@, player).0);
    }
    Ok(payout)
}

/// Close: the admin sweeps the whole remaining pool balance — fees and
/// truncation dust alike — and the record is deactivated.
pub open spec fn spec_close(v: LotteryView, caller: AccountKey) -> (
    LotteryView,
    Result<u64, LotteryError>,
) {
    if caller != v.admin {
        (v, Err(LotteryError::Unauthorized))
    } else {
        (
            (LotteryView {
                total_tickets: 0,
                participants: Seq::empty(),
                winner: None,
                index: 0,
                status: LotteryStatus::Completed,
                total_prize: 0,
                pool: 0,
                ..v
            }),
            Ok(v.pool),
        )
    }
}

/// Sweeps the remaining pool balance to the admin, whatever the round's
/// status, leaving zero in the raffle's custody; returns the swept amount
/// for the host to transfer.
pub fn close(lottery: &mut LotteryState, caller: AccountKey) -> (r: Result<u64, LotteryError>)
    requires
        old(lottery)@.wf(),
    ensures
        (final(lottery)@, r) == spec_close(old(lottery)@, caller),
        final(lottery)@.wf(),
{
    if !(caller == lottery.admin) {
        return Err(LotteryError::Unauthorized);
    }
    let swept = lottery.pool;
    lottery.pool = 0;
    lottery.participants = Vec::new();
    lottery.total_tickets = 0;
    lottery.index = 0;
    lottery.winner = None;
    lottery.total_prize = 0;
    lottery.update_status(LotteryStatus::Completed);
    proof {
        assert(lottery@ =~= spec_close(old(lottery)@, caller).0);
    }
    Ok(swept)
}

} // verus!

use vstd::prelude::*;

use crate::errors::LotteryError;
use crate::ops::{
    spec_buy_ticket, spec_claim_prize, spec_close, spec_select_error, spec_select_winner,
};
use crate::state::{AccountKey, LotteryView, MAX_PARTICIPANTS};

verus! {

/// The three truncated shares of a pool — 85%, 5% and 10% — never exceed
/// the pool; what truncation leaves behind stays behind as dust.
pub proof fn lemma_payout_split_bounded(p: u64)
    ensures
        p * 85 / 100 + p * 5 / 100 + p * 10 / 100 <= p,
{
    let a = p * 85;
    let b = p * 5;
    let c = p * 10;
    vstd::arithmetic::div_mod::lemma_fundamental_div_mod(a, 100);
    vstd::arithmetic::div_mod::lemma_fundamental_div_mod(b, 100);
    vstd::arithmetic::div_mod::lemma_fundamental_div_mod(c, 100);
    vstd::arithmetic::div_mod::lemma_mod_bound(a, 100);
    vstd::arithmetic::div_mod::lemma_mod_bound(b, 100);
    vstd::arithmetic::div_mod::lemma_mod_bound(c, 100);
}

/// Each successful ticket sale grows the ticket count and the participant
/// list together, keeps them below the cap, and grows the pool by exactly
/// the entry fee; so, along any run of successful sales from a well-formed
/// record, `totalTickets == len(participants) <= MAX_PARTICIPANTS` and the
/// pool rises by the fee per sale.
pub proof fn lemma_sell_ticket_accounting(
    v: LotteryView,
    lottery_id: Seq<char>,
    player: AccountKey,
    now: i64,
)
    requires
        v.wf(),
        spec_buy_ticket(v, lottery_id, player, now).1 is Ok,
    ensures
        spec_buy_ticket(v, lottery_id, player, now).0.total_tickets == v.total_tickets + 1,
        spec_buy_ticket(v, lottery_id, player, now).0.participants.len() == spec_buy_ticket(
            v,
            lottery_id,
            player,
            now,
        ).0.total_tickets,
        spec_buy_ticket(v, lottery_id, player, now).0.total_tickets <= MAX_PARTICIPANTS,
        spec_buy_ticket(v, lottery_id, player, now).0.pool == v.pool + v.entry_fee,
        spec_buy_ticket(v, lottery_id, player, now).0.participants == v.participants.push(player),
{
}

/// A sale after the deadline, or once the cap is reached, or once a winner
/// is set, always fails and leaves the record exactly as it was.
pub proof fn lemma_sell_ticket_rejected(
    v: LotteryView,
    lottery_id: Seq<char>,
    player: AccountKey,
    now: i64,
)
    requires
        now > v.end_time || v.total_tickets >= MAX_PARTICIPANTS || v.winner is Some,
    ensures
        spec_buy_ticket(v, lottery_id, player, now).1 is Err,
        spec_buy_ticket(v, lottery_id, player, now).0 == v,
{
}

/// Winner selection is single-shot: once it has succeeded, any further
/// selection — whatever its id, randomness or time — fails with
/// WinnerAlreadySelected and changes nothing, so the winner never changes.
pub proof fn lemma_select_winner_single_shot(
    v: LotteryView,
    lottery_id: Seq<char>,
    randomness_key: AccountKey,
    random_byte: u8,
    now: i64,
    lottery_id2: Seq<char>,
    randomness_key2: AccountKey,
    random_byte2: u8,
    now2: i64,
)
    requires
        spec_select_winner(v, lottery_id, randomness_key, random_byte, now).1 is Ok,
    ensures
        ({
            let after = spec_select_winner(v, lottery_id, randomness_key, random_byte, now).0;
            spec_select_winner(after, lottery_id2, randomness_key2, random_byte2, now2) == (
                after,
                Err::<(), LotteryError>(LotteryError::WinnerAlreadySelected),
            )
        }),
{
}

/// The selected index is always a residue below the ticket count, and the
/// chosen winner holds one of the round's tickets.
pub proof fn lemma_select_winner_in_range(
    v: LotteryView,
    lottery_id: Seq<char>,
    randomness_key: AccountKey,
    random_byte: u8,
    now: i64,
)
    requires
        v.wf(),
        spec_select_winner(v, lottery_id, randomness_key, random_byte, now).1 is Ok,
    ensures
        0 <= (random_byte as int) % (v.total_tickets as int) < v.total_tickets,
        ({
            let after = spec_select_winner(v, lottery_id, randomness_key, random_byte, now).0;
            after.winner matches Some(w) && v.participants.contains(w)
        }),
{
    assert(spec_select_error(v, lottery_id, now) is None);
    vstd::arithmetic::div_mod::lemma_mod_bound(random_byte as int, v.total_tickets as int);
    let idx = (random_byte as int) % (v.total_tickets as int);
    assert(v.participants.contains(v.participants[idx]));
}

/// A successful claim pays the winner, creator and operator exactly the
/// truncated 85%, 5% and 10% of the snapshotted prize, and the three
/// payments together never exceed the prize.
pub proof fn lemma_claim_prize_payout(v: LotteryView, lottery_id: Seq<char>, player: AccountKey)
    requires
        v.wf(),
        spec_claim_prize(v, lottery_id, player).1 is Ok,
    ensures
        ({
            let pay = spec_claim_prize(v, lottery_id, player).1->Ok_0;
            &&& pay.winner_amount == v.total_prize * 85 / 100
            &&& pay.creator_amount == v.total_prize * 5 / 100
            &&& pay.developer_amount == v.total_prize * 10 / 100
            &&& pay.winner_amount + pay.creator_amount + pay.developer_amount <= v.total_prize
            &&& pay.winner == player
            &&& pay.creator == v.creator
        }),
{
    lemma_payout_split_bounded(v.total_prize);
}

/// After a successful claim, the round is reset: no participants, no
/// tickets, no winner, no snapshotted prize.
pub proof fn lemma_claim_prize_resets(v: LotteryView, lottery_id: Seq<char>, player: AccountKey)
    requires
        spec_claim_prize(v, lottery_id, player).1 is Ok,
    ensures
        ({
            let after = spec_claim_prize(v, lottery_id, player).0;
            &&& after.participants == Seq::<AccountKey>::empty()
            &&& after.total_tickets == 0
            &&& after.winner is None
            &&& after.total_prize == 0
            &&& after.status == crate::state::LotteryStatus::Completed
        }),
{
}

/// Close hands the admin the full remaining pool balance and leaves zero
/// in the raffle's custody, whatever the round's status.
pub proof fn lemma_close_sweeps_all(v: LotteryView)
    ensures
        spec_close(v, v.admin).1 == Ok::<u64, LotteryError>(v.pool),
        spec_close(v, v.admin).0.pool == 0,
{
}

} // verus!

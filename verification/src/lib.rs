//! A single-purpose escrow-and-raffle state machine: participants pay a
//! fixed entry fee into a shared pool, a winner is chosen from an external
//! verifiable-random value after a deadline, and the pool is split between
//! the winner, the raffle's creator, and an operator.

mod errors;
mod laws;
mod ops;
mod randomness;
mod state;

pub use errors::{LotteryError, spec_message};
pub use laws::{
    lemma_claim_prize_payout, lemma_claim_prize_resets, lemma_close_sweeps_all,
    lemma_payout_split_bounded, lemma_select_winner_in_range, lemma_select_winner_single_shot,
    lemma_sell_ticket_accounting, lemma_sell_ticket_rejected,
};
pub use ops::{
    PrizePayout, buy_ticket, claim_prize, close, get_status, initialize, select_winner,
    select_winner_with_value, spec_buy_ticket, spec_claim_prize, spec_close, spec_get_status,
    spec_initialize, spec_select_error, spec_select_winner,
};
pub use randomness::{
    RANDOMNESS_DATA_LEN, RandomnessSnapshot, randomness_data_well_formed,
    randomness_discriminator, spec_random_value, spec_reveal_slot,
};
pub use state::{AccountKey, LotteryState, LotteryStatus, LotteryView, MAX_PARTICIPANTS, contains_key};

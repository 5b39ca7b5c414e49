use lottery::{
    AccountKey, LotteryError, LotteryState, LotteryStatus, MAX_PARTICIPANTS, buy_ticket,
    claim_prize, close, get_status, initialize, select_winner_with_value,
};

fn key(n: u64) -> AccountKey {
    AccountKey { hi: 0, lo: n as u128 }
}

fn admin() -> AccountKey {
    key(1)
}

fn creator() -> AccountKey {
    key(2)
}

fn oracle() -> AccountKey {
    key(3)
}

fn player(n: u64) -> AccountKey {
    key(100 + n)
}

fn fresh(entry_fee: u64, end_time: i64) -> LotteryState {
    initialize(String::from("raffle-1"), admin(), creator(), entry_fee, end_time, 0)
}

fn id() -> String {
    String::from("raffle-1")
}

#[test]
fn initialize_sets_fresh_record() {
    let l = fresh(100, 1_000);
    assert_eq!(l.lottery_id, String::from("raffle-1"));
    assert_eq!(l.admin, admin());
    assert_eq!(l.creator, creator());
    assert_eq!(l.entry_fee, 100);
    assert_eq!(l.end_time, 1_000);
    assert_eq!(l.total_tickets, 0);
    assert!(l.participants.is_empty());
    assert_eq!(l.winner, None);
    assert_eq!(l.randomness_account, None);
    assert_eq!(l.index, 0);
    assert_eq!(l.status, LotteryStatus::Active);
    assert_eq!(l.total_prize, 0);
    assert_eq!(l.pool, 0);
}

#[test]
fn status_defaults_to_active() {
    assert_eq!(LotteryStatus::default(), LotteryStatus::Active);
}

#[test]
fn each_sale_grows_count_list_and_pool_together() {
    let mut l = fresh(100, 1_000);
    for n in 0..10u64 {
        let pool_before = l.pool;
        let r = buy_ticket(&mut l, &id(), player(n), 10);
        assert_eq!(r, Ok(()));
        assert_eq!(l.total_tickets as usize, l.participants.len());
        assert_eq!(l.total_tickets, n as u32 + 1);
        assert_eq!(l.pool, pool_before + 100);
        assert!(l.total_tickets <= MAX_PARTICIPANTS);
        assert_eq!(l.participants[n as usize], player(n));
    }
}

#[test]
fn sale_with_wrong_id_is_rejected() {
    let mut l = fresh(100, 1_000);
    let r = buy_ticket(&mut l, &String::from("raffle-2"), player(0), 10);
    assert_eq!(r, Err(LotteryError::InvalidLotteryId));
    assert_eq!(l.total_tickets, 0);
    assert_eq!(l.pool, 0);
}

#[test]
fn creator_cannot_buy_a_ticket() {
    let mut l = fresh(100, 1_000);
    let r = buy_ticket(&mut l, &id(), creator(), 10);
    assert_eq!(r, Err(LotteryError::CreatorCannotParticipate));
    assert_eq!(l.total_tickets, 0);
    assert_eq!(l.pool, 0);
}

#[test]
fn sale_after_deadline_fails_and_changes_nothing() {
    let mut l = fresh(100, 1_000);
    buy_ticket(&mut l, &id(), player(0), 10).unwrap();
    let r = buy_ticket(&mut l, &id(), player(1), 1_001);
    assert_eq!(r, Err(LotteryError::InvalidLotteryState));
    assert_eq!(l.total_tickets, 1);
    assert_eq!(l.participants.len(), 1);
    assert_eq!(l.pool, 100);
    assert_eq!(l.status, LotteryStatus::Active);
}

#[test]
fn sale_once_full_fails_and_changes_nothing() {
    let mut l = fresh(7, 1_000);
    for n in 0..MAX_PARTICIPANTS as u64 {
        buy_ticket(&mut l, &id(), player(n), 10).unwrap();
    }
    let r = buy_ticket(&mut l, &id(), player(777), 10);
    assert_eq!(r, Err(LotteryError::MaxParticipantsReached));
    assert_eq!(l.total_tickets, MAX_PARTICIPANTS);
    assert_eq!(l.participants.len(), MAX_PARTICIPANTS as usize);
    assert_eq!(l.pool, 7 * MAX_PARTICIPANTS as u64);
}

#[test]
fn sale_after_winner_selected_fails_and_changes_nothing() {
    let mut l = fresh(100, 1_000);
    buy_ticket(&mut l, &id(), player(0), 10).unwrap();
    select_winner_with_value(&mut l, &id(), oracle(), 0, 2_000).unwrap();
    let r = buy_ticket(&mut l, &id(), player(1), 2_000);
    assert_eq!(r, Err(LotteryError::InvalidLotteryState));
    assert_eq!(l.total_tickets, 1);
    assert_eq!(l.winner, Some(player(0)));
    assert_eq!(l.pool, 100);
}

#[test]
fn sale_overflowing_the_pool_fails_and_changes_nothing() {
    let fee = u64::MAX / 2 + 1;
    let mut l = fresh(fee, 1_000);
    buy_ticket(&mut l, &id(), player(0), 10).unwrap();
    let r = buy_ticket(&mut l, &id(), player(1), 10);
    assert_eq!(r, Err(LotteryError::Overflow));
    assert_eq!(l.total_tickets, 1);
    assert_eq!(l.pool, fee);
}

#[test]
fn get_status_checks_the_id() {
    let mut l = fresh(100, 1_000);
    let r = get_status(&mut l, &String::from("raffle-2"), 10);
    assert_eq!(r, Err(LotteryError::InvalidLotteryId));
    assert_eq!(l.status, LotteryStatus::Active);
}

#[test]
fn get_status_commits_the_lazy_expiry() {
    let mut l = fresh(100, 1_000);
    assert_eq!(get_status(&mut l, &id(), 999), Ok(LotteryStatus::Active));
    assert_eq!(l.status, LotteryStatus::Active);
    assert_eq!(get_status(&mut l, &id(), 1_001), Ok(LotteryStatus::EndedWaitingForWinner));
    assert_eq!(l.status, LotteryStatus::EndedWaitingForWinner);
}

#[test]
fn claim_pays_the_production_split_without_dust() {
    let mut l = fresh(100, 1_000);
    for n in 0..10u64 {
        buy_ticket(&mut l, &id(), player(n), 10).unwrap();
    }
    assert_eq!(l.pool, 1_000);
    select_winner_with_value(&mut l, &id(), oracle(), 3, 2_000).unwrap();
    assert_eq!(l.total_prize, 1_000);
    let winner = l.winner.unwrap();
    let pay = claim_prize(&mut l, &id(), winner).unwrap();
    assert_eq!(pay.winner, winner);
    assert_eq!(pay.winner_amount, 850);
    assert_eq!(pay.creator, creator());
    assert_eq!(pay.creator_amount, 50);
    assert_eq!(pay.developer_amount, 100);
    assert_eq!(l.pool, 0);
}

#[test]
fn claim_truncates_each_share_and_leaves_dust() {
    let mut l = fresh(3, 1_000);
    for n in 0..10u64 {
        buy_ticket(&mut l, &id(), player(n), 10).unwrap();
    }
    assert_eq!(l.pool, 30);
    select_winner_with_value(&mut l, &id(), oracle(), 0, 2_000).unwrap();
    assert_eq!(l.total_prize, 30);
    let winner = l.winner.unwrap();
    let pay = claim_prize(&mut l, &id(), winner).unwrap();
    assert_eq!(pay.winner_amount, 25);
    assert_eq!(pay.creator_amount, 1);
    assert_eq!(pay.developer_amount, 3);
    assert!(pay.winner_amount + pay.creator_amount + pay.developer_amount <= 30);
    assert_eq!(l.pool, 1);
    let swept = close(&mut l, admin()).unwrap();
    assert_eq!(swept, 1);
    assert_eq!(l.pool, 0);
}

#[test]
fn claim_resets_the_round() {
    let mut l = fresh(100, 1_000);
    buy_ticket(&mut l, &id(), player(0), 10).unwrap();
    buy_ticket(&mut l, &id(), player(1), 10).unwrap();
    select_winner_with_value(&mut l, &id(), oracle(), 1, 2_000).unwrap();
    let winner = l.winner.unwrap();
    claim_prize(&mut l, &id(), winner).unwrap();
    assert!(l.participants.is_empty());
    assert_eq!(l.total_tickets, 0);
    assert_eq!(l.index, 0);
    assert_eq!(l.winner, None);
    assert_eq!(l.total_prize, 0);
    assert_eq!(l.status, LotteryStatus::Completed);
}

#[test]
fn claim_by_non_winner_is_rejected() {
    let mut l = fresh(100, 1_000);
    buy_ticket(&mut l, &id(), player(0), 10).unwrap();
    select_winner_with_value(&mut l, &id(), oracle(), 0, 2_000).unwrap();
    let r = claim_prize(&mut l, &id(), player(42));
    assert_eq!(r, Err(LotteryError::NotWinner));
    assert_eq!(l.winner, Some(player(0)));
    assert_eq!(l.pool, 100);
}

#[test]
fn claim_before_selection_is_rejected() {
    let mut l = fresh(100, 1_000);
    buy_ticket(&mut l, &id(), player(0), 10).unwrap();
    let r = claim_prize(&mut l, &id(), player(0));
    assert_eq!(r, Err(LotteryError::NoWinnerSelected));
    assert_eq!(l.pool, 100);
}

#[test]
fn claim_with_wrong_id_is_rejected() {
    let mut l = fresh(100, 1_000);
    buy_ticket(&mut l, &id(), player(0), 10).unwrap();
    select_winner_with_value(&mut l, &id(), oracle(), 0, 2_000).unwrap();
    let r = claim_prize(&mut l, &String::from("raffle-2"), player(0));
    assert_eq!(r, Err(LotteryError::InvalidLotteryId));
    assert_eq!(l.winner, Some(player(0)));
}

#[test]
fn claim_overflowing_prize_math_is_rejected() {
    let fee = u64::MAX / 85;
    let mut l = fresh(fee, 1_000);
    for n in 0..3u64 {
        buy_ticket(&mut l, &id(), player(n), 10).unwrap();
    }
    select_winner_with_value(&mut l, &id(), oracle(), 0, 2_000).unwrap();
    assert_eq!(l.total_prize, fee * 3);
    let winner = l.winner.unwrap();
    let r = claim_prize(&mut l, &id(), winner);
    assert_eq!(r, Err(LotteryError::Overflow));
    assert_eq!(l.status, LotteryStatus::WinnerSelected);
    assert_eq!(l.pool, fee * 3);
}

#[test]
fn close_sweeps_the_full_balance_to_the_admin() {
    let mut l = fresh(100, 1_000);
    for n in 0..5u64 {
        buy_ticket(&mut l, &id(), player(n), 10).unwrap();
    }
    let swept = close(&mut l, admin()).unwrap();
    assert_eq!(swept, 500);
    assert_eq!(l.pool, 0);
    assert_eq!(l.total_tickets, 0);
    assert!(l.participants.is_empty());
    assert_eq!(l.status, LotteryStatus::Completed);
}

#[test]
fn close_by_non_admin_is_rejected() {
    let mut l = fresh(100, 1_000);
    buy_ticket(&mut l, &id(), player(0), 10).unwrap();
    let r = close(&mut l, player(0));
    assert_eq!(r, Err(LotteryError::Unauthorized));
    assert_eq!(l.pool, 100);
    assert_eq!(l.total_tickets, 1);
}

#[test]
fn close_works_whatever_the_round_status() {
    let mut l = fresh(100, 1_000);
    buy_ticket(&mut l, &id(), player(0), 10).unwrap();
    select_winner_with_value(&mut l, &id(), oracle(), 0, 2_000).unwrap();
    let swept = close(&mut l, admin()).unwrap();
    assert_eq!(swept, 100);
    assert_eq!(l.pool, 0);
}

#[test]
fn update_status_overwrites_only_the_status() {
    let mut l = fresh(100, 1_000);
    buy_ticket(&mut l, &id(), player(0), 10).unwrap();
    l.update_status(LotteryStatus::Completed);
    assert_eq!(l.status, LotteryStatus::Completed);
    assert_eq!(l.total_tickets, 1);
    assert_eq!(l.pool, 100);
}

#[test]
fn set_winner_requires_a_ticket_holder() {
    let mut l = fresh(100, 1_000);
    buy_ticket(&mut l, &id(), player(0), 10).unwrap();
    assert_eq!(l.set_winner(player(42)), Err(LotteryError::InvalidWinnerIndex));
    assert_eq!(l.winner, None);
    assert_eq!(l.set_winner(player(0)), Ok(()));
    assert_eq!(l.winner, Some(player(0)));
    assert_eq!(l.set_winner(player(0)), Err(LotteryError::WinnerAlreadySelected));
}

#[test]
fn error_messages_match_the_failure() {
    assert_eq!(LotteryError::NotWinner.message(), "You are not the winner.");
    assert_eq!(
        LotteryError::CreatorCannotParticipate.message(),
        "Lottery creator cannot participate in their own lottery"
    );
    assert_eq!(LotteryError::Overflow.message(), "Arithmetic overflow occurred.");
}

use perp_ledger::errors::Error;
use perp_ledger::ledger::{PerpetualTradingContract, PositionStatus, MIN_MARGIN};
use perp_ledger::pnl::Side;

const ADMIN: u64 = 1;
const ORACLE: u64 = 2;
const ALICE: u64 = 7;
const BOB: u64 = 8;

fn fresh() -> PerpetualTradingContract {
    let mut c = PerpetualTradingContract::new();
    c.initialize(ADMIN, ORACLE);
    c
}

fn mock() -> Option<i128> {
    Some(PerpetualTradingContract::get_mock_price())
}

#[test]
fn mock_price_is_one_unit() {
    assert_eq!(PerpetualTradingContract::get_mock_price(), 10_000_000);
}

#[test]
fn open_first_position() {
    let mut c = fresh();
    let id = c.open_position(ALICE, 10_000_000, 5, true, mock(), 100);
    assert_eq!(id, Ok(1));
    let p = c.get_position(1).unwrap();
    assert_eq!(p.id, 1);
    assert_eq!(p.trader, ALICE);
    assert_eq!(p.margin, 10_000_000);
    assert_eq!(p.leverage, 5);
    assert_eq!(p.size, 50_000_000);
    assert_eq!(p.side, Side::Long);
    assert_eq!(p.entry_price, 10_000_000);
    assert_eq!(p.open_time, 100);
    assert_eq!(p.status, PositionStatus::Open);
    assert_eq!(c.get_contract_balance(), 10_000_000);
    assert_eq!(c.get_contract_stats(), (10_000_000, 2, true));
}

#[test]
fn close_at_unchanged_price() {
    let mut c = fresh();
    c.open_position(ALICE, 10_000_000, 5, true, mock(), 100).unwrap();
    let pnl = c.close_position(ALICE, 1, mock(), 200);
    assert_eq!(pnl, Ok(0));
    // payout == margin, so the whole posted margin leaves custody
    assert_eq!(c.get_contract_balance(), 0);
    let p = c.get_position(1).unwrap();
    assert_eq!(p.status, PositionStatus::Closed);
    assert_eq!(p.close_price, 10_000_000);
    assert_eq!(p.close_time, 200);
    assert_eq!(p.realized_pnl, 0);
}

#[test]
fn open_rejects_leverage_out_of_range() {
    let mut c = fresh();
    let before = c.get_contract_stats();
    for leverage in [0u32, 11, 100] {
        let r = c.open_position(ALICE, 10_000_000, leverage, true, mock(), 100);
        assert_eq!(r, Err(Error::InvalidInput));
    }
    assert_eq!(c.get_contract_stats(), before);
    assert!(c.get_position(1).is_none());
    assert_eq!(c.get_trader_positions(ALICE), Vec::<u64>::new());
}

#[test]
fn open_rejects_margin_below_minimum() {
    let mut c = fresh();
    let r = c.open_position(ALICE, MIN_MARGIN - 1, 2, true, mock(), 100);
    assert_eq!(r, Err(Error::InvalidInput));
    assert_eq!(c.get_contract_stats(), (0, 1, true));
}

#[test]
fn open_rejects_missing_or_bad_price() {
    let mut c = fresh();
    assert_eq!(
        c.open_position(ALICE, 10_000_000, 2, true, None, 100),
        Err(Error::OracleUnavailable)
    );
    assert_eq!(
        c.open_position(ALICE, 10_000_000, 2, true, Some(0), 100),
        Err(Error::InvalidInput)
    );
    assert_eq!(
        c.open_position(ALICE, 10_000_000, 2, true, Some(-1), 100),
        Err(Error::InvalidInput)
    );
    assert_eq!(c.get_contract_balance(), 0);
}

#[test]
fn operations_before_initialize_are_rejected() {
    let mut c = PerpetualTradingContract::new();
    assert_eq!(
        c.open_position(ALICE, 10_000_000, 2, true, mock(), 100),
        Err(Error::Uninitialized)
    );
    assert_eq!(c.close_position(ALICE, 1, mock(), 100), Err(Error::Uninitialized));
    assert_eq!(c.withdraw_contract_balance(ADMIN, 1), Err(Error::Uninitialized));
    assert_eq!(c.pause_contract(ADMIN), Err(Error::Uninitialized));
    assert_eq!(c.resume_contract(ADMIN), Err(Error::Uninitialized));
}

#[test]
fn pause_gates_trading() {
    let mut c = fresh();
    c.open_position(ALICE, 10_000_000, 2, true, mock(), 100).unwrap();
    assert_eq!(c.pause_contract(BOB), Err(Error::Unauthorized));
    assert_eq!(c.pause_contract(ADMIN), Ok(()));
    assert_eq!(c.get_contract_stats().2, false);
    assert_eq!(
        c.open_position(ALICE, 10_000_000, 2, true, mock(), 110),
        Err(Error::Paused)
    );
    assert_eq!(c.close_position(ALICE, 1, mock(), 110), Err(Error::Paused));
    assert_eq!(c.resume_contract(BOB), Err(Error::Unauthorized));
    // a pause gates trading only; the admin can still withdraw
    assert_eq!(c.withdraw_contract_balance(ADMIN, 1_000_000), Ok(true));
    assert_eq!(c.resume_contract(ADMIN), Ok(()));
    assert_eq!(c.open_position(ALICE, 10_000_000, 2, true, mock(), 120), Ok(2));
}

#[test]
fn close_unknown_id_is_not_found() {
    let mut c = fresh();
    assert_eq!(c.close_position(ALICE, 0, mock(), 100), Err(Error::NotFound));
    assert_eq!(c.close_position(ALICE, 1, mock(), 100), Err(Error::NotFound));
    c.open_position(ALICE, 10_000_000, 2, true, mock(), 100).unwrap();
    assert_eq!(c.close_position(ALICE, 2, mock(), 100), Err(Error::NotFound));
}

#[test]
fn close_twice_is_already_closed() {
    let mut c = fresh();
    c.open_position(ALICE, 10_000_000, 2, true, mock(), 100).unwrap();
    c.close_position(ALICE, 1, mock(), 200).unwrap();
    assert_eq!(c.close_position(ALICE, 1, mock(), 300), Err(Error::AlreadyClosed));
    // even for the owner asking with a different identity, closed comes first
    assert_eq!(c.close_position(BOB, 1, mock(), 300), Err(Error::AlreadyClosed));
}

#[test]
fn close_by_stranger_is_unauthorized() {
    let mut c = fresh();
    c.open_position(ALICE, 10_000_000, 2, true, mock(), 100).unwrap();
    assert_eq!(c.close_position(BOB, 1, mock(), 200), Err(Error::Unauthorized));
    let p = c.get_position(1).unwrap();
    assert_eq!(p.status, PositionStatus::Open);
}

#[test]
fn close_rejects_missing_or_bad_price() {
    let mut c = fresh();
    c.open_position(ALICE, 10_000_000, 2, true, mock(), 100).unwrap();
    assert_eq!(c.close_position(ALICE, 1, None, 200), Err(Error::OracleUnavailable));
    assert_eq!(c.close_position(ALICE, 1, Some(0), 200), Err(Error::InvalidInput));
    assert_eq!(c.get_position(1).unwrap().status, PositionStatus::Open);
}

#[test]
fn payout_floored_at_margin_on_deep_loss() {
    let mut c = fresh();
    c.open_position(ALICE, 10_000_000, 5, true, mock(), 100).unwrap();
    // pnl = (5M - 10M) * 50M / 10M = -25M; margin + pnl <= 0, so the
    // payout is exactly the margin while the reported pnl stays negative
    let pnl = c.close_position(ALICE, 1, Some(5_000_000), 200);
    assert_eq!(pnl, Ok(-25_000_000));
    assert_eq!(c.get_contract_balance(), 0);
    assert_eq!(c.get_position(1).unwrap().realized_pnl, -25_000_000);
}

#[test]
fn payout_floored_when_loss_exactly_cancels_margin() {
    let mut c = fresh();
    c.open_position(ALICE, 10_000_000, 2, true, mock(), 100).unwrap();
    // pnl = (5M - 10M) * 20M / 10M = -10M; margin + pnl == 0, on the floor
    let pnl = c.close_position(ALICE, 1, Some(5_000_000), 200);
    assert_eq!(pnl, Ok(-10_000_000));
    assert_eq!(c.get_contract_balance(), 0);
}

#[test]
fn partial_loss_pays_margin_plus_pnl() {
    let mut c = fresh();
    c.open_position(ALICE, 10_000_000, 5, true, mock(), 100).unwrap();
    // pnl = (9M - 10M) * 50M / 10M = -5M; payout = 5M
    let pnl = c.close_position(ALICE, 1, Some(9_000_000), 200);
    assert_eq!(pnl, Ok(-5_000_000));
    assert_eq!(c.get_contract_balance(), 5_000_000);
}

#[test]
fn profitable_close_pays_margin_plus_gain() {
    let mut c = fresh();
    c.open_position(ALICE, 10_000_000, 5, false, mock(), 100).unwrap();
    // short: pnl = (10M - 9M) * 50M / 10M = +5M; payout = 15M
    let pnl = c.close_position(ALICE, 1, Some(9_000_000), 200);
    assert_eq!(pnl, Ok(5_000_000));
    assert_eq!(c.get_contract_balance(), -5_000_000);
}

#[test]
fn withdrawal_rules() {
    let mut c = fresh();
    c.open_position(ALICE, 10_000_000, 2, true, mock(), 100).unwrap();
    assert_eq!(c.get_contract_balance(), 10_000_000);
    assert_eq!(
        c.withdraw_contract_balance(ADMIN, 10_000_001),
        Err(Error::InsufficientBalance)
    );
    assert_eq!(c.get_contract_balance(), 10_000_000);
    assert_eq!(c.withdraw_contract_balance(BOB, 1), Err(Error::Unauthorized));
    assert_eq!(c.withdraw_contract_balance(ADMIN, -1), Err(Error::InvalidInput));
    assert_eq!(c.withdraw_contract_balance(ADMIN, 4_000_000), Ok(true));
    assert_eq!(c.get_contract_balance(), 6_000_000);
    assert_eq!(c.withdraw_contract_balance(ADMIN, 6_000_000), Ok(true));
    assert_eq!(c.get_contract_balance(), 0);
    assert_eq!(
        c.withdraw_contract_balance(ADMIN, 1),
        Err(Error::InsufficientBalance)
    );
}

#[test]
fn size_is_margin_times_leverage_for_every_stored_position() {
    let mut c = fresh();
    c.open_position(ALICE, 10_000_000, 1, true, mock(), 100).unwrap();
    c.open_position(ALICE, 25_000_000, 4, false, mock(), 101).unwrap();
    c.open_position(BOB, 12_345_678, 10, true, mock(), 102).unwrap();
    for id in 1..=3u64 {
        let p = c.get_position(id).unwrap();
        assert_eq!(p.size, p.margin * p.leverage as i128);
    }
}

#[test]
fn ids_are_monotonic_and_never_reused() {
    let mut c = fresh();
    assert_eq!(c.open_position(ALICE, 10_000_000, 2, true, mock(), 100), Ok(1));
    assert_eq!(c.open_position(BOB, 10_000_000, 2, false, mock(), 101), Ok(2));
    c.close_position(ALICE, 1, mock(), 150).unwrap();
    // a close never frees its id
    assert_eq!(c.open_position(ALICE, 10_000_000, 2, true, mock(), 200), Ok(3));
    assert_eq!(c.get_contract_stats().1, 4);
}

#[test]
fn trader_index_keeps_opening_order() {
    let mut c = fresh();
    c.open_position(ALICE, 10_000_000, 2, true, mock(), 100).unwrap();
    c.open_position(BOB, 10_000_000, 2, false, mock(), 101).unwrap();
    c.open_position(ALICE, 10_000_000, 3, true, mock(), 102).unwrap();
    assert_eq!(c.get_trader_positions(ALICE), vec![1, 3]);
    assert_eq!(c.get_trader_positions(BOB), vec![2]);
    assert_eq!(c.get_trader_positions(9), Vec::<u64>::new());
    // closing does not shrink the index
    c.close_position(ALICE, 1, mock(), 150).unwrap();
    assert_eq!(c.get_trader_positions(ALICE), vec![1, 3]);
}

#[test]
fn current_position_is_the_latest() {
    let mut c = fresh();
    assert!(c.get_current_position().is_none());
    c.open_position(ALICE, 10_000_000, 2, true, mock(), 100).unwrap();
    c.open_position(BOB, 20_000_000, 3, false, mock(), 101).unwrap();
    let p = c.get_current_position().unwrap();
    assert_eq!(p.id, 2);
    assert_eq!(p.trader, BOB);
}

#[test]
fn get_position_out_of_range_is_none() {
    let mut c = fresh();
    assert!(c.get_position(0).is_none());
    assert!(c.get_position(1).is_none());
    c.open_position(ALICE, 10_000_000, 2, true, mock(), 100).unwrap();
    assert!(c.get_position(1).is_some());
    assert!(c.get_position(2).is_none());
}

#[test]
fn reinitialize_resets_the_ledger() {
    let mut c = fresh();
    c.open_position(ALICE, 10_000_000, 2, true, mock(), 100).unwrap();
    c.initialize(BOB, ORACLE);
    assert_eq!(c.get_contract_stats(), (0, 1, true));
    assert!(c.get_position(1).is_none());
    assert_eq!(c.get_trader_positions(ALICE), Vec::<u64>::new());
    // the new admin took over
    assert_eq!(c.pause_contract(ADMIN), Err(Error::Unauthorized));
    assert_eq!(c.pause_contract(BOB), Ok(()));
}

#[test]
fn side_fixed_opens() {
    let mut c = fresh();
    assert_eq!(c.open_long_position(ALICE, 10_000_000, 2, mock(), 100), Ok(1));
    assert_eq!(c.open_short_position(BOB, 10_000_000, 3, mock(), 101), Ok(2));
    assert_eq!(c.get_position(1).unwrap().side, Side::Long);
    assert_eq!(c.get_position(2).unwrap().side, Side::Short);
    assert_eq!(
        c.open_long_position(ALICE, 10_000_000, 11, mock(), 102),
        Err(Error::InvalidInput)
    );
    assert_eq!(
        c.open_short_position(BOB, 0, 2, mock(), 103),
        Err(Error::InvalidInput)
    );
}

#[test]
fn open_reports_size_overflow_as_invalid_input() {
    let mut c = fresh();
    let r = c.open_position(ALICE, i128::MAX / 2, 3, true, mock(), 100);
    assert_eq!(r, Err(Error::InvalidInput));
    assert_eq!(c.get_contract_stats(), (0, 1, true));
}

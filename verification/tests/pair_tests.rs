use dex::amount::Amount;
use dex::error::Error;
use dex::pair::{check_deadline, Event, Pair, SwapKind};
use dex::MINIMUM_LIQUIDITY;

const FACTORY: u64 = 100;
const ROUTER: u64 = 5;
const PAIR_ID: u64 = 99;
const TOKEN_A: u64 = 1;
const TOKEN_B: u64 = 2;
const FEE_OFF: u64 = 0;

fn fresh_pair() -> Pair {
    Pair::new((TOKEN_A, TOKEN_B), FACTORY, ROUTER).unwrap()
}

#[test]
fn new_pair_rejects_null_and_identical_tokens() {
    assert_eq!(
        Pair::new((0, TOKEN_B), FACTORY, ROUTER).unwrap_err(),
        Error::ZeroActorId
    );
    assert_eq!(
        Pair::new((TOKEN_A, 0), FACTORY, ROUTER).unwrap_err(),
        Error::ZeroActorId
    );
    assert_eq!(
        Pair::new((TOKEN_A, TOKEN_A), FACTORY, ROUTER).unwrap_err(),
        Error::IdenticalTokens
    );
}

#[test]
fn first_deposit_mints_root_minus_locked() {
    // Empty pool, deposit (1000, 4000): sqrt(4_000_000) = 2000 shares,
    // MINIMUM_LIQUIDITY of them locked to the pair's own entry.
    let mut p = fresh_pair();
    let ev = p
        .add_liquidity(ROUTER, PAIR_ID, (1000, 4000), (0, 0), 7, FEE_OFF, 0)
        .unwrap();
    match ev {
        Event::AddedLiquidity { sender, amount_a, amount_b, liquidity } => {
            assert_eq!(sender, 7);
            assert_eq!(amount_a, 1000);
            assert_eq!(amount_b, 4000);
            assert_eq!(liquidity, Amount::from_u128(2000 - MINIMUM_LIQUIDITY));
        },
        _ => panic!("wrong event"),
    }
    assert_eq!(p.reserve, (1000, 4000));
    assert_eq!(p.balance_of(PAIR_ID), Event::Balance(MINIMUM_LIQUIDITY));
    assert_eq!(p.balance_of(7), Event::Balance(2000 - MINIMUM_LIQUIDITY));
    assert_eq!(p.ft_state.supply(), Amount::from_u128(2000));
}

#[test]
fn first_deposit_too_small_is_rejected() {
    let mut p = fresh_pair();
    // sqrt(100 * 100) = 100 < MINIMUM_LIQUIDITY
    assert_eq!(
        p.add_liquidity(ROUTER, PAIR_ID, (100, 100), (0, 0), 7, FEE_OFF, 0)
            .unwrap_err(),
        Error::InsufficientAmount
    );
    assert_eq!(p.reserve, (0, 0));
}

#[test]
fn only_the_router_may_deposit() {
    let mut p = fresh_pair();
    assert_eq!(
        p.add_liquidity(6, PAIR_ID, (1000, 4000), (0, 0), 7, FEE_OFF, 0)
            .unwrap_err(),
        Error::InvalidRouter
    );
}

#[test]
fn subsequent_deposit_matches_the_pool_ratio() {
    let mut p = fresh_pair();
    p.add_liquidity(ROUTER, PAIR_ID, (1000, 4000), (0, 0), 7, FEE_OFF, 0)
        .unwrap();
    // Desired (500, 3000): optimal second amount = 500 * 4000 / 1000 = 2000.
    // Minted: min(500 * 2000 / 1000, 2000 * 2000 / 4000) = 1000.
    let ev = p
        .add_liquidity(ROUTER, PAIR_ID, (500, 3000), (0, 0), 8, FEE_OFF, 0)
        .unwrap();
    match ev {
        Event::AddedLiquidity { amount_a, amount_b, liquidity, .. } => {
            assert_eq!(amount_a, 500);
            assert_eq!(amount_b, 2000);
            assert_eq!(liquidity, Amount::from_u128(1000));
        },
        _ => panic!("wrong event"),
    }
    assert_eq!(p.reserve, (1500, 6000));
    assert_eq!(p.ft_state.supply(), Amount::from_u128(3000));
}

#[test]
fn subsequent_deposit_enforces_minimums() {
    let mut p = fresh_pair();
    p.add_liquidity(ROUTER, PAIR_ID, (1000, 4000), (0, 0), 7, FEE_OFF, 0)
        .unwrap();
    // optimal second amount 2000 < minimum 2001
    assert_eq!(
        p.add_liquidity(ROUTER, PAIR_ID, (500, 3000), (0, 2001), 8, FEE_OFF, 0)
            .unwrap_err(),
        Error::InsufficientLatterAmount
    );
    // optimal first amount 250 < minimum 251 (quote of 1000 on the B side)
    assert_eq!(
        p.add_liquidity(ROUTER, PAIR_ID, (500, 1000), (251, 0), 8, FEE_OFF, 0)
            .unwrap_err(),
        Error::InsufficientFormerAmount
    );
}

#[test]
fn protocol_fee_takes_a_sixth_of_root_growth() {
    let mut p = fresh_pair();
    p.reserve = (4000, 4000);
    p.k_last = Amount::from_u128(1_000_000);
    p.ft_state.total_supply = Amount::from_u128(6000);
    // root_k = 4000, root_k_last = 1000:
    // fee = 6000 * 3000 / (5 * 4000 + 1000) = 857
    let (on, recv, fee) = p.calculate_fee(9).unwrap();
    assert!(on);
    assert_eq!(recv, 9);
    assert_eq!(fee, Amount::from_u128(857));
    // Fee disabled when the receiver is the null address.
    let (off, _, fee0) = p.calculate_fee(FEE_OFF).unwrap();
    assert!(!off);
    assert_eq!(fee0, Amount::zero());
}

#[test]
fn first_deposit_records_k_last_when_fee_is_on() {
    let mut p = fresh_pair();
    p.add_liquidity(ROUTER, PAIR_ID, (1000, 4000), (0, 0), 7, 9, 0)
        .unwrap();
    assert_eq!(p.k_last, Amount::from_u128(4_000_000));
}

#[test]
fn removal_pays_out_the_reserve_share() {
    let mut p = fresh_pair();
    p.add_liquidity(ROUTER, PAIR_ID, (1000, 4000), (0, 0), ROUTER, FEE_OFF, 0)
        .unwrap();
    // The router holds 1000 shares of a supply of 2000.
    let plan = p
        .remove_liquidity_plan(ROUTER, Amount::from_u128(500), (0, 0), FEE_OFF)
        .unwrap();
    assert_eq!(plan.amount, (250, 1000));
    let ev = p.remove_liquidity_apply(ROUTER, 7, plan, 0).unwrap();
    assert_eq!(
        ev,
        Event::RemovedLiquidity { sender: ROUTER, amount_a: 250, amount_b: 1000, to: 7 }
    );
    assert_eq!(p.reserve, (750, 3000));
    assert_eq!(p.ft_state.supply(), Amount::from_u128(1500));
    assert_eq!(p.balance_of(ROUTER), Event::Balance(500));
}

#[test]
fn removal_needs_enough_shares_and_minimums() {
    let mut p = fresh_pair();
    p.add_liquidity(ROUTER, PAIR_ID, (1000, 4000), (0, 0), ROUTER, FEE_OFF, 0)
        .unwrap();
    assert_eq!(
        p.remove_liquidity_plan(ROUTER, Amount::from_u128(1001), (0, 0), FEE_OFF)
            .unwrap_err(),
        Error::InsufficientLiquidity
    );
    assert_eq!(
        p.remove_liquidity_plan(ROUTER, Amount::from_u128(500), (251, 0), FEE_OFF)
            .unwrap_err(),
        Error::InsufficientFormerAmount
    );
    assert_eq!(
        p.remove_liquidity_plan(ROUTER, Amount::from_u128(500), (0, 1001), FEE_OFF)
            .unwrap_err(),
        Error::InsufficientLatterAmount
    );
    assert_eq!(
        p.remove_liquidity_plan(ROUTER, Amount::from_u128(1), (0, 0), FEE_OFF)
            .unwrap_err(),
        Error::InsufficientLiquidity
    );
}

#[test]
fn swap_updates_reserves_by_direction() {
    let mut p = fresh_pair();
    p.add_liquidity(ROUTER, PAIR_ID, (2000, 2000), (0, 0), 7, FEE_OFF, 0)
        .unwrap();
    let (in_token, out_token) = p.swap_prepare(ROUTER, SwapKind::AForB).unwrap();
    assert_eq!((in_token, out_token), (TOKEN_A, TOKEN_B));
    let ev = p.swap_commit(ROUTER, SwapKind::AForB, (100, 90), 7, 0).unwrap();
    assert_eq!(
        ev,
        Event::Swap { sender: ROUTER, in_amount: 100, out_amount: 90, to: 7, kind: SwapKind::AForB }
    );
    assert_eq!(p.reserve, (2100, 1910));
    // And back in the other direction.
    let ev2 = p.swap_commit(ROUTER, SwapKind::BForA, (50, 40), 7, 0).unwrap();
    assert_eq!(
        ev2,
        Event::Swap { sender: ROUTER, in_amount: 50, out_amount: 40, to: 7, kind: SwapKind::BForA }
    );
    assert_eq!(p.reserve, (2060, 1960));
}

#[test]
fn swap_requires_the_router_and_fitting_amounts() {
    let mut p = fresh_pair();
    p.add_liquidity(ROUTER, PAIR_ID, (2000, 2000), (0, 0), 7, FEE_OFF, 0)
        .unwrap();
    assert_eq!(p.swap_prepare(6, SwapKind::AForB).unwrap_err(), Error::InvalidRouter);
    assert_eq!(
        p.swap_commit(6, SwapKind::AForB, (100, 90), 7, 0).unwrap_err(),
        Error::InvalidRouter
    );
    assert_eq!(
        p.swap_commit(ROUTER, SwapKind::AForB, (100, 2001), 7, 0).unwrap_err(),
        Error::Overflow
    );
}

#[test]
fn price_accumulators_advance_by_prior_price_times_elapsed_time() {
    let mut p = fresh_pair();
    p.add_liquidity(ROUTER, PAIR_ID, (1000, 4000), (0, 0), 7, FEE_OFF, 0)
        .unwrap();
    // Ten time units at price 4000/1000: the first accumulator gains
    // (4000 << 128 / 1000) * 10 = 40 << 128; the second gains
    // (1000 << 128 / 4000) * 10 = 10 << 126.
    let ev = p.sync_apply((1000, 4000), 10);
    assert_eq!(ev, Event::Sync { reserve_a: 1000, reserve_b: 4000 });
    assert_eq!(p.cumulative_price.0, Amount { lo: 0, hi: 40 });
    assert_eq!(p.cumulative_price.1, Amount { lo: 1 << 127, hi: 2 });
    assert_eq!(p.last_block_ts, 10);
    // No time elapsed: the accumulators stand still.
    let before = p.cumulative_price;
    p.sync_apply((1000, 4000), 10);
    assert_eq!(p.cumulative_price, before);
}

#[test]
fn skim_reports_the_excess_over_reserves() {
    let mut p = fresh_pair();
    p.add_liquidity(ROUTER, PAIR_ID, (1000, 4000), (0, 0), 7, FEE_OFF, 0)
        .unwrap();
    assert_eq!(p.skim_plan((1100, 4000)).unwrap(), (100, 0));
    assert_eq!(p.skim_plan((900, 4000)).unwrap_err(), Error::Overflow);
}

#[test]
fn reserve_queries_check_the_token_order() {
    let mut p = fresh_pair();
    p.add_liquidity(ROUTER, PAIR_ID, (1000, 4000), (0, 0), 7, FEE_OFF, 0)
        .unwrap();
    assert_eq!(
        p.get_reserves(TOKEN_A, TOKEN_B).unwrap(),
        Event::GetReserves { reserve_a: 1000, reserve_b: 4000, block_timestamp_last: 0 }
    );
    assert_eq!(p.get_reserves(TOKEN_B, TOKEN_A).unwrap_err(), Error::InvalidTokens);
}

#[test]
fn share_transfers_move_balances_and_allowances() {
    let mut p = fresh_pair();
    p.add_liquidity(ROUTER, PAIR_ID, (1000, 4000), (0, 0), 7, FEE_OFF, 0)
        .unwrap();
    // 7 holds 1000 shares.
    let ev = p.transfer(7, 8, 400).unwrap();
    assert_eq!(ev, Event::Transfer { from: 7, to: 8, amount: Amount::from_u128(400) });
    assert_eq!(p.balance_of(7), Event::Balance(600));
    assert_eq!(p.balance_of(8), Event::Balance(400));
    assert_eq!(p.transfer(7, 8, 601).unwrap_err(), Error::InsufficientAmount);

    let ap = p.approve(8, ROUTER, 300).unwrap();
    assert_eq!(ap, Event::Approval { owner: 8, spender: ROUTER, amount: Amount::from_u128(300) });
    assert_eq!(
        p.transfer_from(ROUTER, 8, 9, 301).unwrap_err(),
        Error::InsufficientAllowance
    );
    p.transfer_from(ROUTER, 8, 9, 300).unwrap();
    assert_eq!(p.balance_of(8), Event::Balance(100));
    assert_eq!(p.balance_of(9), Event::Balance(300));
}

#[test]
fn recipient_must_not_be_a_pool_token() {
    let p = fresh_pair();
    assert_eq!(p.check_recipient(TOKEN_A).unwrap_err(), Error::InvalidRecipient);
    assert_eq!(p.check_recipient(TOKEN_B).unwrap_err(), Error::InvalidRecipient);
    assert!(p.check_recipient(7).is_ok());
}

#[test]
fn expired_deadlines_are_rejected() {
    assert_eq!(check_deadline(11, 10).unwrap_err(), Error::DeadlineExceeded);
    assert!(check_deadline(10, 10).is_ok());
}

#[test]
fn only_the_router_may_withdraw() {
    let mut p = fresh_pair();
    p.add_liquidity(ROUTER, PAIR_ID, (1000, 4000), (0, 0), ROUTER, FEE_OFF, 0)
        .unwrap();
    assert_eq!(
        p.remove_liquidity_plan(6, Amount::from_u128(500), (0, 0), FEE_OFF)
            .unwrap_err(),
        Error::InvalidRouter
    );
    let plan = p
        .remove_liquidity_plan(ROUTER, Amount::from_u128(500), (0, 0), FEE_OFF)
        .unwrap();
    assert_eq!(
        p.remove_liquidity_apply(6, 7, plan, 0).unwrap_err(),
        Error::InvalidRouter
    );
    // The failed attempts changed nothing; the router can still commit.
    assert!(p.remove_liquidity_apply(ROUTER, 7, plan, 0).is_ok());
}

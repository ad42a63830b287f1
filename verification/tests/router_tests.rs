use dex::amount::Amount;
use dex::error::Error as PairError;
use dex::router::{
    check_deadline, get_amounts_in, get_amounts_out, process_handle, sort_tokens, Action,
    AddLiquidityFlow, AddLiquidityVaraFlow, Command, Error, Event, RemoveLiquidityFlow, Reply,
    RouterConfig, SwapFlow, Workflow,
};

const CFG: RouterConfig = RouterConfig { factory: 100, wvara: 50, router_id: 77 };
const CALLER: u64 = 3;
const TO: u64 = 4;

#[test]
fn sorting_puts_the_larger_address_first() {
    assert_eq!(sort_tokens(1, 2), (2, 1));
    assert_eq!(sort_tokens(2, 1), (2, 1));
    assert_eq!(sort_tokens(9, 9), (9, 9));
}

#[test]
fn router_deadline_check() {
    assert_eq!(check_deadline(11, 10).unwrap_err(), Error::DeadlineExceeded);
    assert!(check_deadline(10, 10).is_ok());
    assert_eq!(CFG.factory(), 100);
    assert_eq!(CFG.wvara(), 50);
}

#[test]
fn amounts_out_walks_each_hop_on_its_own_reserves() {
    // Two hops with different reserves: the second hop must be quoted on
    // its own pool, not the first one's.
    let path = vec![8u64, 9, 11];
    let reserves = vec![(1000u128, 1000u128), (2000, 1000)];
    let amounts = get_amounts_out(100, &path, &reserves).unwrap();
    assert_eq!(amounts, vec![100, 90, 42]);
}

#[test]
fn amounts_out_rejects_short_paths_and_propagates_math_errors() {
    let short = vec![8u64];
    assert_eq!(
        get_amounts_out(100, &short, &vec![]).unwrap_err(),
        Error::InvalidPath
    );
    let path = vec![8u64, 9];
    let reserves = vec![(0u128, 1000u128)];
    assert_eq!(
        get_amounts_out(100, &path, &reserves).unwrap_err(),
        Error::LPPairError(PairError::InsufficientLiquidity)
    );
}

#[test]
fn amounts_in_walks_backwards() {
    let path = vec![8u64, 9, 11];
    let reserves = vec![(1000u128, 1000u128), (2000, 1000)];
    let amounts = get_amounts_in(42, &path, &reserves).unwrap();
    assert_eq!(amounts, vec![97, 88, 42]);
    let short = vec![8u64];
    assert_eq!(get_amounts_in(42, &short, &vec![]).unwrap_err(), Error::InvalidPath);
}

#[test]
fn add_liquidity_flow_orders_amounts_canonically() {
    // sort_tokens(8, 9) = (9, 8): the given order is not canonical, so
    // the amounts are swapped for the pair.
    let (flow, cmd) = AddLiquidityFlow::start(CFG, CALLER, 8, 9, 500, 2000, 1, 2, TO, 1000);
    assert_eq!(cmd, Command::FactoryGetPair { token_a: 8, token_b: 9 });
    let (flow, cmd) = flow.step(Reply::PairFound(200));
    assert_eq!(
        cmd,
        Command::PairAddLiquidity {
            pair: 200,
            amount_a_desired: 2000,
            amount_b_desired: 500,
            amount_a_min: 2,
            amount_b_min: 1,
            to: TO,
            deadline: 1000,
        }
    );
    let (flow, cmd) = flow.step(
        Reply::LiquidityAdded { amount_a: 2000, amount_b: 500, liquidity: Amount::from_u128(900) },
    );
    assert_eq!(
        cmd,
        Command::TokenTransfer { token: 9, from: CALLER, to: 200, amount: 2000 }
    );
    let (flow, cmd) = flow.step(Reply::TransferOk);
    assert_eq!(
        cmd,
        Command::TokenTransfer { token: 8, from: CALLER, to: 200, amount: 500 }
    );
    let (_, cmd) = flow.step(Reply::TransferOk);
    assert_eq!(
        cmd,
        Command::Complete(
            Event::AddLiquidity { token_a: 9, token_b: 8, liquidity: 900, amount_a: 2000, amount_b: 500 },
        )
    );
}

#[test]
fn add_liquidity_flow_creates_a_missing_pair() {
    let (flow, _) = AddLiquidityFlow::start(CFG, CALLER, 8, 9, 500, 2000, 0, 0, TO, 1000);
    let (flow, cmd) = flow.step(Reply::NoPair);
    assert_eq!(cmd, Command::FactoryCreatePair { token_a: 8, token_b: 9 });
    let (_, cmd) = flow.step(Reply::CreateFailed);
    assert_eq!(cmd, Command::Fail(Error::PairCreationFailed));
}

#[test]
fn remove_liquidity_flow_keeps_the_inverted_move_branch() {
    let (flow, cmd) = RemoveLiquidityFlow::start(CFG, CALLER, 8, 9, 500, 0, 0, TO, 1000);
    assert_eq!(cmd, Command::FactoryGetPair { token_a: 8, token_b: 9 });
    let (flow, cmd) = flow.step(Reply::PairFound(200));
    assert_eq!(
        cmd,
        Command::PairTransferFrom { pair: 200, from: CALLER, to: 77, amount: 500 }
    );
    // A move reported as successful aborts the workflow...
    let (_, cmd2) = flow.step(Reply::LiquidityMoved);
    assert_eq!(cmd2, Command::Fail(Error::TransferFailed));
    // ...and a reported error lets the burn proceed.
    let (flow, cmd) = flow.step(Reply::LiquidityMoveFailed);
    assert_eq!(
        cmd,
        Command::PairRemoveLiquidity {
            pair: 200,
            liquidity: 500,
            amount_a_min: 0,
            amount_b_min: 0,
            to: TO,
            deadline: 1000,
        }
    );
    let (_, cmd) = flow.step(Reply::LiquidityRemoved { amount_a: 250, amount_b: 1000 });
    assert_eq!(
        cmd,
        Command::Complete(
            Event::RemoveLiquidity { token_a: 8, token_b: 9, liquidity: 500, amount_a: 250, amount_b: 1000 },
        )
    );
}

#[test]
fn expired_swaps_fail_before_any_transfer() {
    // Every swap entry point rejects an expired deadline up front, with
    // no machine created and so no command ever issued.
    let path = || vec![8u64, 9];
    let vara_first = || vec![50u64, 9];
    let vara_last = || vec![8u64, 50];
    assert_eq!(
        SwapFlow::swap_exact_tokens_for_tokens(CFG, CALLER, 100, 80, path(), TO, 10, 11)
            .unwrap_err(),
        Error::DeadlineExceeded
    );
    assert_eq!(
        SwapFlow::swap_tokens_for_exact_tokens(CFG, CALLER, 90, 120, path(), TO, 10, 11)
            .unwrap_err(),
        Error::DeadlineExceeded
    );
    assert_eq!(
        SwapFlow::swap_exact_vara_for_tokens(CFG, CALLER, 80, vara_first(), TO, 10, 11, 100)
            .unwrap_err(),
        Error::DeadlineExceeded
    );
    assert_eq!(
        SwapFlow::swap_tokens_for_exact_vara(CFG, CALLER, 90, 120, vara_last(), TO, 10, 11)
            .unwrap_err(),
        Error::DeadlineExceeded
    );
    assert_eq!(
        SwapFlow::swap_exact_tokens_for_vara(CFG, CALLER, 100, 80, vara_last(), TO, 10, 11)
            .unwrap_err(),
        Error::DeadlineExceeded
    );
    assert_eq!(
        SwapFlow::swap_vara_for_exact_tokens(CFG, CALLER, 90, vara_first(), TO, 10, 11, 200)
            .unwrap_err(),
        Error::DeadlineExceeded
    );
}

#[test]
fn native_paths_must_touch_the_wrapped_token() {
    assert_eq!(
        SwapFlow::swap_exact_vara_for_tokens(CFG, CALLER, 80, vec![8, 9], TO, 10, 10, 100)
            .unwrap_err(),
        Error::InvalidPath
    );
    assert_eq!(
        SwapFlow::swap_tokens_for_exact_vara(CFG, CALLER, 90, 120, vec![8, 9], TO, 10, 10)
            .unwrap_err(),
        Error::InvalidPath
    );
    assert_eq!(
        SwapFlow::swap_exact_tokens_for_tokens(CFG, CALLER, 100, 80, vec![8], TO, 10, 10)
            .unwrap_err(),
        Error::InvalidPath
    );
}

#[test]
fn exact_in_swap_runs_the_whole_chain() {
    let (flow, cmd) =
        SwapFlow::swap_exact_tokens_for_tokens(CFG, CALLER, 100, 80, vec![8, 9], TO, 100, 50)
            .unwrap();
    assert_eq!(cmd, Command::FactoryGetPair { token_a: 8, token_b: 9 });
    let (flow, cmd) = flow.step(Reply::PairFound(200));
    assert_eq!(cmd, Command::PairGetReserves { pair: 200, token_a: 8, token_b: 9 });
    // token 9 is canonical first, so the reply's order is flipped back.
    let (flow, cmd) = flow.step(Reply::ReservesFound { reserve_a: 1000, reserve_b: 1000 });
    assert_eq!(cmd, Command::FactoryGetPair { token_a: 8, token_b: 9 });
    let (flow, cmd) = flow.step(Reply::PairFound(200));
    assert_eq!(
        cmd,
        Command::TokenTransfer { token: 8, from: CALLER, to: 200, amount: 100 }
    );
    let (flow, cmd) = flow.step(Reply::TransferOk);
    assert_eq!(cmd, Command::FactoryGetPair { token_a: 8, token_b: 9 });
    let (flow, cmd) = flow.step(Reply::PairFound(200));
    assert_eq!(
        cmd,
        Command::PairSwap { pair: 200, in_amount: 100, out_amount: 90, to: TO, a_to_b: false }
    );
    let (_, cmd) = flow.step(Reply::SwapOk);
    assert_eq!(
        cmd,
        Command::Complete(
            Event::SwapExactTokensForTokens {
                amount_in: 100,
                amount_out: 90,
                path: vec![8, 9],
                amounts: vec![100, 90],
            },
        )
    );
}

#[test]
fn slippage_bounds_abort_after_quoting() {
    let (flow, _) =
        SwapFlow::swap_exact_tokens_for_tokens(CFG, CALLER, 100, 91, vec![8, 9], TO, 100, 50)
            .unwrap();
    let (flow, _) = flow.step(Reply::PairFound(200));
    let (_, cmd) = flow.step(Reply::ReservesFound { reserve_a: 1000, reserve_b: 1000 });
    assert_eq!(cmd, Command::Fail(Error::InsufficientOutputAmount));

    let (flow, _) =
        SwapFlow::swap_tokens_for_exact_tokens(CFG, CALLER, 90, 99, vec![8, 9], TO, 100, 50)
            .unwrap();
    let (flow, _) = flow.step(Reply::PairFound(200));
    let (_, cmd) = flow.step(Reply::ReservesFound { reserve_a: 1000, reserve_b: 1000 });
    assert_eq!(cmd, Command::Fail(Error::ExcessiveInputAmount));
}

#[test]
fn two_hop_swaps_forward_to_the_next_pair() {
    let (flow, _) =
        SwapFlow::swap_exact_tokens_for_tokens(CFG, CALLER, 100, 40, vec![8, 9, 11], TO, 100, 50)
            .unwrap();
    let (flow, _) = flow.step(Reply::PairFound(200));
    let (flow, cmd) = flow.step(Reply::ReservesFound { reserve_a: 1000, reserve_b: 1000 });
    assert_eq!(cmd, Command::FactoryGetPair { token_a: 9, token_b: 11 });
    let (flow, _) = flow.step(Reply::PairFound(201));
    // second hop's reserves: token 11 canonical first, path order flipped
    let (flow, cmd) = flow.step(Reply::ReservesFound { reserve_a: 1000, reserve_b: 2000 });
    assert_eq!(cmd, Command::FactoryGetPair { token_a: 8, token_b: 9 });
    let (flow, cmd) = flow.step(Reply::PairFound(200));
    assert_eq!(
        cmd,
        Command::TokenTransfer { token: 8, from: CALLER, to: 200, amount: 100 }
    );
    let (flow, cmd) = flow.step(Reply::TransferOk);
    assert_eq!(cmd, Command::FactoryGetPair { token_a: 8, token_b: 9 });
    let (flow, cmd) = flow.step(Reply::PairFound(200));
    // Not the last hop: the destination is the next hop's pair.
    assert_eq!(cmd, Command::FactoryGetPair { token_a: 9, token_b: 11 });
    let (flow, cmd) = flow.step(Reply::PairFound(201));
    assert_eq!(
        cmd,
        Command::PairSwap { pair: 200, in_amount: 100, out_amount: 90, to: 201, a_to_b: false }
    );
    let (flow, cmd) = flow.step(Reply::SwapOk);
    assert_eq!(cmd, Command::FactoryGetPair { token_a: 9, token_b: 11 });
    let (flow, cmd) = flow.step(Reply::PairFound(201));
    assert_eq!(
        cmd,
        Command::PairSwap { pair: 201, in_amount: 90, out_amount: 42, to: TO, a_to_b: false }
    );
    let (_, cmd) = flow.step(Reply::SwapOk);
    assert_eq!(
        cmd,
        Command::Complete(
            Event::SwapExactTokensForTokens {
                amount_in: 100,
                amount_out: 42,
                path: vec![8, 9, 11],
                amounts: vec![100, 90, 42],
            },
        )
    );
}

#[test]
fn native_input_is_wrapped_and_dust_refunded() {
    // Exact-out from attached native value: wrap what the quote needs,
    // refund the rest after the chain completes.
    let (flow, _) =
        SwapFlow::swap_vara_for_exact_tokens(CFG, CALLER, 90, vec![50, 9], TO, 100, 50, 200)
            .unwrap();
    let (flow, _) = flow.step(Reply::PairFound(200));
    let (flow, cmd) = flow.step(Reply::ReservesFound { reserve_a: 1000, reserve_b: 1000 });
    assert_eq!(cmd, Command::FactoryGetPair { token_a: 50, token_b: 9 });
    let (flow, cmd) = flow.step(Reply::PairFound(200));
    assert_eq!(cmd, Command::WvaraDeposit { value: 100 });
    let (flow, cmd) = flow.step(Reply::DepositOk);
    assert_eq!(cmd, Command::WvaraTransfer { from: 77, to: 200, amount: 100 });
    let (flow, cmd) = flow.step(Reply::WvaraTransferOk);
    assert_eq!(cmd, Command::FactoryGetPair { token_a: 50, token_b: 9 });
    let (flow, cmd) = flow.step(Reply::PairFound(200));
    assert_eq!(
        cmd,
        Command::PairSwap { pair: 200, in_amount: 100, out_amount: 90, to: TO, a_to_b: true }
    );
    let (flow, cmd) = flow.step(Reply::SwapOk);
    assert_eq!(cmd, Command::RefundNative { to: CALLER, amount: 100 });
    let (_, cmd) = flow.step(Reply::RefundDone);
    assert_eq!(
        cmd,
        Command::Complete(
            Event::SwapVARAForExactTokens {
                amount_in: 100,
                amount_out: 90,
                path: vec![50, 9],
                amounts: vec![100, 90],
            },
        )
    );
}

#[test]
fn native_output_is_unwrapped_at_the_end() {
    let (flow, _) =
        SwapFlow::swap_exact_tokens_for_vara(CFG, CALLER, 100, 80, vec![8, 50], TO, 100, 50)
            .unwrap();
    let (flow, _) = flow.step(Reply::PairFound(200));
    let (flow, _) = flow.step(Reply::ReservesFound { reserve_a: 1000, reserve_b: 1000 });
    let (flow, _) = flow.step(Reply::PairFound(200));
    let (flow, _) = flow.step(Reply::TransferOk);
    let (flow, _) = flow.step(Reply::PairFound(200));
    let (flow, cmd) = flow.step(Reply::SwapOk);
    assert_eq!(cmd, Command::WvaraWithdraw { to: TO, amount: 90 });
    let (_, cmd) = flow.step(Reply::WithdrawOk);
    assert_eq!(
        cmd,
        Command::Complete(
            Event::SwapExactTokensForVARA {
                amount_in: 100,
                amount_out: 90,
                path: vec![8, 50],
                amounts: vec![100, 90],
            },
        )
    );
}

#[test]
fn failed_pair_creation_refunds_all_attached_value() {
    // The whole attached value comes back, and no token was ever moved:
    // the only commands before the failure are pair lookups, the
    // creation attempt and the refund itself.
    let attached = 999u128;
    let (flow, c0) =
        AddLiquidityVaraFlow::start(CFG, CALLER, 8, 500, 1, 1, TO, 1000, attached);
    assert_eq!(c0, Command::FactoryGetPair { token_a: 8, token_b: 50 });
    let (flow, c1) = flow.step(Reply::NoPair);
    assert_eq!(c1, Command::FactoryCreatePair { token_a: 8, token_b: 50 });
    let (flow, c2) = flow.step(Reply::CreateFailed);
    assert_eq!(c2, Command::RefundNative { to: CALLER, amount: attached });
    let (_, c3) = flow.step(Reply::RefundDone);
    assert_eq!(c3, Command::Fail(Error::PairCreationFailed));
    for c in [c0, c1, c2, c3] {
        assert!(!matches!(c, Command::TokenTransfer { .. }));
        assert!(!matches!(c, Command::WvaraDeposit { .. }));
        assert!(!matches!(c, Command::WvaraTransfer { .. }));
    }
}

#[test]
fn native_deposit_workflow_completes_and_refunds_excess() {
    // wvara (50) sorts before token 8 canonically? sort_tokens(8, 50) =
    // (50, 8): wvara is the first canonical token.
    let (flow, _) = AddLiquidityVaraFlow::start(CFG, CALLER, 8, 500, 1, 1, TO, 1000, 2100);
    let (flow, cmd) = flow.step(Reply::PairFound(200));
    assert_eq!(
        cmd,
        Command::PairAddLiquidity {
            pair: 200,
            amount_a_desired: 2100,
            amount_b_desired: 500,
            amount_a_min: 1,
            amount_b_min: 1,
            to: TO,
            deadline: 1000,
        }
    );
    let (flow, cmd) = flow.step(
        Reply::LiquidityAdded { amount_a: 2000, amount_b: 500, liquidity: Amount::from_u128(900) },
    );
    assert_eq!(
        cmd,
        Command::TokenTransfer { token: 8, from: CALLER, to: 200, amount: 500 }
    );
    let (flow, cmd) = flow.step(Reply::TransferOk);
    assert_eq!(cmd, Command::WvaraDeposit { value: 2000 });
    let (flow, cmd) = flow.step(Reply::DepositOk);
    assert_eq!(cmd, Command::WvaraTransfer { from: 77, to: 200, amount: 2000 });
    let (flow, cmd) = flow.step(Reply::WvaraTransferOk);
    assert_eq!(cmd, Command::RefundNative { to: CALLER, amount: 100 });
    let (_, cmd) = flow.step(Reply::RefundDone);
    assert_eq!(
        cmd,
        Command::Complete(
            Event::AddLiquidity { token_a: 50, token_b: 8, liquidity: 900, amount_a: 2000, amount_b: 500 },
        )
    );
}

#[test]
fn quote_roundtrip_recovers_the_amount_sequence() {
    // When every hop's exact-in division leaves a remainder with slack
    // under one input unit, quoting backwards from the final output
    // reproduces the whole forward sequence.
    let path = vec![8u64, 9, 11];
    let reserves = vec![(1000u128, 1000u128), (1000, 1000)];
    let forward = get_amounts_out(100, &path, &reserves).unwrap();
    assert_eq!(forward, vec![100, 90, 82]);
    let backward = get_amounts_in(82, &path, &reserves).unwrap();
    assert_eq!(backward, forward);
}

#[test]
fn request_dispatch_opens_the_right_workflow() {
    let (wf, cmd) = process_handle(
        CFG,
        CALLER,
        Action::AddLiquidity {
            token_a: 8,
            token_b: 9,
            amount_a_desired: 500,
            amount_b_desired: 2000,
            amount_a_min: 0,
            amount_b_min: 0,
            to: TO,
            deadline: 1000,
        },
        10,
        0,
    )
    .unwrap();
    assert!(matches!(wf, Workflow::AddLiquidity(_)));
    assert_eq!(cmd, Command::FactoryGetPair { token_a: 8, token_b: 9 });
    let (wf, cmd) = wf.step(Reply::NoPair);
    assert_eq!(cmd, Command::FactoryCreatePair { token_a: 8, token_b: 9 });
    let (_, cmd) = wf.step(Reply::CreateFailed);
    assert_eq!(cmd, Command::Fail(Error::PairCreationFailed));

    // An expired swap request is rejected at dispatch, before any call.
    let r = process_handle(
        CFG,
        CALLER,
        Action::SwapExactTokensForTokens {
            amount_in: 100,
            amount_out_min: 0,
            path: vec![8, 9],
            to: TO,
            deadline: 5,
        },
        10,
        0,
    );
    assert!(matches!(r, Err(Error::DeadlineExceeded)));
}

#[test]
fn a_failed_hop_aborts_the_chain() {
    let (flow, _) =
        SwapFlow::swap_exact_tokens_for_tokens(CFG, CALLER, 100, 0, vec![8, 9], TO, 100, 50)
            .unwrap();
    let (flow, _) = flow.step(Reply::PairFound(200));
    let (flow, _) = flow.step(Reply::ReservesFound { reserve_a: 1000, reserve_b: 1000 });
    let (flow, _) = flow.step(Reply::PairFound(200));
    let (flow, _) = flow.step(Reply::TransferOk);
    let (flow, _) = flow.step(Reply::PairFound(200));
    let (_, cmd) = flow.step(Reply::SwapErr(PairError::InvalidRouter));
    assert_eq!(cmd, Command::Fail(Error::LPPairError(PairError::InvalidRouter)));
}

#[test]
fn unavailable_reserves_fail_the_quote() {
    let (flow, _) =
        SwapFlow::swap_exact_tokens_for_tokens(CFG, CALLER, 100, 0, vec![8, 9], TO, 100, 50)
            .unwrap();
    let (flow, _) = flow.step(Reply::PairFound(200));
    let (_, cmd) = flow.step(Reply::ReservesFailed);
    assert_eq!(cmd, Command::Fail(Error::GetReservesFailed));
    let (flow, _) =
        SwapFlow::swap_exact_tokens_for_tokens(CFG, CALLER, 100, 0, vec![8, 9], TO, 100, 50)
            .unwrap();
    let (_, cmd) = flow.step(Reply::NoPair);
    assert_eq!(cmd, Command::Fail(Error::GetPairFailed));
}

#[test]
fn transport_failures_carry_their_message() {
    let (flow, _) =
        SwapFlow::swap_exact_tokens_for_tokens(CFG, CALLER, 100, 0, vec![8, 9], TO, 100, 50)
            .unwrap();
    let (_, cmd) = flow.step(Reply::Transport(String::from("link down")));
    assert_eq!(cmd, Command::Fail(Error::GstdError(String::from("link down"))));
}

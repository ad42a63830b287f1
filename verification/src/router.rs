//! The router's orchestration logic: multi-hop quoting over per-hop
//! reserves, canonical token ordering, and one explicit state machine per
//! workflow (adding and removing liquidity, with and without the native
//! currency, and the six swap variants). Each machine step consumes one
//! reply from an external actor and decides the next outgoing call; the
//! message loop that performs the calls lives outside the library.
use vstd::prelude::*;

use crate::amount::{pow128, Amount};
use crate::error::Error as PairError;
use crate::math::{
    calculate_in_amount, calculate_out_amount, in_formula, lemma_out_formula_bounds,
    lemma_out_in_roundtrip, out_denom, out_formula, spec_calculate_in_amount,
    spec_calculate_out_amount,
};
use crate::wvara::Error as WvaraError;
use crate::ActorId;
use vstd::arithmetic::div_mod::{
    lemma_div_is_ordered, lemma_div_multiples_vanish, lemma_fundamental_div_mod,
    lemma_mod_division_less_than_divisor,
};

verus! {

/// Why a router workflow failed.
#[derive(Debug, PartialEq, Eq)]
pub enum Error {
    /// An underlying runtime failure, with its message.
    GstdError(String),
    AccessRestricted,
    ZeroActorId,
    IdenticalTokens,
    PairExist,
    /// A pair-level operation or quoting step failed.
    LPPairError(PairError),
    /// A wrapped-native operation failed.
    WvaraError(WvaraError),
    InsufficientAmount,
    Overflow,
    InsufficientLiquidity,
    TransferFailed,
    GetPairFailed,
    DeadlineExceeded,
    RemovedLiquidityFailed,
    PairNotFound,
    AddLiquidityFailed,
    PairCreationFailed,
    DepositVaraFailed,
    SwapFailed,
    InvalidPath,
    GetReservesFailed,
    InsufficientOutputAmount,
    ExcessiveInputAmount,
    WithdrawVaraFailed,
}

/// The two immutable addresses the router is configured with, and its own.
#[derive(Clone, Copy, Debug, PartialEq, Eq, Structural)]
pub struct RouterConfig {
    pub factory: ActorId,
    pub wvara: ActorId,
    pub router_id: ActorId,
}

impl RouterConfig {
    /// The factory this router resolves pairs through.
    pub fn factory(&self) -> (r: ActorId)
        ensures
            r == self.factory,
    {
        self.factory
    }

    /// The wrapped-native token this router wraps value through.
    pub fn wvara(&self) -> (r: ActorId)
        ensures
            r == self.wvara,
    {
        self.wvara
    }
}

/// Orders two tokens canonically: the larger address first.
pub open spec fn spec_sort_tokens(token_a: ActorId, token_b: ActorId) -> (ActorId, ActorId) {
    if token_b > token_a {
        (token_b, token_a)
    } else {
        (token_a, token_b)
    }
}

pub fn sort_tokens(token_a: ActorId, token_b: ActorId) -> (r: (ActorId, ActorId))
    ensures
        r == spec_sort_tokens(token_a, token_b),
{
    if token_b > token_a {
        (token_b, token_a)
    } else {
        (token_a, token_b)
    }
}

/// Fails when the deadline lies strictly in the past.
pub fn check_deadline(now: u64, deadline: u64) -> (r: Result<(), Error>)
    ensures
        r == if now > deadline {
            Err::<(), Error>(Error::DeadlineExceeded)
        } else {
            Ok::<(), Error>(())
        },
{
    if now > deadline {
        Err(Error::DeadlineExceeded)
    } else {
        Ok(())
    }
}

/// The whole amount sequence of an exact-in walk: entry `0` is the input,
/// each later entry is the exact-in output of the previous one against
/// that hop's own reserves.
pub open spec fn spec_amounts_out(amount_in: u128, reserves: Seq<(u128, u128)>) -> Result<
    Seq<u128>,
    PairError,
>
    decreases reserves.len(),
{
    if reserves.len() == 0 {
        Ok(seq![amount_in])
    } else {
        match spec_amounts_out(amount_in, reserves.drop_last()) {
            Err(e) => Err(e),
            Ok(s) => match spec_calculate_out_amount(
                s.last() as int,
                reserves.last().0 as int,
                reserves.last().1 as int,
            ) {
                Err(e) => Err(e),
                Ok(next) => Ok(s.push(next)),
            },
        }
    }
}

/// The whole amount sequence of an exact-out walk: the last entry is the
/// requested output, each earlier entry is the exact-out input that hop
/// demands, computed from the last hop backwards.
pub open spec fn spec_amounts_in(amount_out: u128, reserves: Seq<(u128, u128)>) -> Result<
    Seq<u128>,
    PairError,
>
    decreases reserves.len(),
{
    if reserves.len() == 0 {
        Ok(seq![amount_out])
    } else {
        match spec_calculate_in_amount(
            amount_out as int,
            reserves.last().0 as int,
            reserves.last().1 as int,
        ) {
            Err(e) => Err(e),
            Ok(prev) => match spec_amounts_in(prev, reserves.drop_last()) {
                Err(e) => Err(e),
                Ok(s) => Ok(s.push(amount_out)),
            },
        }
    }
}

/// An erring prefix decides the whole exact-in walk.
proof fn lemma_amounts_out_err_extends(amount_in: u128, reserves: Seq<(u128, u128)>, i: int)
    requires
        0 <= i <= reserves.len(),
        spec_amounts_out(amount_in, reserves.take(i)) is Err,
    ensures
        spec_amounts_out(amount_in, reserves) == spec_amounts_out(amount_in, reserves.take(i)),
    decreases reserves.len() - i,
{
    if i == reserves.len() {
        assert(reserves.take(i) == reserves);
    } else {
        assert(reserves.take(i + 1).drop_last() == reserves.take(i));
        lemma_amounts_out_err_extends(amount_in, reserves, i + 1);
    }
}

/// Walks an exact-in quote along per-hop reserves: fails on a path of
/// fewer than two tokens, otherwise applies the exact-in formula hop by
/// hop against each hop's own reserves.
pub fn get_amounts_out(amount_in: u128, path: &Vec<ActorId>, reserves: &Vec<(u128, u128)>) -> (r:
    Result<Vec<u128>, Error>)
    requires
        path@.len() >= 2 ==> reserves@.len() == path@.len() - 1,
    ensures
        path@.len() < 2 ==> r == Err::<Vec<u128>, Error>(Error::InvalidPath),
        path@.len() >= 2 ==> match spec_amounts_out(amount_in, reserves@) {
            Ok(s) => (r matches Ok(v) && v@ == s),
            Err(e) => r == Err::<Vec<u128>, Error>(Error::LPPairError(e)),
        },
{
    if path.len() < 2 {
        return Err(Error::InvalidPath);
    }
    let n = reserves.len();
    let mut amounts: Vec<u128> = Vec::new();
    amounts.push(amount_in);
    let mut i: usize = 0;
    while i < n
        invariant
            path@.len() >= 2,
            i <= n,
            n == reserves@.len(),
            amounts@.len() == i + 1,
            spec_amounts_out(amount_in, reserves@.take(i as int)) == Ok::<Seq<u128>, PairError>(
                amounts@,
            ),
        decreases n - i,
    {
        proof {
            assert(reserves@.take(i + 1).drop_last() == reserves@.take(i as int));
            assert(reserves@.take(i + 1).last() == reserves@[i as int]);
        }
        let next = match calculate_out_amount(amounts[i], reserves[i]) {
            Ok(v) => v,
            Err(e) => {
                proof {
                    lemma_amounts_out_err_extends(amount_in, reserves@, i + 1);
                }
                return Err(Error::LPPairError(e));
            },
        };
        amounts.push(next);
        i = i + 1;
    }
    proof {
        assert(reserves@.take(n as int) == reserves@);
    }
    Ok(amounts)
}

/// The backward walk over a prefix of the hops.
fn amounts_in_prefix(amount_out: u128, reserves: &Vec<(u128, u128)>, k: usize) -> (r: Result<
    Vec<u128>,
    Error,
>)
    requires
        k <= reserves@.len(),
    ensures
        match spec_amounts_in(amount_out, reserves@.take(k as int)) {
            Ok(s) => (r matches Ok(v) && v@ == s),
            Err(e) => r == Err::<Vec<u128>, Error>(Error::LPPairError(e)),
        },
    decreases k,
{
    if k == 0 {
        let mut v: Vec<u128> = Vec::new();
        v.push(amount_out);
        proof {
            assert(v@ == seq![amount_out]);
        }
        Ok(v)
    } else {
        proof {
            assert(reserves@.take(k as int).drop_last() == reserves@.take(k - 1));
            assert(reserves@.take(k as int).last() == reserves@[k - 1]);
        }
        let prev = match calculate_in_amount(amount_out, reserves[k - 1]) {
            Ok(v) => v,
            Err(e) => {
                return Err(Error::LPPairError(e));
            },
        };
        match amounts_in_prefix(prev, reserves, k - 1) {
            Ok(mut v) => {
                v.push(amount_out);
                Ok(v)
            },
            Err(e) => Err(e),
        }
    }
}

/// Walks an exact-out quote backwards along per-hop reserves: fails on a
/// path of fewer than two tokens, otherwise applies the exact-out formula
/// from the last hop to the first against each hop's own reserves.
pub fn get_amounts_in(amount_out: u128, path: &Vec<ActorId>, reserves: &Vec<(u128, u128)>) -> (r:
    Result<Vec<u128>, Error>)
    requires
        path@.len() >= 2 ==> reserves@.len() == path@.len() - 1,
    ensures
        path@.len() < 2 ==> r == Err::<Vec<u128>, Error>(Error::InvalidPath),
        path@.len() >= 2 ==> match spec_amounts_in(amount_out, reserves@) {
            Ok(s) => (r matches Ok(v) && v@ == s),
            Err(e) => r == Err::<Vec<u128>, Error>(Error::LPPairError(e)),
        },
{
    if path.len() < 2 {
        return Err(Error::InvalidPath);
    }
    let r = amounts_in_prefix(amount_out, reserves, reserves.len());
    proof {
        assert(reserves@.take(reserves@.len() as int) == reserves@);
    }
    r
}

/// A hop whose exact-in quote the exact-out quote takes back exactly: the
/// division is inexact (so the backward quote does not round past the
/// input) and its slack stays under one input unit.
pub open spec fn hop_recovers(amount_in: u128, reserve_in: u128, reserve_out: u128) -> bool {
    let o = out_formula(amount_in as int, reserve_in as int, reserve_out as int);
    &&& amount_in >= 1
    &&& (997 * amount_in * reserve_out) % out_denom(amount_in as int, reserve_in as int) != 0
    &&& 1000 * reserve_in * o >= 997 * (amount_in - 1) * (reserve_out - o)
}

/// On a recovering hop the exact-out quote of the exact-in output is the
/// original input.
proof fn lemma_hop_roundtrip(amount_in: u128, reserve_in: u128, reserve_out: u128, amount_out: u128)
    requires
        spec_calculate_out_amount(amount_in as int, reserve_in as int, reserve_out as int)
            == Ok::<u128, PairError>(amount_out),
        hop_recovers(amount_in, reserve_in, reserve_out),
    ensures
        spec_calculate_in_amount(amount_out as int, reserve_in as int, reserve_out as int)
            == Ok::<u128, PairError>(amount_in),
{
    assert(reserve_in >= 1 && reserve_out >= 1);
    lemma_out_formula_bounds(amount_in as int, reserve_in as int, reserve_out as int);
    assert(amount_out as int == out_formula(amount_in as int, reserve_in as int, reserve_out as int));
    lemma_out_in_roundtrip(amount_in as int, reserve_in as int, reserve_out as int, amount_out);
    let o = amount_out as int;
    let d2 = 997 * (reserve_out - o);
    let num2 = 1000 * reserve_in * o;
    assert(d2 > 0);
    assert(num2 >= (amount_in - 1) * d2) by (nonlinear_arith)
        requires
            1000 * reserve_in * o >= 997 * (amount_in - 1) * (reserve_out - o),
            num2 == 1000 * reserve_in * o,
            d2 == 997 * (reserve_out - o),
    ;
    lemma_div_multiples_vanish(amount_in - 1, d2);
    lemma_div_is_ordered((amount_in - 1) * d2, num2, d2);
    assert(d2 * (amount_in - 1) == (amount_in - 1) * d2) by (nonlinear_arith);
    assert(num2 / d2 >= amount_in - 1);
    assert(in_formula(o, reserve_in as int, reserve_out as int) == amount_in);
}

/// Every successful exact-in walk yields one amount per token of the
/// path, starting with the input.
pub proof fn lemma_amounts_out_shape(amount_in: u128, reserves: Seq<(u128, u128)>)
    ensures
        match spec_amounts_out(amount_in, reserves) {
            Ok(s) => s.len() == reserves.len() + 1 && s[0] == amount_in,
            Err(_) => true,
        },
    decreases reserves.len(),
{
    if reserves.len() > 0 {
        lemma_amounts_out_shape(amount_in, reserves.drop_last());
    }
}

/// Law: when every hop of an exact-in walk recovers, the exact-out walk
/// started from the final output reproduces the entire amount sequence
/// against the same reserves — including the original input amount.
pub proof fn lemma_amounts_roundtrip(
    amount_in: u128,
    reserves: Seq<(u128, u128)>,
    amounts: Seq<u128>,
)
    requires
        spec_amounts_out(amount_in, reserves) == Ok::<Seq<u128>, PairError>(amounts),
        forall|i: int|
            0 <= i < reserves.len() ==> #[trigger] hop_recovers(
                amounts[i],
                reserves[i].0,
                reserves[i].1,
            ),
    ensures
        spec_amounts_in(amounts.last(), reserves) == Ok::<Seq<u128>, PairError>(amounts),
        amounts[0] == amount_in,
    decreases reserves.len(),
{
    lemma_amounts_out_shape(amount_in, reserves);
    if reserves.len() == 0 {
        assert(amounts == seq![amount_in]);
        assert(amounts.last() == amount_in);
    } else {
        let prefix = match spec_amounts_out(amount_in, reserves.drop_last()) {
            Ok(s) => s,
            Err(_) => {
                assert(false);
                seq![]
            },
        };
        lemma_amounts_out_shape(amount_in, reserves.drop_last());
        assert(prefix.len() == reserves.len());
        assert(amounts == prefix.push(amounts.last()));
        assert(forall|i: int| 0 <= i < prefix.len() ==> prefix[i] == amounts[i]);
        assert(prefix.last() == amounts[reserves.len() - 1]);
        assert(forall|i: int|
            0 <= i < reserves.drop_last().len() ==> #[trigger] hop_recovers(
                prefix[i],
                reserves.drop_last()[i].0,
                reserves.drop_last()[i].1,
            )) by {
            assert(forall|i: int|
                0 <= i < reserves.drop_last().len() ==> reserves.drop_last()[i] == reserves[i]
                    && prefix[i] == amounts[i]);
        }
        lemma_amounts_roundtrip(amount_in, reserves.drop_last(), prefix);
        lemma_hop_roundtrip(prefix.last(), reserves.last().0, reserves.last().1, amounts.last());
        assert(spec_amounts_in(amounts.last(), reserves) == Ok::<Seq<u128>, PairError>(
            prefix.push(amounts.last()),
        ));
    }
}

/// One outgoing call (or the workflow's final word). The loop around the
/// library performs the call and feeds the reply back into the machine.
#[derive(Debug, PartialEq, Eq)]
pub enum Command {
    FactoryGetPair { token_a: ActorId, token_b: ActorId },
    FactoryCreatePair { token_a: ActorId, token_b: ActorId },
    PairAddLiquidity {
        pair: ActorId,
        amount_a_desired: u128,
        amount_b_desired: u128,
        amount_a_min: u128,
        amount_b_min: u128,
        to: ActorId,
        deadline: u64,
    },
    PairRemoveLiquidity {
        pair: ActorId,
        liquidity: u128,
        amount_a_min: u128,
        amount_b_min: u128,
        to: ActorId,
        deadline: u64,
    },
    PairTransferFrom { pair: ActorId, from: ActorId, to: ActorId, amount: u128 },
    PairGetReserves { pair: ActorId, token_a: ActorId, token_b: ActorId },
    PairSwap { pair: ActorId, in_amount: u128, out_amount: u128, to: ActorId, a_to_b: bool },
    TokenTransfer { token: ActorId, from: ActorId, to: ActorId, amount: u128 },
    WvaraDeposit { value: u128 },
    WvaraTransfer { from: ActorId, to: ActorId, amount: u128 },
    WvaraWithdraw { to: ActorId, amount: u128 },
    RefundNative { to: ActorId, amount: u128 },
    Complete(Event),
    Fail(Error),
}

/// The reply an outgoing call came back with, reduced to the cases the
/// workflows distinguish. `Transport` stands for a failure of the
/// messaging layer itself, with its message.
#[derive(Debug, PartialEq, Eq)]
pub enum Reply {
    PairFound(ActorId),
    NoPair,
    PairCreated(ActorId),
    CreateFailed,
    LiquidityAdded { amount_a: u128, amount_b: u128, liquidity: Amount },
    AddFailed,
    LiquidityMoved,
    LiquidityMoveFailed,
    LiquidityRemoved { amount_a: u128, amount_b: u128 },
    RemoveFailed,
    ReservesFound { reserve_a: u128, reserve_b: u128 },
    ReservesFailed,
    TransferOk,
    TransferErr,
    DepositOk,
    DepositErr,
    WvaraTransferOk,
    WvaraTransferErr,
    WithdrawOk,
    WithdrawErr,
    SwapOk,
    SwapErr(PairError),
    RefundDone,
    Transport(String),
}

/// What a completed router workflow reports.
#[derive(Debug, PartialEq, Eq)]
pub enum Event {
    AddLiquidity {
        token_a: ActorId,
        token_b: ActorId,
        liquidity: u128,
        amount_a: u128,
        amount_b: u128,
    },
    RemoveLiquidity {
        token_a: ActorId,
        token_b: ActorId,
        liquidity: u128,
        amount_a: u128,
        amount_b: u128,
    },
    SwapExactTokensForTokens {
        amount_in: u128,
        amount_out: u128,
        path: Vec<ActorId>,
        amounts: Vec<u128>,
    },
    SwapTokensForExactTokens {
        amount_in: u128,
        amount_out: u128,
        path: Vec<ActorId>,
        amounts: Vec<u128>,
    },
    SwapExactVARAForTokens {
        amount_in: u128,
        amount_out: u128,
        path: Vec<ActorId>,
        amounts: Vec<u128>,
    },
    SwapExactTokensForVARA {
        amount_in: u128,
        amount_out: u128,
        path: Vec<ActorId>,
        amounts: Vec<u128>,
    },
    SwapTokensForExactVARA {
        amount_in: u128,
        amount_out: u128,
        path: Vec<ActorId>,
        amounts: Vec<u128>,
    },
    SwapVARAForExactTokens {
        amount_in: u128,
        amount_out: u128,
        path: Vec<ActorId>,
        amounts: Vec<u128>,
    },
}

/// Where the add-liquidity workflow stands between two replies.
#[derive(Clone, Copy, Debug, PartialEq, Eq)]
pub enum AddLiquidityStage {
    GettingPair,
    CreatingPair,
    AddingLiquidity { pair: ActorId },
    TransferringA { pair: ActorId, amount_a: u128, amount_b: u128, liquidity: Amount },
    TransferringB { pair: ActorId, amount_a: u128, amount_b: u128, liquidity: Amount },
    Finished,
}

/// The add-liquidity workflow: resolve or create the pair, ask it to
/// mint, then move both tokens from the caller to the pair.
#[derive(Clone, Copy, Debug)]
pub struct AddLiquidityFlow {
    pub cfg: RouterConfig,
    pub caller: ActorId,
    pub token_a: ActorId,
    pub token_b: ActorId,
    pub amount_a_desired: u128,
    pub amount_b_desired: u128,
    pub amount_a_min: u128,
    pub amount_b_min: u128,
    pub to: ActorId,
    pub deadline: u64,
    pub stage: AddLiquidityStage,
}

impl AddLiquidityFlow {
    /// The tokens, desired amounts and minimums in canonical order.
    pub open spec fn ordered(self) -> ((ActorId, ActorId), (u128, u128), (u128, u128)) {
        if (self.token_a, self.token_b) == spec_sort_tokens(self.token_a, self.token_b) {
            (
                (self.token_a, self.token_b),
                (self.amount_a_desired, self.amount_b_desired),
                (self.amount_a_min, self.amount_b_min),
            )
        } else {
            (
                (self.token_b, self.token_a),
                (self.amount_b_desired, self.amount_a_desired),
                (self.amount_b_min, self.amount_a_min),
            )
        }
    }

    pub open spec fn same_params(self, other: AddLiquidityFlow) -> bool {
        &&& other.cfg == self.cfg
        &&& other.caller == self.caller
        &&& other.token_a == self.token_a
        &&& other.token_b == self.token_b
        &&& other.amount_a_desired == self.amount_a_desired
        &&& other.amount_b_desired == self.amount_b_desired
        &&& other.amount_a_min == self.amount_a_min
        &&& other.amount_b_min == self.amount_b_min
        &&& other.to == self.to
        &&& other.deadline == self.deadline
    }

    /// Which replies the issued command can come back with.
    pub open spec fn expects(self, reply: Reply) -> bool {
        match (self.stage, reply) {
            (AddLiquidityStage::Finished, _) => false,
            (_, Reply::Transport(_)) => true,
            (AddLiquidityStage::GettingPair, Reply::PairFound(_)) => true,
            (AddLiquidityStage::GettingPair, Reply::NoPair) => true,
            (AddLiquidityStage::CreatingPair, Reply::PairCreated(_)) => true,
            (AddLiquidityStage::CreatingPair, Reply::CreateFailed) => true,
            (
                AddLiquidityStage::AddingLiquidity { .. },
                Reply::LiquidityAdded { liquidity, .. },
            ) => liquidity@ < pow128(),
            (AddLiquidityStage::AddingLiquidity { .. }, Reply::AddFailed) => true,
            (AddLiquidityStage::TransferringA { .. }, Reply::TransferOk) => true,
            (AddLiquidityStage::TransferringA { .. }, Reply::TransferErr) => true,
            (AddLiquidityStage::TransferringB { .. }, Reply::TransferOk) => true,
            (AddLiquidityStage::TransferringB { .. }, Reply::TransferErr) => true,
            _ => false,
        }
    }

    /// The transition table: from `pre`, the reply decides the next stage
    /// and the next outgoing call.
    pub open spec fn steps_to(
        pre: AddLiquidityFlow,
        reply: Reply,
        post: AddLiquidityFlow,
        cmd: Command,
    ) -> bool {
        &&& pre.same_params(post)
        &&& match (pre.stage, reply) {
            (_, Reply::Transport(m)) => post.stage == AddLiquidityStage::Finished && cmd
                == Command::Fail(Error::GstdError(m)),
            (AddLiquidityStage::GettingPair, Reply::PairFound(pair)) => pre.mint_step(
                pair,
                post,
                cmd,
            ),
            (AddLiquidityStage::GettingPair, Reply::NoPair) => post.stage
                == AddLiquidityStage::CreatingPair && cmd == (Command::FactoryCreatePair {
                token_a: pre.token_a,
                token_b: pre.token_b,
            }),
            (AddLiquidityStage::CreatingPair, Reply::PairCreated(pair)) => pre.mint_step(
                pair,
                post,
                cmd,
            ),
            (AddLiquidityStage::CreatingPair, Reply::CreateFailed) => post.stage
                == AddLiquidityStage::Finished && cmd == Command::Fail(Error::PairCreationFailed),
            (
                AddLiquidityStage::AddingLiquidity { pair },
                Reply::LiquidityAdded { amount_a, amount_b, liquidity },
            ) => {
                &&& post.stage == (AddLiquidityStage::TransferringA {
                    pair,
                    amount_a,
                    amount_b,
                    liquidity,
                })
                &&& cmd == (Command::TokenTransfer {
                    token: pre.ordered().0.0,
                    from: pre.caller,
                    to: pair,
                    amount: amount_a,
                })
            },
            (AddLiquidityStage::AddingLiquidity { .. }, Reply::AddFailed) => post.stage
                == AddLiquidityStage::Finished && cmd == Command::Fail(Error::AddLiquidityFailed),
            (
                AddLiquidityStage::TransferringA { pair, amount_a, amount_b, liquidity },
                Reply::TransferOk,
            ) => {
                &&& post.stage == (AddLiquidityStage::TransferringB {
                    pair,
                    amount_a,
                    amount_b,
                    liquidity,
                })
                &&& cmd == (Command::TokenTransfer {
                    token: pre.ordered().0.1,
                    from: pre.caller,
                    to: pair,
                    amount: amount_b,
                })
            },
            (AddLiquidityStage::TransferringA { .. }, Reply::TransferErr) => post.stage
                == AddLiquidityStage::Finished && cmd == Command::Fail(Error::TransferFailed),
            (
                AddLiquidityStage::TransferringB { amount_a, amount_b, liquidity, .. },
                Reply::TransferOk,
            ) => {
                &&& post.stage == AddLiquidityStage::Finished
                &&& cmd == Command::Complete(
                    Event::AddLiquidity {
                        token_a: pre.ordered().0.0,
                        token_b: pre.ordered().0.1,
                        liquidity: liquidity.lo,
                        amount_a,
                        amount_b,
                    },
                )
            },
            (AddLiquidityStage::TransferringB { .. }, Reply::TransferErr) => post.stage
                == AddLiquidityStage::Finished && cmd == Command::Fail(Error::TransferFailed),
            _ => false,
        }
    }

    /// The step into asking the resolved pair to mint liquidity.
    pub open spec fn mint_step(self, pair: ActorId, post: AddLiquidityFlow, cmd: Command) -> bool {
        &&& post.stage == (AddLiquidityStage::AddingLiquidity { pair })
        &&& cmd == (Command::PairAddLiquidity {
            pair,
            amount_a_desired: self.ordered().1.0,
            amount_b_desired: self.ordered().1.1,
            amount_a_min: self.ordered().2.0,
            amount_b_min: self.ordered().2.1,
            to: self.to,
            deadline: self.deadline,
        })
    }

    /// Opens the workflow: the first call resolves the pair.
    pub fn start(
        cfg: RouterConfig,
        caller: ActorId,
        token_a: ActorId,
        token_b: ActorId,
        amount_a_desired: u128,
        amount_b_desired: u128,
        amount_a_min: u128,
        amount_b_min: u128,
        to: ActorId,
        deadline: u64,
    ) -> (r: (AddLiquidityFlow, Command))
        ensures
            r.0 == (AddLiquidityFlow {
                cfg,
                caller,
                token_a,
                token_b,
                amount_a_desired,
                amount_b_desired,
                amount_a_min,
                amount_b_min,
                to,
                deadline,
                stage: AddLiquidityStage::GettingPair,
            }),
            r.1 == (Command::FactoryGetPair { token_a, token_b }),
    {
        (
            AddLiquidityFlow {
                cfg,
                caller,
                token_a,
                token_b,
                amount_a_desired,
                amount_b_desired,
                amount_a_min,
                amount_b_min,
                to,
                deadline,
                stage: AddLiquidityStage::GettingPair,
            },
            Command::FactoryGetPair { token_a, token_b },
        )
    }

    /// Feeds one reply into the workflow.
    pub fn step(self, reply: Reply) -> (res: (AddLiquidityFlow, Command))
        requires
            self.expects(reply),
        ensures
            AddLiquidityFlow::steps_to(self, reply, res.0, res.1),
    {
        let sorted = sort_tokens(self.token_a, self.token_b);
        let ordered_tokens = if self.token_a == sorted.0 && self.token_b == sorted.1 {
            (self.token_a, self.token_b)
        } else {
            (self.token_b, self.token_a)
        };
        match (self.stage, reply) {
            (_, Reply::Transport(m)) => (
                AddLiquidityFlow { stage: AddLiquidityStage::Finished, ..self },
                Command::Fail(Error::GstdError(m)),
            ),
            (AddLiquidityStage::GettingPair, Reply::PairFound(pair)) => self.mint_transition(pair),
            (AddLiquidityStage::GettingPair, Reply::NoPair) => {
                let cmd = Command::FactoryCreatePair {
                    token_a: self.token_a,
                    token_b: self.token_b,
                };
                (AddLiquidityFlow { stage: AddLiquidityStage::CreatingPair, ..self }, cmd)
            },
            (AddLiquidityStage::CreatingPair, Reply::PairCreated(pair)) => self.mint_transition(
                pair,
            ),
            (AddLiquidityStage::CreatingPair, Reply::CreateFailed) => (
                AddLiquidityFlow { stage: AddLiquidityStage::Finished, ..self },
                Command::Fail(Error::PairCreationFailed),
            ),
            (
                AddLiquidityStage::AddingLiquidity { pair },
                Reply::LiquidityAdded { amount_a, amount_b, liquidity },
            ) => {
                let cmd = Command::TokenTransfer {
                    token: ordered_tokens.0,
                    from: self.caller,
                    to: pair,
                    amount: amount_a,
                };
                (
                    AddLiquidityFlow {
                        stage: AddLiquidityStage::TransferringA {
                            pair,
                            amount_a,
                            amount_b,
                            liquidity,
                        },
                        ..self
                    },
                    cmd,
                )
            },
            (AddLiquidityStage::AddingLiquidity { .. }, Reply::AddFailed) => (
                AddLiquidityFlow { stage: AddLiquidityStage::Finished, ..self },
                Command::Fail(Error::AddLiquidityFailed),
            ),
            (
                AddLiquidityStage::TransferringA { pair, amount_a, amount_b, liquidity },
                Reply::TransferOk,
            ) => {
                let cmd = Command::TokenTransfer {
                    token: ordered_tokens.1,
                    from: self.caller,
                    to: pair,
                    amount: amount_b,
                };
                (
                    AddLiquidityFlow {
                        stage: AddLiquidityStage::TransferringB {
                            pair,
                            amount_a,
                            amount_b,
                            liquidity,
                        },
                        ..self
                    },
                    cmd,
                )
            },
            (AddLiquidityStage::TransferringA { .. }, Reply::TransferErr) => (
                AddLiquidityFlow { stage: AddLiquidityStage::Finished, ..self },
                Command::Fail(Error::TransferFailed),
            ),
            (
                AddLiquidityStage::TransferringB { amount_a, amount_b, liquidity, .. },
                Reply::TransferOk,
            ) => {
                let cmd = Command::Complete(
                    Event::AddLiquidity {
                        token_a: ordered_tokens.0,
                        token_b: ordered_tokens.1,
                        liquidity: liquidity.lo,
                        amount_a,
                        amount_b,
                    },
                );
                (AddLiquidityFlow { stage: AddLiquidityStage::Finished, ..self }, cmd)
            },
            (AddLiquidityStage::TransferringB { .. }, Reply::TransferErr) => (
                AddLiquidityFlow { stage: AddLiquidityStage::Finished, ..self },
                Command::Fail(Error::TransferFailed),
            ),
            _ => {
                proof {
                    assert(false);
                }
                (
                    AddLiquidityFlow { stage: AddLiquidityStage::Finished, ..self },
                    Command::Fail(Error::TransferFailed),
                )
            },
        }
    }

    /// Builds the mint request against the resolved pair.
    fn mint_transition(self, pair: ActorId) -> (res: (AddLiquidityFlow, Command))
        ensures
            self.mint_step(pair, res.0, res.1),
            res.0.same_params(self),
    {
        let sorted = sort_tokens(self.token_a, self.token_b);
        let (amount_desired, amount_min) = if self.token_a == sorted.0 && self.token_b == sorted.1 {
            (
                (self.amount_a_desired, self.amount_b_desired),
                (self.amount_a_min, self.amount_b_min),
            )
        } else {
            (
                (self.amount_b_desired, self.amount_a_desired),
                (self.amount_b_min, self.amount_a_min),
            )
        };
        let cmd = Command::PairAddLiquidity {
            pair,
            amount_a_desired: amount_desired.0,
            amount_b_desired: amount_desired.1,
            amount_a_min: amount_min.0,
            amount_b_min: amount_min.1,
            to: self.to,
            deadline: self.deadline,
        };
        (AddLiquidityFlow { stage: AddLiquidityStage::AddingLiquidity { pair }, ..self }, cmd)
    }
}

/// Where the remove-liquidity workflow stands between two replies.
#[derive(Clone, Copy, Debug, PartialEq, Eq)]
pub enum RemoveLiquidityStage {
    GettingPair,
    MovingLiquidity { pair: ActorId },
    Removing { pair: ActorId },
    Finished,
}

/// The remove-liquidity workflow: resolve the pair, move the caller's
/// shares into the router's custody, then ask the pair to burn them.
#[derive(Clone, Copy, Debug)]
pub struct RemoveLiquidityFlow {
    pub cfg: RouterConfig,
    pub caller: ActorId,
    pub token_a: ActorId,
    pub token_b: ActorId,
    pub liquidity: u128,
    pub amount_a_min: u128,
    pub amount_b_min: u128,
    pub to: ActorId,
    pub deadline: u64,
    pub stage: RemoveLiquidityStage,
}

impl RemoveLiquidityFlow {
    pub open spec fn same_params(self, other: RemoveLiquidityFlow) -> bool {
        &&& other.cfg == self.cfg
        &&& other.caller == self.caller
        &&& other.token_a == self.token_a
        &&& other.token_b == self.token_b
        &&& other.liquidity == self.liquidity
        &&& other.amount_a_min == self.amount_a_min
        &&& other.amount_b_min == self.amount_b_min
        &&& other.to == self.to
        &&& other.deadline == self.deadline
    }

    pub open spec fn expects(self, reply: Reply) -> bool {
        match (self.stage, reply) {
            (RemoveLiquidityStage::Finished, _) => false,
            (_, Reply::Transport(_)) => true,
            (RemoveLiquidityStage::GettingPair, Reply::PairFound(_)) => true,
            (RemoveLiquidityStage::GettingPair, Reply::NoPair) => true,
            (RemoveLiquidityStage::MovingLiquidity { .. }, Reply::LiquidityMoved) => true,
            (RemoveLiquidityStage::MovingLiquidity { .. }, Reply::LiquidityMoveFailed) => true,
            (RemoveLiquidityStage::Removing { .. }, Reply::LiquidityRemoved { .. }) => true,
            (RemoveLiquidityStage::Removing { .. }, Reply::RemoveFailed) => true,
            _ => false,
        }
    }

    pub open spec fn steps_to(
        pre: RemoveLiquidityFlow,
        reply: Reply,
        post: RemoveLiquidityFlow,
        cmd: Command,
    ) -> bool {
        &&& pre.same_params(post)
        &&& match (pre.stage, reply) {
            (_, Reply::Transport(m)) => post.stage == RemoveLiquidityStage::Finished && cmd
                == Command::Fail(Error::GstdError(m)),
            (RemoveLiquidityStage::GettingPair, Reply::PairFound(pair)) => {
                &&& post.stage == (RemoveLiquidityStage::MovingLiquidity { pair })
                &&& cmd == (Command::PairTransferFrom {
                    pair,
                    from: pre.caller,
                    to: pre.cfg.router_id,
                    amount: pre.liquidity,
                })
            },
            (RemoveLiquidityStage::GettingPair, Reply::NoPair) => post.stage
                == RemoveLiquidityStage::Finished && cmd == Command::Fail(Error::PairNotFound),
            (RemoveLiquidityStage::MovingLiquidity { .. }, Reply::LiquidityMoved) => post.stage
                == RemoveLiquidityStage::Finished && cmd == Command::Fail(Error::TransferFailed),
            (RemoveLiquidityStage::MovingLiquidity { pair }, Reply::LiquidityMoveFailed) => {
                &&& post.stage == (RemoveLiquidityStage::Removing { pair })
                &&& cmd == (Command::PairRemoveLiquidity {
                    pair,
                    liquidity: pre.liquidity,
                    amount_a_min: pre.amount_a_min,
                    amount_b_min: pre.amount_b_min,
                    to: pre.to,
                    deadline: pre.deadline,
                })
            },
            (
                RemoveLiquidityStage::Removing { .. },
                Reply::LiquidityRemoved { amount_a, amount_b },
            ) => {
                &&& post.stage == RemoveLiquidityStage::Finished
                &&& cmd == Command::Complete(
                    Event::RemoveLiquidity {
                        token_a: pre.token_a,
                        token_b: pre.token_b,
                        liquidity: pre.liquidity,
                        amount_a,
                        amount_b,
                    },
                )
            },
            (RemoveLiquidityStage::Removing { .. }, Reply::RemoveFailed) => post.stage
                == RemoveLiquidityStage::Finished && cmd == Command::Fail(
                Error::RemovedLiquidityFailed,
            ),
            _ => false,
        }
    }

    /// Opens the workflow: the first call resolves the pair.
    pub fn start(
        cfg: RouterConfig,
        caller: ActorId,
        token_a: ActorId,
        token_b: ActorId,
        liquidity: u128,
        amount_a_min: u128,
        amount_b_min: u128,
        to: ActorId,
        deadline: u64,
    ) -> (r: (RemoveLiquidityFlow, Command))
        ensures
            r.0 == (RemoveLiquidityFlow {
                cfg,
                caller,
                token_a,
                token_b,
                liquidity,
                amount_a_min,
                amount_b_min,
                to,
                deadline,
                stage: RemoveLiquidityStage::GettingPair,
            }),
            r.1 == (Command::FactoryGetPair { token_a, token_b }),
    {
        (
            RemoveLiquidityFlow {
                cfg,
                caller,
                token_a,
                token_b,
                liquidity,
                amount_a_min,
                amount_b_min,
                to,
                deadline,
                stage: RemoveLiquidityStage::GettingPair,
            },
            Command::FactoryGetPair { token_a, token_b },
        )
    }

    /// Feeds one reply into the workflow.
    pub fn step(self, reply: Reply) -> (res: (RemoveLiquidityFlow, Command))
        requires
            self.expects(reply),
        ensures
            RemoveLiquidityFlow::steps_to(self, reply, res.0, res.1),
    {
        match (self.stage, reply) {
            (_, Reply::Transport(m)) => (
                RemoveLiquidityFlow { stage: RemoveLiquidityStage::Finished, ..self },
                Command::Fail(Error::GstdError(m)),
            ),
            (RemoveLiquidityStage::GettingPair, Reply::PairFound(pair)) => {
                let cmd = Command::PairTransferFrom {
                    pair,
                    from: self.caller,
                    to: self.cfg.router_id,
                    amount: self.liquidity,
                };
                (
                    RemoveLiquidityFlow {
                        stage: RemoveLiquidityStage::MovingLiquidity { pair },
                        ..self
                    },
                    cmd,
                )
            },
            (RemoveLiquidityStage::GettingPair, Reply::NoPair) => (
                RemoveLiquidityFlow { stage: RemoveLiquidityStage::Finished, ..self },
                Command::Fail(Error::PairNotFound),
            ),
            // Note: a share move reported as successful is treated as the
            // failure branch, and a reported error lets the burn proceed.
            (RemoveLiquidityStage::MovingLiquidity { .. }, Reply::LiquidityMoved) => (
                RemoveLiquidityFlow { stage: RemoveLiquidityStage::Finished, ..self },
                Command::Fail(Error::TransferFailed),
            ),
            (RemoveLiquidityStage::MovingLiquidity { pair }, Reply::LiquidityMoveFailed) => {
                let cmd = Command::PairRemoveLiquidity {
                    pair,
                    liquidity: self.liquidity,
                    amount_a_min: self.amount_a_min,
                    amount_b_min: self.amount_b_min,
                    to: self.to,
                    deadline: self.deadline,
                };
                (RemoveLiquidityFlow { stage: RemoveLiquidityStage::Removing { pair }, ..self }, cmd)
            },
            (
                RemoveLiquidityStage::Removing { .. },
                Reply::LiquidityRemoved { amount_a, amount_b },
            ) => {
                let cmd = Command::Complete(
                    Event::RemoveLiquidity {
                        token_a: self.token_a,
                        token_b: self.token_b,
                        liquidity: self.liquidity,
                        amount_a,
                        amount_b,
                    },
                );
                (RemoveLiquidityFlow { stage: RemoveLiquidityStage::Finished, ..self }, cmd)
            },
            (RemoveLiquidityStage::Removing { .. }, Reply::RemoveFailed) => (
                RemoveLiquidityFlow { stage: RemoveLiquidityStage::Finished, ..self },
                Command::Fail(Error::RemovedLiquidityFailed),
            ),
            _ => {
                proof {
                    assert(false);
                }
                (
                    RemoveLiquidityFlow { stage: RemoveLiquidityStage::Finished, ..self },
                    Command::Fail(Error::TransferFailed),
                )
            },
        }
    }
}

/// Where the native-currency remove-liquidity workflow stands.
#[derive(Clone, Copy, Debug, PartialEq, Eq)]
pub enum RemoveLiquidityVaraStage {
    GettingPair,
    MovingLiquidity { pair: ActorId },
    Removing { pair: ActorId },
    TransferringToken { amount_a: u128, amount_b: u128 },
    Withdrawing { amount_a: u128, amount_b: u128 },
    Finished,
}

/// The native-currency remove-liquidity workflow: like the plain one, but
/// the pair pays the router, which forwards the token and unwraps the
/// wrapped-native share to the recipient.
#[derive(Clone, Copy, Debug)]
pub struct RemoveLiquidityVaraFlow {
    pub cfg: RouterConfig,
    pub caller: ActorId,
    pub token: ActorId,
    pub liquidity: u128,
    pub amount_token_min: u128,
    pub amount_vara_min: u128,
    pub to: ActorId,
    pub deadline: u64,
    pub stage: RemoveLiquidityVaraStage,
}

impl RemoveLiquidityVaraFlow {
    pub open spec fn token_sort(self) -> (ActorId, ActorId) {
        spec_sort_tokens(self.token, self.cfg.wvara)
    }

    /// The minimums in the sorted order the pair expects.
    pub open spec fn ordered_min(self) -> (u128, u128) {
        if self.token_sort() == (self.token, self.cfg.wvara) {
            (self.amount_token_min, self.amount_vara_min)
        } else {
            (self.amount_vara_min, self.amount_token_min)
        }
    }

    /// Whether the plain token is the canonical first token.
    pub open spec fn token_first(self) -> bool {
        self.token == self.token_sort().0
    }

    pub open spec fn same_params(self, other: RemoveLiquidityVaraFlow) -> bool {
        &&& other.cfg == self.cfg
        &&& other.caller == self.caller
        &&& other.token == self.token
        &&& other.liquidity == self.liquidity
        &&& other.amount_token_min == self.amount_token_min
        &&& other.amount_vara_min == self.amount_vara_min
        &&& other.to == self.to
        &&& other.deadline == self.deadline
    }

    pub open spec fn expects(self, reply: Reply) -> bool {
        match (self.stage, reply) {
            (RemoveLiquidityVaraStage::Finished, _) => false,
            (_, Reply::Transport(_)) => true,
            (RemoveLiquidityVaraStage::GettingPair, Reply::PairFound(_)) => true,
            (RemoveLiquidityVaraStage::GettingPair, Reply::NoPair) => true,
            (RemoveLiquidityVaraStage::MovingLiquidity { .. }, Reply::LiquidityMoved) => true,
            (RemoveLiquidityVaraStage::MovingLiquidity { .. }, Reply::LiquidityMoveFailed) => true,
            (RemoveLiquidityVaraStage::Removing { .. }, Reply::LiquidityRemoved { .. }) => true,
            (RemoveLiquidityVaraStage::Removing { .. }, Reply::RemoveFailed) => true,
            (RemoveLiquidityVaraStage::TransferringToken { .. }, Reply::TransferOk) => true,
            (RemoveLiquidityVaraStage::TransferringToken { .. }, Reply::TransferErr) => true,
            (RemoveLiquidityVaraStage::Withdrawing { .. }, Reply::WithdrawOk) => true,
            (RemoveLiquidityVaraStage::Withdrawing { .. }, Reply::WithdrawErr) => true,
            _ => false,
        }
    }

    pub open spec fn steps_to(
        pre: RemoveLiquidityVaraFlow,
        reply: Reply,
        post: RemoveLiquidityVaraFlow,
        cmd: Command,
    ) -> bool {
        &&& pre.same_params(post)
        &&& match (pre.stage, reply) {
            (_, Reply::Transport(m)) => post.stage == RemoveLiquidityVaraStage::Finished && cmd
                == Command::Fail(Error::GstdError(m)),
            (RemoveLiquidityVaraStage::GettingPair, Reply::PairFound(pair)) => {
                &&& post.stage == (RemoveLiquidityVaraStage::MovingLiquidity { pair })
                &&& cmd == (Command::PairTransferFrom {
                    pair,
                    from: pre.caller,
                    to: pre.cfg.router_id,
                    amount: pre.liquidity,
                })
            },
            (RemoveLiquidityVaraStage::GettingPair, Reply::NoPair) => post.stage
                == RemoveLiquidityVaraStage::Finished && cmd == Command::Fail(Error::PairNotFound),
            (RemoveLiquidityVaraStage::MovingLiquidity { .. }, Reply::LiquidityMoved) => post.stage
                == RemoveLiquidityVaraStage::Finished && cmd == Command::Fail(
                Error::TransferFailed,
            ),
            (RemoveLiquidityVaraStage::MovingLiquidity { pair }, Reply::LiquidityMoveFailed) => {
                &&& post.stage == (RemoveLiquidityVaraStage::Removing { pair })
                &&& cmd == (Command::PairRemoveLiquidity {
                    pair,
                    liquidity: pre.liquidity,
                    amount_a_min: pre.ordered_min().0,
                    amount_b_min: pre.ordered_min().1,
                    to: pre.cfg.router_id,
                    deadline: pre.deadline,
                })
            },
            (
                RemoveLiquidityVaraStage::Removing { .. },
                Reply::LiquidityRemoved { amount_a, amount_b },
            ) => {
                &&& post.stage == (RemoveLiquidityVaraStage::TransferringToken {
                    amount_a,
                    amount_b,
                })
                &&& cmd == (Command::TokenTransfer {
                    token: pre.token,
                    from: pre.cfg.router_id,
                    to: pre.to,
                    amount: if pre.token_first() {
                        amount_a
                    } else {
                        amount_b
                    },
                })
            },
            (RemoveLiquidityVaraStage::Removing { .. }, Reply::RemoveFailed) => post.stage
                == RemoveLiquidityVaraStage::Finished && cmd == Command::Fail(
                Error::RemovedLiquidityFailed,
            ),
            (
                RemoveLiquidityVaraStage::TransferringToken { amount_a, amount_b },
                Reply::TransferOk,
            ) => {
                &&& post.stage == (RemoveLiquidityVaraStage::Withdrawing { amount_a, amount_b })
                &&& cmd == (Command::WvaraWithdraw {
                    to: pre.to,
                    amount: if pre.token_first() {
                        amount_b
                    } else {
                        amount_a
                    },
                })
            },
            (RemoveLiquidityVaraStage::TransferringToken { .. }, Reply::TransferErr) => post.stage
                == RemoveLiquidityVaraStage::Finished && cmd == Command::Fail(
                Error::TransferFailed,
            ),
            (RemoveLiquidityVaraStage::Withdrawing { amount_a, amount_b }, Reply::WithdrawOk) => {
                &&& post.stage == RemoveLiquidityVaraStage::Finished
                &&& cmd == Command::Complete(
                    Event::RemoveLiquidity {
                        token_a: pre.token_sort().0,
                        token_b: pre.token_sort().1,
                        liquidity: pre.liquidity,
                        amount_a,
                        amount_b,
                    },
                )
            },
            (RemoveLiquidityVaraStage::Withdrawing { .. }, Reply::WithdrawErr) => post.stage
                == RemoveLiquidityVaraStage::Finished && cmd == Command::Fail(
                Error::WithdrawVaraFailed,
            ),
            _ => false,
        }
    }

    /// Opens the workflow: the first call resolves the pair.
    pub fn start(
        cfg: RouterConfig,
        caller: ActorId,
        token: ActorId,
        liquidity: u128,
        amount_token_min: u128,
        amount_vara_min: u128,
        to: ActorId,
        deadline: u64,
    ) -> (r: (RemoveLiquidityVaraFlow, Command))
        ensures
            r.0 == (RemoveLiquidityVaraFlow {
                cfg,
                caller,
                token,
                liquidity,
                amount_token_min,
                amount_vara_min,
                to,
                deadline,
                stage: RemoveLiquidityVaraStage::GettingPair,
            }),
            r.1 == (Command::FactoryGetPair { token_a: token, token_b: cfg.wvara }),
    {
        (
            RemoveLiquidityVaraFlow {
                cfg,
                caller,
                token,
                liquidity,
                amount_token_min,
                amount_vara_min,
                to,
                deadline,
                stage: RemoveLiquidityVaraStage::GettingPair,
            },
            Command::FactoryGetPair { token_a: token, token_b: cfg.wvara },
        )
    }

    /// Feeds one reply into the workflow.
    pub fn step(self, reply: Reply) -> (res: (RemoveLiquidityVaraFlow, Command))
        requires
            self.expects(reply),
        ensures
            RemoveLiquidityVaraFlow::steps_to(self, reply, res.0, res.1),
    {
        let sorted = sort_tokens(self.token, self.cfg.wvara);
        let token_first = self.token == sorted.0;
        match (self.stage, reply) {
            (_, Reply::Transport(m)) => (
                RemoveLiquidityVaraFlow { stage: RemoveLiquidityVaraStage::Finished, ..self },
                Command::Fail(Error::GstdError(m)),
            ),
            (RemoveLiquidityVaraStage::GettingPair, Reply::PairFound(pair)) => {
                let cmd = Command::PairTransferFrom {
                    pair,
                    from: self.caller,
                    to: self.cfg.router_id,
                    amount: self.liquidity,
                };
                (
                    RemoveLiquidityVaraFlow {
                        stage: RemoveLiquidityVaraStage::MovingLiquidity { pair },
                        ..self
                    },
                    cmd,
                )
            },
            (RemoveLiquidityVaraStage::GettingPair, Reply::NoPair) => (
                RemoveLiquidityVaraFlow { stage: RemoveLiquidityVaraStage::Finished, ..self },
                Command::Fail(Error::PairNotFound),
            ),
            // Note: as in the plain workflow, a share move reported as
            // successful is treated as the failure branch.
            (RemoveLiquidityVaraStage::MovingLiquidity { .. }, Reply::LiquidityMoved) => (
                RemoveLiquidityVaraFlow { stage: RemoveLiquidityVaraStage::Finished, ..self },
                Command::Fail(Error::TransferFailed),
            ),
            (RemoveLiquidityVaraStage::MovingLiquidity { pair }, Reply::LiquidityMoveFailed) => {
                let amount_min = if self.token == sorted.0 && self.cfg.wvara == sorted.1 {
                    (self.amount_token_min, self.amount_vara_min)
                } else {
                    (self.amount_vara_min, self.amount_token_min)
                };
                let cmd = Command::PairRemoveLiquidity {
                    pair,
                    liquidity: self.liquidity,
                    amount_a_min: amount_min.0,
                    amount_b_min: amount_min.1,
                    to: self.cfg.router_id,
                    deadline: self.deadline,
                };
                (
                    RemoveLiquidityVaraFlow {
                        stage: RemoveLiquidityVaraStage::Removing { pair },
                        ..self
                    },
                    cmd,
                )
            },
            (
                RemoveLiquidityVaraStage::Removing { .. },
                Reply::LiquidityRemoved { amount_a, amount_b },
            ) => {
                let cmd = Command::TokenTransfer {
                    token: self.token,
                    from: self.cfg.router_id,
                    to: self.to,
                    amount: if token_first {
                        amount_a
                    } else {
                        amount_b
                    },
                };
                (
                    RemoveLiquidityVaraFlow {
                        stage: RemoveLiquidityVaraStage::TransferringToken { amount_a, amount_b },
                        ..self
                    },
                    cmd,
                )
            },
            (RemoveLiquidityVaraStage::Removing { .. }, Reply::RemoveFailed) => (
                RemoveLiquidityVaraFlow { stage: RemoveLiquidityVaraStage::Finished, ..self },
                Command::Fail(Error::RemovedLiquidityFailed),
            ),
            (
                RemoveLiquidityVaraStage::TransferringToken { amount_a, amount_b },
                Reply::TransferOk,
            ) => {
                let cmd = Command::WvaraWithdraw {
                    to: self.to,
                    amount: if token_first {
                        amount_b
                    } else {
                        amount_a
                    },
                };
                (
                    RemoveLiquidityVaraFlow {
                        stage: RemoveLiquidityVaraStage::Withdrawing { amount_a, amount_b },
                        ..self
                    },
                    cmd,
                )
            },
            (RemoveLiquidityVaraStage::TransferringToken { .. }, Reply::TransferErr) => (
                RemoveLiquidityVaraFlow { stage: RemoveLiquidityVaraStage::Finished, ..self },
                Command::Fail(Error::TransferFailed),
            ),
            (RemoveLiquidityVaraStage::Withdrawing { amount_a, amount_b }, Reply::WithdrawOk) => {
                let cmd = Command::Complete(
                    Event::RemoveLiquidity {
                        token_a: sorted.0,
                        token_b: sorted.1,
                        liquidity: self.liquidity,
                        amount_a,
                        amount_b,
                    },
                );
                (
                    RemoveLiquidityVaraFlow { stage: RemoveLiquidityVaraStage::Finished, ..self },
                    cmd,
                )
            },
            (RemoveLiquidityVaraStage::Withdrawing { .. }, Reply::WithdrawErr) => (
                RemoveLiquidityVaraFlow { stage: RemoveLiquidityVaraStage::Finished, ..self },
                Command::Fail(Error::WithdrawVaraFailed),
            ),
            _ => {
                proof {
                    assert(false);
                }
                (
                    RemoveLiquidityVaraFlow { stage: RemoveLiquidityVaraStage::Finished, ..self },
                    Command::Fail(Error::TransferFailed),
                )
            },
        }
    }
}

/// Where the native-currency add-liquidity workflow stands.
#[derive(Clone, Copy, Debug, PartialEq, Eq)]
pub enum AddLiquidityVaraStage {
    GettingPair,
    CreatingPair,
    RefundingCreate,
    AddingLiquidity { pair: ActorId },
    RefundingAdd,
    TransferringToken { pair: ActorId, amount_a: u128, amount_b: u128, liquidity: Amount },
    Depositing {
        pair: ActorId,
        amount_a: u128,
        amount_b: u128,
        liquidity: Amount,
        amount_vara: u128,
    },
    RefundingDeposit,
    SendingWvara {
        pair: ActorId,
        amount_a: u128,
        amount_b: u128,
        liquidity: Amount,
        amount_vara: u128,
    },
    RefundingExcess { amount_a: u128, amount_b: u128, liquidity: Amount },
    Finished,
}

/// The native-currency add-liquidity workflow: resolve or create the
/// pair, ask it to mint, move the plain token from the caller, wrap the
/// needed share of the attached native value and send it to the pair,
/// refunding the whole attached value when the pair cannot be created or
/// will not mint, and any excess at the end.
#[derive(Clone, Copy, Debug)]
pub struct AddLiquidityVaraFlow {
    pub cfg: RouterConfig,
    pub caller: ActorId,
    pub token: ActorId,
    pub amount_token_desired: u128,
    pub amount_token_min: u128,
    pub amount_vara_min: u128,
    pub to: ActorId,
    pub deadline: u64,
    pub attached: u128,
    pub stage: AddLiquidityVaraStage,
}

impl AddLiquidityVaraFlow {
    pub open spec fn token_sort(self) -> (ActorId, ActorId) {
        spec_sort_tokens(self.token, self.cfg.wvara)
    }

    pub open spec fn wvara_first(self) -> bool {
        self.token_sort().0 == self.cfg.wvara
    }

    /// Desired amounts and minimums in the sorted order the pair expects.
    pub open spec fn ordered(self) -> ((u128, u128), (u128, u128)) {
        if self.token_sort() == (self.token, self.cfg.wvara) {
            (
                (self.amount_token_desired, self.attached),
                (self.amount_token_min, self.amount_vara_min),
            )
        } else {
            (
                (self.attached, self.amount_token_desired),
                (self.amount_vara_min, self.amount_token_min),
            )
        }
    }

    pub open spec fn same_params(self, other: AddLiquidityVaraFlow) -> bool {
        &&& other.cfg == self.cfg
        &&& other.caller == self.caller
        &&& other.token == self.token
        &&& other.amount_token_desired == self.amount_token_desired
        &&& other.amount_token_min == self.amount_token_min
        &&& other.amount_vara_min == self.amount_vara_min
        &&& other.to == self.to
        &&& other.deadline == self.deadline
        &&& other.attached == self.attached
    }

    pub open spec fn expects(self, reply: Reply) -> bool {
        match (self.stage, reply) {
            (AddLiquidityVaraStage::Finished, _) => false,
            (_, Reply::Transport(_)) => true,
            (AddLiquidityVaraStage::GettingPair, Reply::PairFound(_)) => true,
            (AddLiquidityVaraStage::GettingPair, Reply::NoPair) => true,
            (AddLiquidityVaraStage::CreatingPair, Reply::PairCreated(_)) => true,
            (AddLiquidityVaraStage::CreatingPair, Reply::CreateFailed) => true,
            (AddLiquidityVaraStage::RefundingCreate, Reply::RefundDone) => true,
            (
                AddLiquidityVaraStage::AddingLiquidity { .. },
                Reply::LiquidityAdded { liquidity, .. },
            ) => liquidity@ < pow128(),
            (AddLiquidityVaraStage::AddingLiquidity { .. }, Reply::AddFailed) => true,
            (AddLiquidityVaraStage::RefundingAdd, Reply::RefundDone) => true,
            (AddLiquidityVaraStage::TransferringToken { .. }, Reply::TransferOk) => true,
            (AddLiquidityVaraStage::TransferringToken { .. }, Reply::TransferErr) => true,
            (AddLiquidityVaraStage::Depositing { .. }, Reply::DepositOk) => true,
            (AddLiquidityVaraStage::Depositing { .. }, Reply::DepositErr) => true,
            (AddLiquidityVaraStage::RefundingDeposit, Reply::RefundDone) => true,
            (AddLiquidityVaraStage::SendingWvara { .. }, Reply::WvaraTransferOk) => true,
            (AddLiquidityVaraStage::SendingWvara { .. }, Reply::WvaraTransferErr) => true,
            (AddLiquidityVaraStage::RefundingExcess { .. }, Reply::RefundDone) => true,
            _ => false,
        }
    }

    pub open spec fn completion(self, amount_a: u128, amount_b: u128, liquidity: Amount) -> Command {
        Command::Complete(
            Event::AddLiquidity {
                token_a: self.token_sort().0,
                token_b: self.token_sort().1,
                liquidity: liquidity.lo,
                amount_a,
                amount_b,
            },
        )
    }

    pub open spec fn steps_to(
        pre: AddLiquidityVaraFlow,
        reply: Reply,
        post: AddLiquidityVaraFlow,
        cmd: Command,
    ) -> bool {
        &&& pre.same_params(post)
        &&& match (pre.stage, reply) {
            (_, Reply::Transport(m)) => post.stage == AddLiquidityVaraStage::Finished && cmd
                == Command::Fail(Error::GstdError(m)),
            (AddLiquidityVaraStage::GettingPair, Reply::PairFound(pair)) => pre.mint_step(
                pair,
                post,
                cmd,
            ),
            (AddLiquidityVaraStage::GettingPair, Reply::NoPair) => post.stage
                == AddLiquidityVaraStage::CreatingPair && cmd == (Command::FactoryCreatePair {
                token_a: pre.token,
                token_b: pre.cfg.wvara,
            }),
            (AddLiquidityVaraStage::CreatingPair, Reply::PairCreated(pair)) => pre.mint_step(
                pair,
                post,
                cmd,
            ),
            (AddLiquidityVaraStage::CreatingPair, Reply::CreateFailed) => post.stage
                == AddLiquidityVaraStage::RefundingCreate && cmd == (Command::RefundNative {
                to: pre.caller,
                amount: pre.attached,
            }),
            (AddLiquidityVaraStage::RefundingCreate, Reply::RefundDone) => post.stage
                == AddLiquidityVaraStage::Finished && cmd == Command::Fail(
                Error::PairCreationFailed,
            ),
            (
                AddLiquidityVaraStage::AddingLiquidity { pair },
                Reply::LiquidityAdded { amount_a, amount_b, liquidity },
            ) => {
                &&& post.stage == (AddLiquidityVaraStage::TransferringToken {
                    pair,
                    amount_a,
                    amount_b,
                    liquidity,
                })
                &&& cmd == (Command::TokenTransfer {
                    token: pre.token,
                    from: pre.caller,
                    to: pair,
                    amount: pre.amount_token_desired,
                })
            },
            (AddLiquidityVaraStage::AddingLiquidity { .. }, Reply::AddFailed) => post.stage
                == AddLiquidityVaraStage::RefundingAdd && cmd == (Command::RefundNative {
                to: pre.caller,
                amount: pre.attached,
            }),
            (AddLiquidityVaraStage::RefundingAdd, Reply::RefundDone) => post.stage
                == AddLiquidityVaraStage::Finished && cmd == Command::Fail(
                Error::AddLiquidityFailed,
            ),
            (
                AddLiquidityVaraStage::TransferringToken { pair, amount_a, amount_b, liquidity },
                Reply::TransferOk,
            ) => {
                let amount_vara = if pre.wvara_first() {
                    amount_a
                } else {
                    amount_b
                };
                &&& post.stage == (AddLiquidityVaraStage::Depositing {
                    pair,
                    amount_a,
                    amount_b,
                    liquidity,
                    amount_vara,
                })
                &&& cmd == (Command::WvaraDeposit { value: amount_vara })
            },
            (AddLiquidityVaraStage::TransferringToken { .. }, Reply::TransferErr) => post.stage
                == AddLiquidityVaraStage::Finished && cmd == Command::Fail(Error::TransferFailed),
            (
                AddLiquidityVaraStage::Depositing { pair, amount_a, amount_b, liquidity, amount_vara },
                Reply::DepositOk,
            ) => {
                &&& post.stage == (AddLiquidityVaraStage::SendingWvara {
                    pair,
                    amount_a,
                    amount_b,
                    liquidity,
                    amount_vara,
                })
                &&& cmd == (Command::WvaraTransfer {
                    from: pre.cfg.router_id,
                    to: pair,
                    amount: amount_vara,
                })
            },
            (AddLiquidityVaraStage::Depositing { .. }, Reply::DepositErr) => post.stage
                == AddLiquidityVaraStage::RefundingDeposit && cmd == (Command::RefundNative {
                to: pre.caller,
                amount: pre.attached,
            }),
            (AddLiquidityVaraStage::RefundingDeposit, Reply::RefundDone) => post.stage
                == AddLiquidityVaraStage::Finished && cmd == Command::Fail(
                Error::DepositVaraFailed,
            ),
            (
                AddLiquidityVaraStage::SendingWvara { amount_a, amount_b, liquidity, amount_vara, .. },
                Reply::WvaraTransferOk,
            ) => {
                if pre.attached > amount_vara {
                    &&& post.stage == (AddLiquidityVaraStage::RefundingExcess {
                        amount_a,
                        amount_b,
                        liquidity,
                    })
                    &&& cmd == (Command::RefundNative {
                        to: pre.caller,
                        amount: (pre.attached - amount_vara) as u128,
                    })
                } else {
                    &&& post.stage == AddLiquidityVaraStage::Finished
                    &&& cmd == pre.completion(amount_a, amount_b, liquidity)
                }
            },
            (AddLiquidityVaraStage::SendingWvara { .. }, Reply::WvaraTransferErr) => post.stage
                == AddLiquidityVaraStage::Finished && cmd == Command::Fail(Error::TransferFailed),
            (
                AddLiquidityVaraStage::RefundingExcess { amount_a, amount_b, liquidity },
                Reply::RefundDone,
            ) => post.stage == AddLiquidityVaraStage::Finished && cmd == pre.completion(
                amount_a,
                amount_b,
                liquidity,
            ),
            _ => false,
        }
    }

    /// The step into asking the resolved pair to mint liquidity.
    pub open spec fn mint_step(self, pair: ActorId, post: AddLiquidityVaraFlow, cmd: Command) -> bool {
        &&& post.stage == (AddLiquidityVaraStage::AddingLiquidity { pair })
        &&& cmd == (Command::PairAddLiquidity {
            pair,
            amount_a_desired: self.ordered().0.0,
            amount_b_desired: self.ordered().0.1,
            amount_a_min: self.ordered().1.0,
            amount_b_min: self.ordered().1.1,
            to: self.to,
            deadline: self.deadline,
        })
    }

    /// Opens the workflow: the first call resolves the pair.
    pub fn start(
        cfg: RouterConfig,
        caller: ActorId,
        token: ActorId,
        amount_token_desired: u128,
        amount_token_min: u128,
        amount_vara_min: u128,
        to: ActorId,
        deadline: u64,
        attached: u128,
    ) -> (r: (AddLiquidityVaraFlow, Command))
        ensures
            r.0 == (AddLiquidityVaraFlow {
                cfg,
                caller,
                token,
                amount_token_desired,
                amount_token_min,
                amount_vara_min,
                to,
                deadline,
                attached,
                stage: AddLiquidityVaraStage::GettingPair,
            }),
            r.1 == (Command::FactoryGetPair { token_a: token, token_b: cfg.wvara }),
    {
        (
            AddLiquidityVaraFlow {
                cfg,
                caller,
                token,
                amount_token_desired,
                amount_token_min,
                amount_vara_min,
                to,
                deadline,
                attached,
                stage: AddLiquidityVaraStage::GettingPair,
            },
            Command::FactoryGetPair { token_a: token, token_b: cfg.wvara },
        )
    }

    /// Feeds one reply into the workflow.
    pub fn step(self, reply: Reply) -> (res: (AddLiquidityVaraFlow, Command))
        requires
            self.expects(reply),
        ensures
            AddLiquidityVaraFlow::steps_to(self, reply, res.0, res.1),
    {
        let sorted = sort_tokens(self.token, self.cfg.wvara);
        match (self.stage, reply) {
            (_, Reply::Transport(m)) => (
                AddLiquidityVaraFlow { stage: AddLiquidityVaraStage::Finished, ..self },
                Command::Fail(Error::GstdError(m)),
            ),
            (AddLiquidityVaraStage::GettingPair, Reply::PairFound(pair)) => self.mint_transition(
                pair,
            ),
            (AddLiquidityVaraStage::GettingPair, Reply::NoPair) => {
                let cmd = Command::FactoryCreatePair {
                    token_a: self.token,
                    token_b: self.cfg.wvara,
                };
                (AddLiquidityVaraFlow { stage: AddLiquidityVaraStage::CreatingPair, ..self }, cmd)
            },
            (AddLiquidityVaraStage::CreatingPair, Reply::PairCreated(pair)) => self
                .mint_transition(pair),
            (AddLiquidityVaraStage::CreatingPair, Reply::CreateFailed) => {
                let cmd = Command::RefundNative { to: self.caller, amount: self.attached };
                (AddLiquidityVaraFlow { stage: AddLiquidityVaraStage::RefundingCreate, ..self }, cmd)
            },
            (AddLiquidityVaraStage::RefundingCreate, Reply::RefundDone) => (
                AddLiquidityVaraFlow { stage: AddLiquidityVaraStage::Finished, ..self },
                Command::Fail(Error::PairCreationFailed),
            ),
            (
                AddLiquidityVaraStage::AddingLiquidity { pair },
                Reply::LiquidityAdded { amount_a, amount_b, liquidity },
            ) => {
                let cmd = Command::TokenTransfer {
                    token: self.token,
                    from: self.caller,
                    to: pair,
                    amount: self.amount_token_desired,
                };
                (
                    AddLiquidityVaraFlow {
                        stage: AddLiquidityVaraStage::TransferringToken {
                            pair,
                            amount_a,
                            amount_b,
                            liquidity,
                        },
                        ..self
                    },
                    cmd,
                )
            },
            (AddLiquidityVaraStage::AddingLiquidity { .. }, Reply::AddFailed) => {
                let cmd = Command::RefundNative { to: self.caller, amount: self.attached };
                (AddLiquidityVaraFlow { stage: AddLiquidityVaraStage::RefundingAdd, ..self }, cmd)
            },
            (AddLiquidityVaraStage::RefundingAdd, Reply::RefundDone) => (
                AddLiquidityVaraFlow { stage: AddLiquidityVaraStage::Finished, ..self },
                Command::Fail(Error::AddLiquidityFailed),
            ),
            (
                AddLiquidityVaraStage::TransferringToken { pair, amount_a, amount_b, liquidity },
                Reply::TransferOk,
            ) => {
                let amount_vara = if sorted.0 == self.cfg.wvara {
                    amount_a
                } else {
                    amount_b
                };
                let cmd = Command::WvaraDeposit { value: amount_vara };
                (
                    AddLiquidityVaraFlow {
                        stage: AddLiquidityVaraStage::Depositing {
                            pair,
                            amount_a,
                            amount_b,
                            liquidity,
                            amount_vara,
                        },
                        ..self
                    },
                    cmd,
                )
            },
            (AddLiquidityVaraStage::TransferringToken { .. }, Reply::TransferErr) => (
                AddLiquidityVaraFlow { stage: AddLiquidityVaraStage::Finished, ..self },
                Command::Fail(Error::TransferFailed),
            ),
            (
                AddLiquidityVaraStage::Depositing { pair, amount_a, amount_b, liquidity, amount_vara },
                Reply::DepositOk,
            ) => {
                let cmd = Command::WvaraTransfer {
                    from: self.cfg.router_id,
                    to: pair,
                    amount: amount_vara,
                };
                (
                    AddLiquidityVaraFlow {
                        stage: AddLiquidityVaraStage::SendingWvara {
                            pair,
                            amount_a,
                            amount_b,
                            liquidity,
                            amount_vara,
                        },
                        ..self
                    },
                    cmd,
                )
            },
            (AddLiquidityVaraStage::Depositing { .. }, Reply::DepositErr) => {
                let cmd = Command::RefundNative { to: self.caller, amount: self.attached };
                (
                    AddLiquidityVaraFlow { stage: AddLiquidityVaraStage::RefundingDeposit, ..self },
                    cmd,
                )
            },
            (AddLiquidityVaraStage::RefundingDeposit, Reply::RefundDone) => (
                AddLiquidityVaraFlow { stage: AddLiquidityVaraStage::Finished, ..self },
                Command::Fail(Error::DepositVaraFailed),
            ),
            (
                AddLiquidityVaraStage::SendingWvara { amount_a, amount_b, liquidity, amount_vara, .. },
                Reply::WvaraTransferOk,
            ) => {
                if self.attached > amount_vara {
                    let cmd = Command::RefundNative {
                        to: self.caller,
                        amount: self.attached - amount_vara,
                    };
                    (
                        AddLiquidityVaraFlow {
                            stage: AddLiquidityVaraStage::RefundingExcess {
                                amount_a,
                                amount_b,
                                liquidity,
                            },
                            ..self
                        },
                        cmd,
                    )
                } else {
                    let cmd = Command::Complete(
                        Event::AddLiquidity {
                            token_a: sorted.0,
                            token_b: sorted.1,
                            liquidity: liquidity.lo,
                            amount_a,
                            amount_b,
                        },
                    );
                    (AddLiquidityVaraFlow { stage: AddLiquidityVaraStage::Finished, ..self }, cmd)
                }
            },
            (AddLiquidityVaraStage::SendingWvara { .. }, Reply::WvaraTransferErr) => (
                AddLiquidityVaraFlow { stage: AddLiquidityVaraStage::Finished, ..self },
                Command::Fail(Error::TransferFailed),
            ),
            (
                AddLiquidityVaraStage::RefundingExcess { amount_a, amount_b, liquidity },
                Reply::RefundDone,
            ) => {
                let cmd = Command::Complete(
                    Event::AddLiquidity {
                        token_a: sorted.0,
                        token_b: sorted.1,
                        liquidity: liquidity.lo,
                        amount_a,
                        amount_b,
                    },
                );
                (AddLiquidityVaraFlow { stage: AddLiquidityVaraStage::Finished, ..self }, cmd)
            },
            _ => {
                proof {
                    assert(false);
                }
                (
                    AddLiquidityVaraFlow { stage: AddLiquidityVaraStage::Finished, ..self },
                    Command::Fail(Error::TransferFailed),
                )
            },
        }
    }

    /// Builds the mint request against the resolved pair.
    fn mint_transition(self, pair: ActorId) -> (res: (AddLiquidityVaraFlow, Command))
        ensures
            self.mint_step(pair, res.0, res.1),
            self.same_params(res.0),
    {
        let sorted = sort_tokens(self.token, self.cfg.wvara);
        let (amount_desired, amount_min) = if self.token == sorted.0 && self.cfg.wvara
            == sorted.1 {
            (
                (self.amount_token_desired, self.attached),
                (self.amount_token_min, self.amount_vara_min),
            )
        } else {
            (
                (self.attached, self.amount_token_desired),
                (self.amount_vara_min, self.amount_token_min),
            )
        };
        let cmd = Command::PairAddLiquidity {
            pair,
            amount_a_desired: amount_desired.0,
            amount_b_desired: amount_desired.1,
            amount_a_min: amount_min.0,
            amount_b_min: amount_min.1,
            to: self.to,
            deadline: self.deadline,
        };
        (AddLiquidityVaraFlow { stage: AddLiquidityVaraStage::AddingLiquidity { pair }, ..self }, cmd)
    }
}

/// Every successful exact-out walk yields one amount per token of the
/// path, ending with the requested output.
pub proof fn lemma_amounts_in_shape(amount_out: u128, reserves: Seq<(u128, u128)>)
    ensures
        match spec_amounts_in(amount_out, reserves) {
            Ok(s) => s.len() == reserves.len() + 1 && s.last() == amount_out,
            Err(_) => true,
        },
    decreases reserves.len(),
{
    if reserves.len() > 0 {
        match spec_calculate_in_amount(
            amount_out as int,
            reserves.last().0 as int,
            reserves.last().1 as int,
        ) {
            Ok(prev) => {
                lemma_amounts_in_shape(prev, reserves.drop_last());
            },
            Err(_) => {},
        }
    }
}

/// Which of the six swap entry points a flow serves.
#[derive(Clone, Copy, Debug, PartialEq, Eq, Structural)]
pub enum SwapVariant {
    ExactTokensForTokens,
    TokensForExactTokens,
    ExactVaraForTokens,
    TokensForExactVara,
    ExactTokensForVara,
    VaraForExactTokens,
}

/// The fixed side of the quote and the caller's slippage bound.
#[derive(Clone, Copy, Debug, PartialEq, Eq, Structural)]
pub enum SwapQuote {
    ExactIn { amount_in: u128, amount_out_min: u128 },
    ExactOut { amount_out: u128, amount_in_max: u128 },
}

/// Where a swap workflow stands between two replies.
#[derive(Clone, Copy, Debug, PartialEq, Eq)]
pub enum SwapStage {
    QuotePair { hop: usize },
    QuoteReserves { hop: usize, pair: ActorId },
    FirstPair,
    Depositing { pair: ActorId },
    SendingWvaraIn { pair: ActorId },
    SendingTokenIn { pair: ActorId },
    HopPair { hop: usize },
    HopNextPair { hop: usize, pair: ActorId },
    HopSwap { hop: usize },
    Withdrawing,
    RefundingDust,
    Finished,
}

/// A swap workflow: fetch each hop's reserves, quote the whole amount
/// sequence, enforce the slippage bound, move the input to the first
/// pair (wrapping native value when needed), then drive one pair-level
/// swap per hop, each pair forwarding straight to the next, unwrapping or
/// refunding at the end as the variant demands.
#[derive(Debug)]
pub struct SwapFlow {
    pub cfg: RouterConfig,
    pub variant: SwapVariant,
    pub caller: ActorId,
    pub to: ActorId,
    pub path: Vec<ActorId>,
    pub quote: SwapQuote,
    pub attached: u128,
    pub reserves: Vec<(u128, u128)>,
    pub amounts: Vec<u128>,
    pub stage: SwapStage,
}

impl SwapFlow {
    pub open spec fn native_in(self) -> bool {
        self.variant == SwapVariant::ExactVaraForTokens || self.variant
            == SwapVariant::VaraForExactTokens
    }

    pub open spec fn native_out(self) -> bool {
        self.variant == SwapVariant::TokensForExactVara || self.variant
            == SwapVariant::ExactTokensForVara
    }

    pub open spec fn refunds_dust(self) -> bool {
        self.variant == SwapVariant::VaraForExactTokens
    }

    pub open spec fn wf(self) -> bool {
        &&& self.path@.len() >= 2
        &&& self.path@.len() <= usize::MAX
        &&& match self.stage {
            SwapStage::QuotePair { hop } => hop < self.path@.len() - 1 && self.reserves@.len()
                == hop,
            SwapStage::QuoteReserves { hop, .. } => hop < self.path@.len() - 1
                && self.reserves@.len() == hop,
            SwapStage::FirstPair => self.amounts@.len() == self.path@.len(),
            SwapStage::Depositing { .. } => self.amounts@.len() == self.path@.len(),
            SwapStage::SendingWvaraIn { .. } => self.amounts@.len() == self.path@.len(),
            SwapStage::SendingTokenIn { .. } => self.amounts@.len() == self.path@.len(),
            SwapStage::HopPair { hop } => hop < self.path@.len() - 1 && self.amounts@.len()
                == self.path@.len(),
            SwapStage::HopNextPair { hop, .. } => hop < self.path@.len() - 2
                && self.amounts@.len() == self.path@.len(),
            SwapStage::HopSwap { hop } => hop < self.path@.len() - 1 && self.amounts@.len()
                == self.path@.len(),
            SwapStage::Withdrawing => self.amounts@.len() == self.path@.len(),
            SwapStage::RefundingDust => self.amounts@.len() == self.path@.len(),
            SwapStage::Finished => true,
        }
    }

    pub open spec fn same_params(self, other: SwapFlow) -> bool {
        &&& other.cfg == self.cfg
        &&& other.variant == self.variant
        &&& other.caller == self.caller
        &&& other.to == self.to
        &&& other.quote == self.quote
        &&& other.attached == self.attached
    }

    /// The continuing arms carry the path, reserves and amounts along.
    pub open spec fn keeps_vecs(self, other: SwapFlow) -> bool {
        &&& other.path@ == self.path@
        &&& other.reserves@ == self.reserves@
        &&& other.amounts@ == self.amounts@
    }

    /// A hop's reserves in path order, from the pair's reply.
    pub open spec fn oriented(self, hop: int, reserve_a: u128, reserve_b: u128) -> (u128, u128) {
        if self.path@[hop] == spec_sort_tokens(self.path@[hop], self.path@[hop + 1]).0 {
            (reserve_a, reserve_b)
        } else {
            (reserve_b, reserve_a)
        }
    }

    /// The full amount sequence the variant's quote computes.
    pub open spec fn quote_result(self, rs: Seq<(u128, u128)>) -> Result<Seq<u128>, PairError> {
        match self.quote {
            SwapQuote::ExactIn { amount_in, .. } => spec_amounts_out(amount_in, rs),
            SwapQuote::ExactOut { amount_out, .. } => spec_amounts_in(amount_out, rs),
        }
    }

    /// The slippage error the quoted amounts run into, if any.
    pub open spec fn slippage(self, s: Seq<u128>) -> Option<Error> {
        match self.quote {
            SwapQuote::ExactIn { amount_out_min, .. } => if s.last() < amount_out_min {
                Some(Error::InsufficientOutputAmount)
            } else {
                None
            },
            SwapQuote::ExactOut { amount_in_max, .. } => if s[0] > amount_in_max {
                Some(Error::ExcessiveInputAmount)
            } else {
                None
            },
        }
    }

    /// Whether a hop trades in the canonical direction.
    pub open spec fn hop_a_to_b(self, hop: int) -> bool {
        self.path@[hop] == spec_sort_tokens(self.path@[hop], self.path@[hop + 1]).0
    }

    /// The event the variant completes with, up to the identity of the
    /// carried vectors.
    pub open spec fn event_matches(self, ev: Event) -> bool {
        match (self.variant, ev) {
            (
                SwapVariant::ExactTokensForTokens,
                Event::SwapExactTokensForTokens { amount_in, amount_out, path, amounts },
            ) => amount_in == self.amounts@[0] && amount_out == self.amounts@.last() && path@
                == self.path@ && amounts@ == self.amounts@,
            (
                SwapVariant::TokensForExactTokens,
                Event::SwapTokensForExactTokens { amount_in, amount_out, path, amounts },
            ) => amount_in == self.amounts@[0] && amount_out == self.amounts@.last() && path@
                == self.path@ && amounts@ == self.amounts@,
            (
                SwapVariant::ExactVaraForTokens,
                Event::SwapExactVARAForTokens { amount_in, amount_out, path, amounts },
            ) => amount_in == self.amounts@[0] && amount_out == self.amounts@.last() && path@
                == self.path@ && amounts@ == self.amounts@,
            (
                SwapVariant::TokensForExactVara,
                Event::SwapTokensForExactVARA { amount_in, amount_out, path, amounts },
            ) => amount_in == self.amounts@[0] && amount_out == self.amounts@.last() && path@
                == self.path@ && amounts@ == self.amounts@,
            (
                SwapVariant::ExactTokensForVara,
                Event::SwapExactTokensForVARA { amount_in, amount_out, path, amounts },
            ) => amount_in == self.amounts@[0] && amount_out == self.amounts@.last() && path@
                == self.path@ && amounts@ == self.amounts@,
            (
                SwapVariant::VaraForExactTokens,
                Event::SwapVARAForExactTokens { amount_in, amount_out, path, amounts },
            ) => amount_in == self.amounts@[0] && amount_out == self.amounts@.last() && path@
                == self.path@ && amounts@ == self.amounts@,
            _ => false,
        }
    }

    pub open spec fn expects(self, reply: Reply) -> bool {
        match (self.stage, reply) {
            (SwapStage::Finished, _) => false,
            (_, Reply::Transport(_)) => true,
            (SwapStage::QuotePair { .. }, Reply::PairFound(_)) => true,
            (SwapStage::QuotePair { .. }, Reply::NoPair) => true,
            (SwapStage::QuoteReserves { .. }, Reply::ReservesFound { .. }) => true,
            (SwapStage::QuoteReserves { .. }, Reply::ReservesFailed) => true,
            (SwapStage::FirstPair, Reply::PairFound(_)) => true,
            (SwapStage::FirstPair, Reply::NoPair) => true,
            (SwapStage::Depositing { .. }, Reply::DepositOk) => true,
            (SwapStage::Depositing { .. }, Reply::DepositErr) => true,
            (SwapStage::SendingWvaraIn { .. }, Reply::WvaraTransferOk) => true,
            (SwapStage::SendingWvaraIn { .. }, Reply::WvaraTransferErr) => true,
            (SwapStage::SendingTokenIn { .. }, Reply::TransferOk) => true,
            (SwapStage::SendingTokenIn { .. }, Reply::TransferErr) => true,
            (SwapStage::HopPair { .. }, Reply::PairFound(_)) => true,
            (SwapStage::HopPair { .. }, Reply::NoPair) => true,
            (SwapStage::HopNextPair { .. }, Reply::PairFound(_)) => true,
            (SwapStage::HopNextPair { .. }, Reply::NoPair) => true,
            (SwapStage::HopSwap { .. }, Reply::SwapOk) => true,
            (SwapStage::HopSwap { .. }, Reply::SwapErr(_)) => true,
            (SwapStage::Withdrawing, Reply::WithdrawOk) => true,
            (SwapStage::Withdrawing, Reply::WithdrawErr) => true,
            (SwapStage::RefundingDust, Reply::RefundDone) => true,
            _ => false,
        }
    }

    /// What follows the last pair-level swap: unwrap native output,
    /// refund unneeded attached value, or complete.
    ///
    /// Note: on the native-output variants the last hop has already paid
    /// its output to the final recipient, yet the withdraw command that
    /// follows debits the router's own wrapped-native balance, which this
    /// path never funds; the unwrap can then only fail. The source
    /// behaves the same way, and is kept as it is rather than silently
    /// redirected.
    pub open spec fn finish_step(pre: SwapFlow, post: SwapFlow, cmd: Command) -> bool {
        if pre.native_out() {
            &&& post.stage == SwapStage::Withdrawing
            &&& pre.keeps_vecs(post)
            &&& cmd == (Command::WvaraWithdraw { to: pre.to, amount: pre.amounts@.last() })
        } else if pre.refunds_dust() && pre.attached > pre.amounts@[0] {
            &&& post.stage == SwapStage::RefundingDust
            &&& pre.keeps_vecs(post)
            &&& cmd == (Command::RefundNative {
                to: pre.caller,
                amount: (pre.attached - pre.amounts@[0]) as u128,
            })
        } else {
            &&& post.stage == SwapStage::Finished
            &&& (cmd matches Command::Complete(ev) && pre.event_matches(ev))
        }
    }

    pub open spec fn steps_to(pre: SwapFlow, reply: Reply, post: SwapFlow, cmd: Command) -> bool {
        &&& pre.same_params(post)
        &&& match (pre.stage, reply) {
            (_, Reply::Transport(m)) => post.stage == SwapStage::Finished && cmd == Command::Fail(
                Error::GstdError(m),
            ),
            (SwapStage::QuotePair { hop }, Reply::PairFound(pair)) => {
                &&& post.stage == (SwapStage::QuoteReserves { hop, pair })
                &&& pre.keeps_vecs(post)
                &&& cmd == (Command::PairGetReserves {
                    pair,
                    token_a: pre.path@[hop as int],
                    token_b: pre.path@[hop + 1],
                })
            },
            (SwapStage::QuotePair { .. }, Reply::NoPair) => post.stage == SwapStage::Finished
                && cmd == Command::Fail(Error::GetPairFailed),
            (
                SwapStage::QuoteReserves { hop, .. },
                Reply::ReservesFound { reserve_a, reserve_b },
            ) => {
                let rs = pre.reserves@.push(pre.oriented(hop as int, reserve_a, reserve_b));
                &&& post.path@ == pre.path@
                &&& if hop + 1 < pre.path@.len() - 1 {
                    &&& post.stage == (SwapStage::QuotePair { hop: (hop + 1) as usize })
                    &&& post.reserves@ == rs
                    &&& post.amounts@ == pre.amounts@
                    &&& cmd == (Command::FactoryGetPair {
                        token_a: pre.path@[hop + 1],
                        token_b: pre.path@[hop + 2],
                    })
                } else {
                    match pre.quote_result(rs) {
                        Err(e) => post.stage == SwapStage::Finished && cmd == Command::Fail(
                            Error::LPPairError(e),
                        ),
                        Ok(s) => match pre.slippage(s) {
                            Some(e) => post.stage == SwapStage::Finished && cmd == Command::Fail(
                                e,
                            ),
                            None => {
                                &&& post.stage == SwapStage::FirstPair
                                &&& post.reserves@ == rs
                                &&& post.amounts@ == s
                                &&& cmd == (Command::FactoryGetPair {
                                    token_a: pre.path@[0],
                                    token_b: pre.path@[1],
                                })
                            },
                        },
                    }
                }
            },
            (SwapStage::QuoteReserves { .. }, Reply::ReservesFailed) => post.stage
                == SwapStage::Finished && cmd == Command::Fail(Error::GetReservesFailed),
            (SwapStage::FirstPair, Reply::PairFound(pair)) => {
                &&& pre.keeps_vecs(post)
                &&& if pre.native_in() {
                    &&& post.stage == (SwapStage::Depositing { pair })
                    &&& cmd == (Command::WvaraDeposit { value: pre.amounts@[0] })
                } else {
                    &&& post.stage == (SwapStage::SendingTokenIn { pair })
                    &&& cmd == (Command::TokenTransfer {
                        token: pre.path@[0],
                        from: pre.caller,
                        to: pair,
                        amount: pre.amounts@[0],
                    })
                }
            },
            (SwapStage::FirstPair, Reply::NoPair) => post.stage == SwapStage::Finished && cmd
                == Command::Fail(Error::GetPairFailed),
            (SwapStage::Depositing { pair }, Reply::DepositOk) => {
                &&& post.stage == (SwapStage::SendingWvaraIn { pair })
                &&& pre.keeps_vecs(post)
                &&& cmd == (Command::WvaraTransfer {
                    from: pre.cfg.router_id,
                    to: pair,
                    amount: pre.amounts@[0],
                })
            },
            (SwapStage::Depositing { .. }, Reply::DepositErr) => post.stage == SwapStage::Finished
                && cmd == Command::Fail(Error::DepositVaraFailed),
            (SwapStage::SendingWvaraIn { .. }, Reply::WvaraTransferOk) => {
                &&& post.stage == (SwapStage::HopPair { hop: 0 })
                &&& pre.keeps_vecs(post)
                &&& cmd == (Command::FactoryGetPair {
                    token_a: pre.path@[0],
                    token_b: pre.path@[1],
                })
            },
            (SwapStage::SendingWvaraIn { .. }, Reply::WvaraTransferErr) => post.stage
                == SwapStage::Finished && cmd == Command::Fail(Error::TransferFailed),
            (SwapStage::SendingTokenIn { .. }, Reply::TransferOk) => {
                &&& post.stage == (SwapStage::HopPair { hop: 0 })
                &&& pre.keeps_vecs(post)
                &&& cmd == (Command::FactoryGetPair {
                    token_a: pre.path@[0],
                    token_b: pre.path@[1],
                })
            },
            (SwapStage::SendingTokenIn { .. }, Reply::TransferErr) => post.stage
                == SwapStage::Finished && cmd == Command::Fail(Error::TransferFailed),
            (SwapStage::HopPair { hop }, Reply::PairFound(pair)) => {
                &&& pre.keeps_vecs(post)
                &&& if hop < pre.path@.len() - 2 {
                    &&& post.stage == (SwapStage::HopNextPair { hop, pair })
                    &&& cmd == (Command::FactoryGetPair {
                        token_a: pre.path@[hop + 1],
                        token_b: pre.path@[hop + 2],
                    })
                } else {
                    &&& post.stage == (SwapStage::HopSwap { hop })
                    &&& cmd == (Command::PairSwap {
                        pair,
                        in_amount: pre.amounts@[hop as int],
                        out_amount: pre.amounts@[hop + 1],
                        to: pre.to,
                        a_to_b: pre.hop_a_to_b(hop as int),
                    })
                }
            },
            (SwapStage::HopPair { .. }, Reply::NoPair) => post.stage == SwapStage::Finished && cmd
                == Command::Fail(Error::PairNotFound),
            (SwapStage::HopNextPair { hop, pair }, Reply::PairFound(next_pair)) => {
                &&& post.stage == (SwapStage::HopSwap { hop })
                &&& pre.keeps_vecs(post)
                &&& cmd == (Command::PairSwap {
                    pair,
                    in_amount: pre.amounts@[hop as int],
                    out_amount: pre.amounts@[hop + 1],
                    to: next_pair,
                    a_to_b: pre.hop_a_to_b(hop as int),
                })
            },
            (SwapStage::HopNextPair { .. }, Reply::NoPair) => post.stage == SwapStage::Finished
                && cmd == Command::Fail(Error::PairNotFound),
            (SwapStage::HopSwap { hop }, Reply::SwapOk) => {
                if hop + 1 < pre.path@.len() - 1 {
                    &&& post.stage == (SwapStage::HopPair { hop: (hop + 1) as usize })
                    &&& pre.keeps_vecs(post)
                    &&& cmd == (Command::FactoryGetPair {
                        token_a: pre.path@[hop + 1],
                        token_b: pre.path@[hop + 2],
                    })
                } else {
                    SwapFlow::finish_step(pre, post, cmd)
                }
            },
            (SwapStage::HopSwap { .. }, Reply::SwapErr(e)) => post.stage == SwapStage::Finished
                && cmd == Command::Fail(Error::LPPairError(e)),
            (SwapStage::Withdrawing, Reply::WithdrawOk) => post.stage == SwapStage::Finished && (
            cmd matches Command::Complete(ev) && pre.event_matches(ev)),
            (SwapStage::Withdrawing, Reply::WithdrawErr) => post.stage == SwapStage::Finished
                && cmd == Command::Fail(Error::WithdrawVaraFailed),
            (SwapStage::RefundingDust, Reply::RefundDone) => post.stage == SwapStage::Finished && (
            cmd matches Command::Complete(ev) && pre.event_matches(ev)),
            _ => false,
        }
    }

    /// Builds the completion event for the variant.
    fn completion_event(variant: SwapVariant, path: Vec<ActorId>, amounts: Vec<u128>) -> (ev:
        Event)
        requires
            amounts@.len() >= 1,
        ensures
            match ev {
                Event::SwapExactTokensForTokens { amount_in, amount_out, path: p, amounts: a } => {
                    &&& variant == SwapVariant::ExactTokensForTokens
                    &&& amount_in == amounts@[0]
                    &&& amount_out == amounts@.last()
                    &&& p == path
                    &&& a == amounts
                },
                Event::SwapTokensForExactTokens { amount_in, amount_out, path: p, amounts: a } => {
                    &&& variant == SwapVariant::TokensForExactTokens
                    &&& amount_in == amounts@[0]
                    &&& amount_out == amounts@.last()
                    &&& p == path
                    &&& a == amounts
                },
                Event::SwapExactVARAForTokens { amount_in, amount_out, path: p, amounts: a } => {
                    &&& variant == SwapVariant::ExactVaraForTokens
                    &&& amount_in == amounts@[0]
                    &&& amount_out == amounts@.last()
                    &&& p == path
                    &&& a == amounts
                },
                Event::SwapTokensForExactVARA { amount_in, amount_out, path: p, amounts: a } => {
                    &&& variant == SwapVariant::TokensForExactVara
                    &&& amount_in == amounts@[0]
                    &&& amount_out == amounts@.last()
                    &&& p == path
                    &&& a == amounts
                },
                Event::SwapExactTokensForVARA { amount_in, amount_out, path: p, amounts: a } => {
                    &&& variant == SwapVariant::ExactTokensForVara
                    &&& amount_in == amounts@[0]
                    &&& amount_out == amounts@.last()
                    &&& p == path
                    &&& a == amounts
                },
                Event::SwapVARAForExactTokens { amount_in, amount_out, path: p, amounts: a } => {
                    &&& variant == SwapVariant::VaraForExactTokens
                    &&& amount_in == amounts@[0]
                    &&& amount_out == amounts@.last()
                    &&& p == path
                    &&& a == amounts
                },
                _ => false,
            },
    {
        let amount_in = amounts[0];
        let amount_out = amounts[amounts.len() - 1];
        match variant {
            SwapVariant::ExactTokensForTokens => Event::SwapExactTokensForTokens {
                amount_in,
                amount_out,
                path,
                amounts,
            },
            SwapVariant::TokensForExactTokens => Event::SwapTokensForExactTokens {
                amount_in,
                amount_out,
                path,
                amounts,
            },
            SwapVariant::ExactVaraForTokens => Event::SwapExactVARAForTokens {
                amount_in,
                amount_out,
                path,
                amounts,
            },
            SwapVariant::TokensForExactVara => Event::SwapTokensForExactVARA {
                amount_in,
                amount_out,
                path,
                amounts,
            },
            SwapVariant::ExactTokensForVara => Event::SwapExactTokensForVARA {
                amount_in,
                amount_out,
                path,
                amounts,
            },
            SwapVariant::VaraForExactTokens => Event::SwapVARAForExactTokens {
                amount_in,
                amount_out,
                path,
                amounts,
            },
        }
    }

    /// Ends the flow with its completion event.
    fn complete(self) -> (res: (SwapFlow, Command))
        requires
            self.amounts@.len() >= 1,
        ensures
            self.same_params(res.0),
            res.0.stage == SwapStage::Finished,
            res.1 matches Command::Complete(ev) && self.event_matches(ev),
            res.0.wf() <== self.path@.len() >= 2,
    {
        let path_copy = self.path.clone();
        let amounts_copy = self.amounts.clone();
        let ev = SwapFlow::completion_event(self.variant, path_copy, amounts_copy);
        let flow = SwapFlow { stage: SwapStage::Finished, ..self };
        (flow, Command::Complete(ev))
    }

    /// Feeds one reply into the workflow.
    #[verifier::rlimit(60)]
    pub fn step(self, reply: Reply) -> (res: (SwapFlow, Command))
        requires
            self.wf(),
            self.expects(reply),
        ensures
            SwapFlow::steps_to(self, reply, res.0, res.1),
            res.0.wf(),
    {
        match (self.stage, reply) {
            (_, Reply::Transport(m)) => (
                SwapFlow { stage: SwapStage::Finished, ..self },
                Command::Fail(Error::GstdError(m)),
            ),
            (SwapStage::QuotePair { hop }, Reply::PairFound(pair)) => {
                let cmd = Command::PairGetReserves {
                    pair,
                    token_a: self.path[hop],
                    token_b: self.path[hop + 1],
                };
                (SwapFlow { stage: SwapStage::QuoteReserves { hop, pair }, ..self }, cmd)
            },
            (SwapStage::QuotePair { .. }, Reply::NoPair) => (
                SwapFlow { stage: SwapStage::Finished, ..self },
                Command::Fail(Error::GetPairFailed),
            ),
            (SwapStage::QuoteReserves { hop, .. }, Reply::ReservesFound { reserve_a, reserve_b }) => {
                let t0 = sort_tokens(self.path[hop], self.path[hop + 1]).0;
                let oriented = if self.path[hop] == t0 {
                    (reserve_a, reserve_b)
                } else {
                    (reserve_b, reserve_a)
                };
                let mut flow = self;
                flow.reserves.push(oriented);
                if hop + 1 < flow.path.len() - 1 {
                    flow.stage = SwapStage::QuotePair { hop: hop + 1 };
                    let cmd = Command::FactoryGetPair {
                        token_a: flow.path[hop + 1],
                        token_b: flow.path[hop + 2],
                    };
                    return (flow, cmd);
                }
                let amounts_res = match flow.quote {
                    SwapQuote::ExactIn { amount_in, .. } => get_amounts_out(
                        amount_in,
                        &flow.path,
                        &flow.reserves,
                    ),
                    SwapQuote::ExactOut { amount_out, .. } => get_amounts_in(
                        amount_out,
                        &flow.path,
                        &flow.reserves,
                    ),
                };
                let amounts = match amounts_res {
                    Ok(v) => v,
                    Err(e) => {
                        flow.stage = SwapStage::Finished;
                        return (flow, Command::Fail(e));
                    },
                };
                proof {
                    match flow.quote {
                        SwapQuote::ExactIn { amount_in, .. } => {
                            lemma_amounts_out_shape(amount_in, flow.reserves@);
                        },
                        SwapQuote::ExactOut { amount_out, .. } => {
                            lemma_amounts_in_shape(amount_out, flow.reserves@);
                        },
                    }
                }
                match flow.quote {
                    SwapQuote::ExactIn { amount_out_min, .. } => {
                        if amounts[amounts.len() - 1] < amount_out_min {
                            flow.stage = SwapStage::Finished;
                            return (flow, Command::Fail(Error::InsufficientOutputAmount));
                        }
                    },
                    SwapQuote::ExactOut { amount_in_max, .. } => {
                        if amounts[0] > amount_in_max {
                            flow.stage = SwapStage::Finished;
                            return (flow, Command::Fail(Error::ExcessiveInputAmount));
                        }
                    },
                }
                flow.amounts = amounts;
                flow.stage = SwapStage::FirstPair;
                let cmd = Command::FactoryGetPair {
                    token_a: flow.path[0],
                    token_b: flow.path[1],
                };
                (flow, cmd)
            },
            (SwapStage::QuoteReserves { .. }, Reply::ReservesFailed) => (
                SwapFlow { stage: SwapStage::Finished, ..self },
                Command::Fail(Error::GetReservesFailed),
            ),
            (SwapStage::FirstPair, Reply::PairFound(pair)) => {
                let native_in = match self.variant {
                    SwapVariant::ExactVaraForTokens => true,
                    SwapVariant::VaraForExactTokens => true,
                    _ => false,
                };
                if native_in {
                    let cmd = Command::WvaraDeposit { value: self.amounts[0] };
                    (SwapFlow { stage: SwapStage::Depositing { pair }, ..self }, cmd)
                } else {
                    let cmd = Command::TokenTransfer {
                        token: self.path[0],
                        from: self.caller,
                        to: pair,
                        amount: self.amounts[0],
                    };
                    (SwapFlow { stage: SwapStage::SendingTokenIn { pair }, ..self }, cmd)
                }
            },
            (SwapStage::FirstPair, Reply::NoPair) => (
                SwapFlow { stage: SwapStage::Finished, ..self },
                Command::Fail(Error::GetPairFailed),
            ),
            (SwapStage::Depositing { pair }, Reply::DepositOk) => {
                let cmd = Command::WvaraTransfer {
                    from: self.cfg.router_id,
                    to: pair,
                    amount: self.amounts[0],
                };
                (SwapFlow { stage: SwapStage::SendingWvaraIn { pair }, ..self }, cmd)
            },
            (SwapStage::Depositing { .. }, Reply::DepositErr) => (
                SwapFlow { stage: SwapStage::Finished, ..self },
                Command::Fail(Error::DepositVaraFailed),
            ),
            (SwapStage::SendingWvaraIn { .. }, Reply::WvaraTransferOk) => {
                let cmd = Command::FactoryGetPair {
                    token_a: self.path[0],
                    token_b: self.path[1],
                };
                (SwapFlow { stage: SwapStage::HopPair { hop: 0 }, ..self }, cmd)
            },
            (SwapStage::SendingWvaraIn { .. }, Reply::WvaraTransferErr) => (
                SwapFlow { stage: SwapStage::Finished, ..self },
                Command::Fail(Error::TransferFailed),
            ),
            (SwapStage::SendingTokenIn { .. }, Reply::TransferOk) => {
                let cmd = Command::FactoryGetPair {
                    token_a: self.path[0],
                    token_b: self.path[1],
                };
                (SwapFlow { stage: SwapStage::HopPair { hop: 0 }, ..self }, cmd)
            },
            (SwapStage::SendingTokenIn { .. }, Reply::TransferErr) => (
                SwapFlow { stage: SwapStage::Finished, ..self },
                Command::Fail(Error::TransferFailed),
            ),
            (SwapStage::HopPair { hop }, Reply::PairFound(pair)) => {
                if hop < self.path.len() - 2 {
                    let cmd = Command::FactoryGetPair {
                        token_a: self.path[hop + 1],
                        token_b: self.path[hop + 2],
                    };
                    (SwapFlow { stage: SwapStage::HopNextPair { hop, pair }, ..self }, cmd)
                } else {
                    let t0 = sort_tokens(self.path[hop], self.path[hop + 1]).0;
                    let cmd = Command::PairSwap {
                        pair,
                        in_amount: self.amounts[hop],
                        out_amount: self.amounts[hop + 1],
                        to: self.to,
                        a_to_b: self.path[hop] == t0,
                    };
                    (SwapFlow { stage: SwapStage::HopSwap { hop }, ..self }, cmd)
                }
            },
            (SwapStage::HopPair { .. }, Reply::NoPair) => (
                SwapFlow { stage: SwapStage::Finished, ..self },
                Command::Fail(Error::PairNotFound),
            ),
            (SwapStage::HopNextPair { hop, pair }, Reply::PairFound(next_pair)) => {
                let t0 = sort_tokens(self.path[hop], self.path[hop + 1]).0;
                let cmd = Command::PairSwap {
                    pair,
                    in_amount: self.amounts[hop],
                    out_amount: self.amounts[hop + 1],
                    to: next_pair,
                    a_to_b: self.path[hop] == t0,
                };
                (SwapFlow { stage: SwapStage::HopSwap { hop }, ..self }, cmd)
            },
            (SwapStage::HopNextPair { .. }, Reply::NoPair) => (
                SwapFlow { stage: SwapStage::Finished, ..self },
                Command::Fail(Error::PairNotFound),
            ),
            (SwapStage::HopSwap { hop }, Reply::SwapOk) => {
                if hop + 1 < self.path.len() - 1 {
                    let cmd = Command::FactoryGetPair {
                        token_a: self.path[hop + 1],
                        token_b: self.path[hop + 2],
                    };
                    (SwapFlow { stage: SwapStage::HopPair { hop: hop + 1 }, ..self }, cmd)
                } else {
                    let native_out = match self.variant {
                        SwapVariant::TokensForExactVara => true,
                        SwapVariant::ExactTokensForVara => true,
                        _ => false,
                    };
                    if native_out {
                        // See `finish_step`: the last hop paid the
                        // recipient directly, so this withdrawal draws on
                        // a wrapped balance the chain never gave the
                        // router; kept as the source has it.
                        let cmd = Command::WvaraWithdraw {
                            to: self.to,
                            amount: self.amounts[self.amounts.len() - 1],
                        };
                        (SwapFlow { stage: SwapStage::Withdrawing, ..self }, cmd)
                    } else {
                        let refunds = match self.variant {
                            SwapVariant::VaraForExactTokens => true,
                            _ => false,
                        };
                        if refunds && self.attached > self.amounts[0] {
                            let cmd = Command::RefundNative {
                                to: self.caller,
                                amount: self.attached - self.amounts[0],
                            };
                            (SwapFlow { stage: SwapStage::RefundingDust, ..self }, cmd)
                        } else {
                            self.complete()
                        }
                    }
                }
            },
            (SwapStage::HopSwap { .. }, Reply::SwapErr(e)) => (
                SwapFlow { stage: SwapStage::Finished, ..self },
                Command::Fail(Error::LPPairError(e)),
            ),
            (SwapStage::Withdrawing, Reply::WithdrawOk) => self.complete(),
            (SwapStage::Withdrawing, Reply::WithdrawErr) => (
                SwapFlow { stage: SwapStage::Finished, ..self },
                Command::Fail(Error::WithdrawVaraFailed),
            ),
            (SwapStage::RefundingDust, Reply::RefundDone) => self.complete(),
            _ => {
                proof {
                    assert(false);
                }
                (
                    SwapFlow { stage: SwapStage::Finished, ..self },
                    Command::Fail(Error::TransferFailed),
                )
            },
        }
    }
}

/// A freshly opened swap workflow: nothing fetched yet, first command
/// resolves the first hop's pair for its reserves.
pub open spec fn swap_started(
    flow: SwapFlow,
    cmd: Command,
    cfg: RouterConfig,
    variant: SwapVariant,
    caller: ActorId,
    quote: SwapQuote,
    attached: u128,
    path: Seq<ActorId>,
    to: ActorId,
) -> bool {
    &&& flow.cfg == cfg
    &&& flow.variant == variant
    &&& flow.caller == caller
    &&& flow.to == to
    &&& flow.path@ == path
    &&& flow.quote == quote
    &&& flow.attached == attached
    &&& flow.reserves@.len() == 0
    &&& flow.amounts@.len() == 0
    &&& flow.stage == (SwapStage::QuotePair { hop: 0 })
    &&& cmd == (Command::FactoryGetPair { token_a: path[0], token_b: path[1] })
}

impl SwapFlow {
    /// Opens a swap workflow over a validated path.
    fn open_flow(
        cfg: RouterConfig,
        variant: SwapVariant,
        caller: ActorId,
        quote: SwapQuote,
        attached: u128,
        path: Vec<ActorId>,
        to: ActorId,
    ) -> (r: Result<(SwapFlow, Command), Error>)
        ensures
            path@.len() < 2 ==> r == Err::<(SwapFlow, Command), Error>(Error::InvalidPath),
            path@.len() >= 2 ==> (r matches Ok(t) && swap_started(
                t.0,
                t.1,
                cfg,
                variant,
                caller,
                quote,
                attached,
                path@,
                to,
            ) && t.0.wf()),
    {
        if path.len() < 2 {
            return Err(Error::InvalidPath);
        }
        let cmd = Command::FactoryGetPair { token_a: path[0], token_b: path[1] };
        let flow = SwapFlow {
            cfg,
            variant,
            caller,
            to,
            path,
            quote,
            attached,
            reserves: Vec::new(),
            amounts: Vec::new(),
            stage: SwapStage::QuotePair { hop: 0 },
        };
        Ok((flow, cmd))
    }

    /// Exact-in swap of tokens for tokens.
    pub fn swap_exact_tokens_for_tokens(
        cfg: RouterConfig,
        caller: ActorId,
        amount_in: u128,
        amount_out_min: u128,
        path: Vec<ActorId>,
        to: ActorId,
        deadline: u64,
        now: u64,
    ) -> (r: Result<(SwapFlow, Command), Error>)
        ensures
            now > deadline ==> r == Err::<(SwapFlow, Command), Error>(Error::DeadlineExceeded),
            now <= deadline && path@.len() < 2 ==> r == Err::<(SwapFlow, Command), Error>(
                Error::InvalidPath,
            ),
            now <= deadline && path@.len() >= 2 ==> (r matches Ok(t) && swap_started(
                t.0,
                t.1,
                cfg,
                SwapVariant::ExactTokensForTokens,
                caller,
                SwapQuote::ExactIn { amount_in, amount_out_min },
                0,
                path@,
                to,
            ) && t.0.wf()),
    {
        check_deadline(now, deadline)?;
        SwapFlow::open_flow(
            cfg,
            SwapVariant::ExactTokensForTokens,
            caller,
            SwapQuote::ExactIn { amount_in, amount_out_min },
            0,
            path,
            to,
        )
    }

    /// Exact-out swap of tokens for tokens.
    pub fn swap_tokens_for_exact_tokens(
        cfg: RouterConfig,
        caller: ActorId,
        amount_out: u128,
        amount_in_max: u128,
        path: Vec<ActorId>,
        to: ActorId,
        deadline: u64,
        now: u64,
    ) -> (r: Result<(SwapFlow, Command), Error>)
        ensures
            now > deadline ==> r == Err::<(SwapFlow, Command), Error>(Error::DeadlineExceeded),
            now <= deadline && path@.len() < 2 ==> r == Err::<(SwapFlow, Command), Error>(
                Error::InvalidPath,
            ),
            now <= deadline && path@.len() >= 2 ==> (r matches Ok(t) && swap_started(
                t.0,
                t.1,
                cfg,
                SwapVariant::TokensForExactTokens,
                caller,
                SwapQuote::ExactOut { amount_out, amount_in_max },
                0,
                path@,
                to,
            ) && t.0.wf()),
    {
        check_deadline(now, deadline)?;
        SwapFlow::open_flow(
            cfg,
            SwapVariant::TokensForExactTokens,
            caller,
            SwapQuote::ExactOut { amount_out, amount_in_max },
            0,
            path,
            to,
        )
    }

    /// Exact-in swap of the attached native value for tokens: the path
    /// must start at the wrapped-native token.
    pub fn swap_exact_vara_for_tokens(
        cfg: RouterConfig,
        caller: ActorId,
        amount_out_min: u128,
        path: Vec<ActorId>,
        to: ActorId,
        deadline: u64,
        now: u64,
        attached: u128,
    ) -> (r: Result<(SwapFlow, Command), Error>)
        requires
            path@.len() >= 1,
        ensures
            now > deadline ==> r == Err::<(SwapFlow, Command), Error>(Error::DeadlineExceeded),
            now <= deadline && path@[0] != cfg.wvara ==> r == Err::<(SwapFlow, Command), Error>(
                Error::InvalidPath,
            ),
            now <= deadline && path@[0] == cfg.wvara && path@.len() < 2 ==> r == Err::<
                (SwapFlow, Command),
                Error,
            >(Error::InvalidPath),
            now <= deadline && path@[0] == cfg.wvara && path@.len() >= 2 ==> (r matches Ok(t)
                && swap_started(
                t.0,
                t.1,
                cfg,
                SwapVariant::ExactVaraForTokens,
                caller,
                SwapQuote::ExactIn { amount_in: attached, amount_out_min },
                attached,
                path@,
                to,
            ) && t.0.wf()),
    {
        check_deadline(now, deadline)?;
        if path[0] != cfg.wvara {
            return Err(Error::InvalidPath);
        }
        SwapFlow::open_flow(
            cfg,
            SwapVariant::ExactVaraForTokens,
            caller,
            SwapQuote::ExactIn { amount_in: attached, amount_out_min },
            attached,
            path,
            to,
        )
    }

    /// Exact-out swap of tokens for native value: the path must end at
    /// the wrapped-native token, whose proceeds are unwrapped at the end.
    pub fn swap_tokens_for_exact_vara(
        cfg: RouterConfig,
        caller: ActorId,
        amount_out: u128,
        amount_in_max: u128,
        path: Vec<ActorId>,
        to: ActorId,
        deadline: u64,
        now: u64,
    ) -> (r: Result<(SwapFlow, Command), Error>)
        requires
            path@.len() >= 1,
        ensures
            now > deadline ==> r == Err::<(SwapFlow, Command), Error>(Error::DeadlineExceeded),
            now <= deadline && path@.last() != cfg.wvara ==> r == Err::<
                (SwapFlow, Command),
                Error,
            >(Error::InvalidPath),
            now <= deadline && path@.last() == cfg.wvara && path@.len() < 2 ==> r == Err::<
                (SwapFlow, Command),
                Error,
            >(Error::InvalidPath),
            now <= deadline && path@.last() == cfg.wvara && path@.len() >= 2 ==> (r matches Ok(t)
                && swap_started(
                t.0,
                t.1,
                cfg,
                SwapVariant::TokensForExactVara,
                caller,
                SwapQuote::ExactOut { amount_out, amount_in_max },
                0,
                path@,
                to,
            ) && t.0.wf()),
    {
        check_deadline(now, deadline)?;
        if path[path.len() - 1] != cfg.wvara {
            return Err(Error::InvalidPath);
        }
        SwapFlow::open_flow(
            cfg,
            SwapVariant::TokensForExactVara,
            caller,
            SwapQuote::ExactOut { amount_out, amount_in_max },
            0,
            path,
            to,
        )
    }

    /// Exact-in swap of tokens for native value: the path must end at
    /// the wrapped-native token, whose proceeds are unwrapped at the end.
    pub fn swap_exact_tokens_for_vara(
        cfg: RouterConfig,
        caller: ActorId,
        amount_in: u128,
        amount_out_min: u128,
        path: Vec<ActorId>,
        to: ActorId,
        deadline: u64,
        now: u64,
    ) -> (r: Result<(SwapFlow, Command), Error>)
        requires
            path@.len() >= 1,
        ensures
            now > deadline ==> r == Err::<(SwapFlow, Command), Error>(Error::DeadlineExceeded),
            now <= deadline && path@.last() != cfg.wvara ==> r == Err::<
                (SwapFlow, Command),
                Error,
            >(Error::InvalidPath),
            now <= deadline && path@.last() == cfg.wvara && path@.len() < 2 ==> r == Err::<
                (SwapFlow, Command),
                Error,
            >(Error::InvalidPath),
            now <= deadline && path@.last() == cfg.wvara && path@.len() >= 2 ==> (r matches Ok(t)
                && swap_started(
                t.0,
                t.1,
                cfg,
                SwapVariant::ExactTokensForVara,
                caller,
                SwapQuote::ExactIn { amount_in, amount_out_min },
                0,
                path@,
                to,
            ) && t.0.wf()),
    {
        check_deadline(now, deadline)?;
        if path[path.len() - 1] != cfg.wvara {
            return Err(Error::InvalidPath);
        }
        SwapFlow::open_flow(
            cfg,
            SwapVariant::ExactTokensForVara,
            caller,
            SwapQuote::ExactIn { amount_in, amount_out_min },
            0,
            path,
            to,
        )
    }

    /// Exact-out swap of the attached native value for tokens: the path
    /// must start at the wrapped-native token, and whatever of the
    /// attached value the quote does not need is refunded at the end.
    pub fn swap_vara_for_exact_tokens(
        cfg: RouterConfig,
        caller: ActorId,
        amount_out: u128,
        path: Vec<ActorId>,
        to: ActorId,
        deadline: u64,
        now: u64,
        attached: u128,
    ) -> (r: Result<(SwapFlow, Command), Error>)
        requires
            path@.len() >= 1,
        ensures
            now > deadline ==> r == Err::<(SwapFlow, Command), Error>(Error::DeadlineExceeded),
            now <= deadline && path@[0] != cfg.wvara ==> r == Err::<(SwapFlow, Command), Error>(
                Error::InvalidPath,
            ),
            now <= deadline && path@[0] == cfg.wvara && path@.len() < 2 ==> r == Err::<
                (SwapFlow, Command),
                Error,
            >(Error::InvalidPath),
            now <= deadline && path@[0] == cfg.wvara && path@.len() >= 2 ==> (r matches Ok(t)
                && swap_started(
                t.0,
                t.1,
                cfg,
                SwapVariant::VaraForExactTokens,
                caller,
                SwapQuote::ExactOut { amount_out, amount_in_max: attached },
                attached,
                path@,
                to,
            ) && t.0.wf()),
    {
        check_deadline(now, deadline)?;
        if path[0] != cfg.wvara {
            return Err(Error::InvalidPath);
        }
        SwapFlow::open_flow(
            cfg,
            SwapVariant::VaraForExactTokens,
            caller,
            SwapQuote::ExactOut { amount_out, amount_in_max: attached },
            attached,
            path,
            to,
        )
    }
}

/// One incoming router request, as a caller submits it.
#[derive(Debug, PartialEq, Eq)]
pub enum Action {
    AddLiquidity {
        token_a: ActorId,
        token_b: ActorId,
        amount_a_desired: u128,
        amount_b_desired: u128,
        amount_a_min: u128,
        amount_b_min: u128,
        to: ActorId,
        deadline: u64,
    },
    AddLiquidityVARA {
        token: ActorId,
        amount_token_desired: u128,
        amount_token_min: u128,
        amount_vara_min: u128,
        to: ActorId,
        deadline: u64,
    },
    RemoveLiquidity {
        token_a: ActorId,
        token_b: ActorId,
        liquidity: u128,
        amount_a_min: u128,
        amount_b_min: u128,
        to: ActorId,
        deadline: u64,
    },
    RemoveLiquidityVARA {
        token: ActorId,
        liquidity: u128,
        amount_token_min: u128,
        amount_vara_min: u128,
        to: ActorId,
        deadline: u64,
    },
    SwapExactTokensForTokens {
        amount_in: u128,
        amount_out_min: u128,
        path: Vec<ActorId>,
        to: ActorId,
        deadline: u64,
    },
    SwapTokensForExactTokens {
        amount_out: u128,
        amount_in_max: u128,
        path: Vec<ActorId>,
        to: ActorId,
        deadline: u64,
    },
    SwapExactVARAForTokens { amount_out_min: u128, path: Vec<ActorId>, to: ActorId, deadline: u64 },
    SwapExactTokensForVARA {
        amount_in: u128,
        amount_out_min: u128,
        path: Vec<ActorId>,
        to: ActorId,
        deadline: u64,
    },
    SwapTokensForExactVARA {
        amount_out: u128,
        amount_in_max: u128,
        path: Vec<ActorId>,
        to: ActorId,
        deadline: u64,
    },
    SwapVARAForExactTokens { amount_out: u128, path: Vec<ActorId>, to: ActorId, deadline: u64 },
}

impl Action {
    /// The native-currency swap entry points read the path's endpoints
    /// before validating its length; an empty path is not accepted there.
    pub open spec fn wf(self) -> bool {
        match self {
            Action::SwapExactVARAForTokens { path, .. } => path@.len() >= 1,
            Action::SwapExactTokensForVARA { path, .. } => path@.len() >= 1,
            Action::SwapTokensForExactVARA { path, .. } => path@.len() >= 1,
            Action::SwapVARAForExactTokens { path, .. } => path@.len() >= 1,
            _ => true,
        }
    }
}

/// One running router workflow, whichever request opened it.
#[derive(Debug)]
pub enum Workflow {
    AddLiquidity(AddLiquidityFlow),
    AddLiquidityVara(AddLiquidityVaraFlow),
    RemoveLiquidity(RemoveLiquidityFlow),
    RemoveLiquidityVara(RemoveLiquidityVaraFlow),
    Swap(SwapFlow),
}

impl Workflow {
    pub open spec fn wf(self) -> bool {
        match self {
            Workflow::Swap(f) => f.wf(),
            _ => true,
        }
    }

    pub open spec fn expects(self, reply: Reply) -> bool {
        match self {
            Workflow::AddLiquidity(f) => f.expects(reply),
            Workflow::AddLiquidityVara(f) => f.expects(reply),
            Workflow::RemoveLiquidity(f) => f.expects(reply),
            Workflow::RemoveLiquidityVara(f) => f.expects(reply),
            Workflow::Swap(f) => f.expects(reply),
        }
    }

    /// A step of whichever machine is running: the workflows never change
    /// kind, and each step obeys its machine's transition table.
    pub open spec fn steps_to(pre: Workflow, reply: Reply, post: Workflow, cmd: Command) -> bool {
        match (pre, post) {
            (Workflow::AddLiquidity(f), Workflow::AddLiquidity(g)) => AddLiquidityFlow::steps_to(
                f,
                reply,
                g,
                cmd,
            ),
            (
                Workflow::AddLiquidityVara(f),
                Workflow::AddLiquidityVara(g),
            ) => AddLiquidityVaraFlow::steps_to(f, reply, g, cmd),
            (
                Workflow::RemoveLiquidity(f),
                Workflow::RemoveLiquidity(g),
            ) => RemoveLiquidityFlow::steps_to(f, reply, g, cmd),
            (
                Workflow::RemoveLiquidityVara(f),
                Workflow::RemoveLiquidityVara(g),
            ) => RemoveLiquidityVaraFlow::steps_to(f, reply, g, cmd),
            (Workflow::Swap(f), Workflow::Swap(g)) => SwapFlow::steps_to(f, reply, g, cmd),
            _ => false,
        }
    }

    /// Feeds one reply into the running workflow.
    pub fn step(self, reply: Reply) -> (res: (Workflow, Command))
        requires
            self.wf(),
            self.expects(reply),
        ensures
            Workflow::steps_to(self, reply, res.0, res.1),
            res.0.wf(),
    {
        match self {
            Workflow::AddLiquidity(f) => {
                let (g, cmd) = f.step(reply);
                (Workflow::AddLiquidity(g), cmd)
            },
            Workflow::AddLiquidityVara(f) => {
                let (g, cmd) = f.step(reply);
                (Workflow::AddLiquidityVara(g), cmd)
            },
            Workflow::RemoveLiquidity(f) => {
                let (g, cmd) = f.step(reply);
                (Workflow::RemoveLiquidity(g), cmd)
            },
            Workflow::RemoveLiquidityVara(f) => {
                let (g, cmd) = f.step(reply);
                (Workflow::RemoveLiquidityVara(g), cmd)
            },
            Workflow::Swap(f) => {
                let (g, cmd) = f.step(reply);
                (Workflow::Swap(g), cmd)
            },
        }
    }
}

/// Opens the workflow a request asks for and returns its first outgoing
/// call; requests that fail validation (an expired deadline, a bad path)
/// are rejected here, before anything is sent.
pub fn process_handle(cfg: RouterConfig, caller: ActorId, action: Action, now: u64, attached: u128) -> (r:
    Result<(Workflow, Command), Error>)
    requires
        action.wf(),
    ensures
        (r matches Ok(t) ==> t.0.wf()),
        (match action {
            Action::AddLiquidity {
                token_a,
                token_b,
                amount_a_desired,
                amount_b_desired,
                amount_a_min,
                amount_b_min,
                to,
                deadline,
            } => r == Ok::<(Workflow, Command), Error>(
                (
                    Workflow::AddLiquidity(
                        AddLiquidityFlow {
                            cfg,
                            caller,
                            token_a,
                            token_b,
                            amount_a_desired,
                            amount_b_desired,
                            amount_a_min,
                            amount_b_min,
                            to,
                            deadline,
                            stage: AddLiquidityStage::GettingPair,
                        },
                    ),
                    Command::FactoryGetPair { token_a, token_b },
                ),
            ),
            Action::AddLiquidityVARA {
                token,
                amount_token_desired,
                amount_token_min,
                amount_vara_min,
                to,
                deadline,
            } => r == Ok::<(Workflow, Command), Error>(
                (
                    Workflow::AddLiquidityVara(
                        AddLiquidityVaraFlow {
                            cfg,
                            caller,
                            token,
                            amount_token_desired,
                            amount_token_min,
                            amount_vara_min,
                            to,
                            deadline,
                            attached,
                            stage: AddLiquidityVaraStage::GettingPair,
                        },
                    ),
                    Command::FactoryGetPair { token_a: token, token_b: cfg.wvara },
                ),
            ),
            Action::RemoveLiquidity {
                token_a,
                token_b,
                liquidity,
                amount_a_min,
                amount_b_min,
                to,
                deadline,
            } => r == Ok::<(Workflow, Command), Error>(
                (
                    Workflow::RemoveLiquidity(
                        RemoveLiquidityFlow {
                            cfg,
                            caller,
                            token_a,
                            token_b,
                            liquidity,
                            amount_a_min,
                            amount_b_min,
                            to,
                            deadline,
                            stage: RemoveLiquidityStage::GettingPair,
                        },
                    ),
                    Command::FactoryGetPair { token_a, token_b },
                ),
            ),
            Action::RemoveLiquidityVARA {
                token,
                liquidity,
                amount_token_min,
                amount_vara_min,
                to,
                deadline,
            } => r == Ok::<(Workflow, Command), Error>(
                (
                    Workflow::RemoveLiquidityVara(
                        RemoveLiquidityVaraFlow {
                            cfg,
                            caller,
                            token,
                            liquidity,
                            amount_token_min,
                            amount_vara_min,
                            to,
                            deadline,
                            stage: RemoveLiquidityVaraStage::GettingPair,
                        },
                    ),
                    Command::FactoryGetPair { token_a: token, token_b: cfg.wvara },
                ),
            ),
            Action::SwapExactTokensForTokens { amount_in, amount_out_min, path, to, deadline } => {
                &&& (now > deadline ==> r == Err::<(Workflow, Command), Error>(
                    Error::DeadlineExceeded,
                ))
                &&& (now <= deadline && path@.len() < 2 ==> r == Err::<(Workflow, Command), Error>(
                    Error::InvalidPath,
                ))
                &&& (now <= deadline && path@.len() >= 2 ==> (r matches Ok(t) && t.0 matches
                    Workflow::Swap(f) && swap_started(
                    f,
                    t.1,
                    cfg,
                    SwapVariant::ExactTokensForTokens,
                    caller,
                    SwapQuote::ExactIn { amount_in, amount_out_min },
                    0,
                    path@,
                    to,
                )))
            },
            Action::SwapTokensForExactTokens { amount_out, amount_in_max, path, to, deadline } => {
                &&& (now > deadline ==> r == Err::<(Workflow, Command), Error>(
                    Error::DeadlineExceeded,
                ))
                &&& (now <= deadline && path@.len() < 2 ==> r == Err::<(Workflow, Command), Error>(
                    Error::InvalidPath,
                ))
                &&& (now <= deadline && path@.len() >= 2 ==> (r matches Ok(t) && t.0 matches
                    Workflow::Swap(f) && swap_started(
                    f,
                    t.1,
                    cfg,
                    SwapVariant::TokensForExactTokens,
                    caller,
                    SwapQuote::ExactOut { amount_out, amount_in_max },
                    0,
                    path@,
                    to,
                )))
            },
            Action::SwapExactVARAForTokens { amount_out_min, path, to, deadline } => {
                &&& (now > deadline ==> r == Err::<(Workflow, Command), Error>(
                    Error::DeadlineExceeded,
                ))
                &&& (now <= deadline && path@[0] != cfg.wvara ==> r == Err::<
                    (Workflow, Command),
                    Error,
                >(Error::InvalidPath))
                &&& (now <= deadline && path@[0] == cfg.wvara && path@.len() < 2 ==> r == Err::<
                    (Workflow, Command),
                    Error,
                >(Error::InvalidPath))
                &&& (now <= deadline && path@[0] == cfg.wvara && path@.len() >= 2 ==> (r matches
                    Ok(t) && t.0 matches Workflow::Swap(f) && swap_started(
                    f,
                    t.1,
                    cfg,
                    SwapVariant::ExactVaraForTokens,
                    caller,
                    SwapQuote::ExactIn { amount_in: attached, amount_out_min },
                    attached,
                    path@,
                    to,
                )))
            },
            Action::SwapExactTokensForVARA { amount_in, amount_out_min, path, to, deadline } => {
                &&& (now > deadline ==> r == Err::<(Workflow, Command), Error>(
                    Error::DeadlineExceeded,
                ))
                &&& (now <= deadline && path@.last() != cfg.wvara ==> r == Err::<
                    (Workflow, Command),
                    Error,
                >(Error::InvalidPath))
                &&& (now <= deadline && path@.last() == cfg.wvara && path@.len() < 2 ==> r
                    == Err::<(Workflow, Command), Error>(Error::InvalidPath))
                &&& (now <= deadline && path@.last() == cfg.wvara && path@.len() >= 2 ==> (r
                    matches Ok(t) && t.0 matches Workflow::Swap(f) && swap_started(
                    f,
                    t.1,
                    cfg,
                    SwapVariant::ExactTokensForVara,
                    caller,
                    SwapQuote::ExactIn { amount_in, amount_out_min },
                    0,
                    path@,
                    to,
                )))
            },
            Action::SwapTokensForExactVARA { amount_out, amount_in_max, path, to, deadline } => {
                &&& (now > deadline ==> r == Err::<(Workflow, Command), Error>(
                    Error::DeadlineExceeded,
                ))
                &&& (now <= deadline && path@.last() != cfg.wvara ==> r == Err::<
                    (Workflow, Command),
                    Error,
                >(Error::InvalidPath))
                &&& (now <= deadline && path@.last() == cfg.wvara && path@.len() < 2 ==> r
                    == Err::<(Workflow, Command), Error>(Error::InvalidPath))
                &&& (now <= deadline && path@.last() == cfg.wvara && path@.len() >= 2 ==> (r
                    matches Ok(t) && t.0 matches Workflow::Swap(f) && swap_started(
                    f,
                    t.1,
                    cfg,
                    SwapVariant::TokensForExactVara,
                    caller,
                    SwapQuote::ExactOut { amount_out, amount_in_max },
                    0,
                    path@,
                    to,
                )))
            },
            Action::SwapVARAForExactTokens { amount_out, path, to, deadline } => {
                &&& (now > deadline ==> r == Err::<(Workflow, Command), Error>(
                    Error::DeadlineExceeded,
                ))
                &&& (now <= deadline && path@[0] != cfg.wvara ==> r == Err::<
                    (Workflow, Command),
                    Error,
                >(Error::InvalidPath))
                &&& (now <= deadline && path@[0] == cfg.wvara && path@.len() < 2 ==> r == Err::<
                    (Workflow, Command),
                    Error,
                >(Error::InvalidPath))
                &&& (now <= deadline && path@[0] == cfg.wvara && path@.len() >= 2 ==> (r matches
                    Ok(t) && t.0 matches Workflow::Swap(f) && swap_started(
                    f,
                    t.1,
                    cfg,
                    SwapVariant::VaraForExactTokens,
                    caller,
                    SwapQuote::ExactOut { amount_out, amount_in_max: attached },
                    attached,
                    path@,
                    to,
                )))
            },
        }),
{
    match action {
        Action::AddLiquidity {
            token_a,
            token_b,
            amount_a_desired,
            amount_b_desired,
            amount_a_min,
            amount_b_min,
            to,
            deadline,
        } => {
            let (flow, cmd) = AddLiquidityFlow::start(
                cfg,
                caller,
                token_a,
                token_b,
                amount_a_desired,
                amount_b_desired,
                amount_a_min,
                amount_b_min,
                to,
                deadline,
            );
            Ok((Workflow::AddLiquidity(flow), cmd))
        },
        Action::AddLiquidityVARA {
            token,
            amount_token_desired,
            amount_token_min,
            amount_vara_min,
            to,
            deadline,
        } => {
            let (flow, cmd) = AddLiquidityVaraFlow::start(
                cfg,
                caller,
                token,
                amount_token_desired,
                amount_token_min,
                amount_vara_min,
                to,
                deadline,
                attached,
            );
            Ok((Workflow::AddLiquidityVara(flow), cmd))
        },
        Action::RemoveLiquidity {
            token_a,
            token_b,
            liquidity,
            amount_a_min,
            amount_b_min,
            to,
            deadline,
        } => {
            let (flow, cmd) = RemoveLiquidityFlow::start(
                cfg,
                caller,
                token_a,
                token_b,
                liquidity,
                amount_a_min,
                amount_b_min,
                to,
                deadline,
            );
            Ok((Workflow::RemoveLiquidity(flow), cmd))
        },
        Action::RemoveLiquidityVARA {
            token,
            liquidity,
            amount_token_min,
            amount_vara_min,
            to,
            deadline,
        } => {
            let (flow, cmd) = RemoveLiquidityVaraFlow::start(
                cfg,
                caller,
                token,
                liquidity,
                amount_token_min,
                amount_vara_min,
                to,
                deadline,
            );
            Ok((Workflow::RemoveLiquidityVara(flow), cmd))
        },
        Action::SwapExactTokensForTokens { amount_in, amount_out_min, path, to, deadline } => {
            let (flow, cmd) = SwapFlow::swap_exact_tokens_for_tokens(
                cfg,
                caller,
                amount_in,
                amount_out_min,
                path,
                to,
                deadline,
                now,
            )?;
            Ok((Workflow::Swap(flow), cmd))
        },
        Action::SwapTokensForExactTokens { amount_out, amount_in_max, path, to, deadline } => {
            let (flow, cmd) = SwapFlow::swap_tokens_for_exact_tokens(
                cfg,
                caller,
                amount_out,
                amount_in_max,
                path,
                to,
                deadline,
                now,
            )?;
            Ok((Workflow::Swap(flow), cmd))
        },
        Action::SwapExactVARAForTokens { amount_out_min, path, to, deadline } => {
            let (flow, cmd) = SwapFlow::swap_exact_vara_for_tokens(
                cfg,
                caller,
                amount_out_min,
                path,
                to,
                deadline,
                now,
                attached,
            )?;
            Ok((Workflow::Swap(flow), cmd))
        },
        Action::SwapExactTokensForVARA { amount_in, amount_out_min, path, to, deadline } => {
            let (flow, cmd) = SwapFlow::swap_exact_tokens_for_vara(
                cfg,
                caller,
                amount_in,
                amount_out_min,
                path,
                to,
                deadline,
                now,
            )?;
            Ok((Workflow::Swap(flow), cmd))
        },
        Action::SwapTokensForExactVARA { amount_out, amount_in_max, path, to, deadline } => {
            let (flow, cmd) = SwapFlow::swap_tokens_for_exact_vara(
                cfg,
                caller,
                amount_out,
                amount_in_max,
                path,
                to,
                deadline,
                now,
            )?;
            Ok((Workflow::Swap(flow), cmd))
        },
        Action::SwapVARAForExactTokens { amount_out, path, to, deadline } => {
            let (flow, cmd) = SwapFlow::swap_vara_for_exact_tokens(
                cfg,
                caller,
                amount_out,
                path,
                to,
                deadline,
                now,
                attached,
            )?;
            Ok((Workflow::Swap(flow), cmd))
        },
    }
}

/// Law: while the pair is still being resolved or created, the
/// native-currency deposit workflow commands no token movement of any
/// kind; and when the pair's creation fails, the one command it issues is
/// a refund of the full attached native value to the caller, after which
/// the workflow ends in failure without ever having moved a token.
pub proof fn lemma_vara_refund_on_create_failure(
    pre: AddLiquidityVaraFlow,
    reply: Reply,
    post: AddLiquidityVaraFlow,
    cmd: Command,
)
    requires
        AddLiquidityVaraFlow::steps_to(pre, reply, post, cmd),
        pre.stage == AddLiquidityVaraStage::GettingPair || pre.stage
            == AddLiquidityVaraStage::CreatingPair || pre.stage
            == AddLiquidityVaraStage::RefundingCreate,
    ensures
        !(cmd matches Command::TokenTransfer { .. }),
        !(cmd matches Command::WvaraDeposit { .. }),
        !(cmd matches Command::WvaraTransfer { .. }),
        !(cmd matches Command::PairSwap { .. }),
        pre.stage == AddLiquidityVaraStage::CreatingPair && reply == Reply::CreateFailed ==> cmd
            == (Command::RefundNative { to: pre.caller, amount: pre.attached }),
        pre.stage == AddLiquidityVaraStage::RefundingCreate && reply == Reply::RefundDone ==> cmd
            == Command::Fail(Error::PairCreationFailed) && post.stage
            == AddLiquidityVaraStage::Finished,
{
}

} // verus!

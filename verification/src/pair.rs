//! The constant-product pair: reserves, time-weighted price accumulators,
//! protocol-fee accrual and the liquidity-share ledger, with every state
//! transition specified exactly. The pair's one mid-operation outside call
//! — asking the factory for the fee receiver — is handed in as a plain
//! argument; token transfers around these transitions are the caller's.
use vstd::prelude::*;

use crate::amount::{
    amount_of, lemma_amount_bounds, lemma_amount_of_view, pow128, pow256, u128_widening_mul,
    u256_checked_add, u256_checked_mul, u256_checked_sub, u256_div, u256_integer_sqrt,
    u256_overflowing_add, u256_overflowing_mul, Amount,
};
use crate::error::Error;
use crate::ledger::FtLedger;
use crate::math::{
    lemma_sqrt_unique, quote, quote_reserve_unchecked, spec_calculate_in_amount,
    spec_calculate_out_amount, spec_quote, sqrt_floor,
};
use crate::{ActorId, MINIMUM_LIQUIDITY};
use vstd::arithmetic::div_mod::{lemma_fundamental_div_mod, lemma_mod_division_less_than_divisor};

verus! {

/// Direction of a swap relative to the pair's canonical token order.
#[derive(Clone, Copy, Debug, PartialEq, Eq, Structural)]
pub enum SwapKind {
    AForB,
    BForA,
}

/// What a successfully processed pair action reports.
#[derive(Debug, PartialEq, Eq)]
pub enum Event {
    AddedLiquidity { sender: ActorId, amount_a: u128, amount_b: u128, liquidity: Amount },
    RemovedLiquidity { sender: ActorId, amount_a: u128, amount_b: u128, to: ActorId },
    Swap { sender: ActorId, in_amount: u128, out_amount: u128, to: ActorId, kind: SwapKind },
    Skim { amount_a: u128, amount_b: u128, to: ActorId },
    Sync { reserve_a: u128, reserve_b: u128 },
    GetReserves { reserve_a: u128, reserve_b: u128, block_timestamp_last: u64 },
    Transfer { from: ActorId, to: ActorId, amount: Amount },
    Approval { owner: ActorId, spender: ActorId, amount: Amount },
    Balance(u128),
}

/// Fails when the deadline lies strictly in the past.
pub fn check_deadline(now: u64, deadline: u64) -> (r: Result<(), Error>)
    ensures
        r == if now > deadline {
            Err::<(), Error>(Error::DeadlineExceeded)
        } else {
            Ok::<(), Error>(())
        },
{
    if now > deadline {
        Err(Error::DeadlineExceeded)
    } else {
        Ok(())
    }
}

/// The smaller of two integers.
pub open spec fn min2(a: int, b: int) -> int {
    if a < b {
        a
    } else {
        b
    }
}

/// What the first deposit into an empty pool mints: the locked minimum is
/// carved out of the geometric mean of the deposit.
pub open spec fn first_liquidity(amount_a: int, amount_b: int) -> int {
    sqrt_floor(amount_a * amount_b) - MINIMUM_LIQUIDITY
}

/// What a subsequent deposit mints against the fee-adjusted supply `tf`.
pub open spec fn subsequent_liquidity(
    amount_a: int,
    amount_b: int,
    reserve_a: int,
    reserve_b: int,
    tf: int,
) -> int {
    min2(amount_a * tf / reserve_a, amount_b * tf / reserve_b)
}

/// The outcome a successful deposit commits: amounts taken, resulting pool
/// balance, protocol-fee data, the permanently locked quantity (nonzero
/// only for the first deposit) and the shares minted to the depositor.
pub struct AddOutcome {
    pub amount: (u128, u128),
    pub balance: (u128, u128),
    pub fee_on: bool,
    pub fee: int,
    pub locked: int,
    pub liquidity: int,
}

/// The outcome a successful withdrawal commits.
pub struct RemoveOutcome {
    pub amount: (u128, u128),
    pub fee_on: bool,
    pub fee: int,
}

/// The validated plan of a withdrawal: amounts owed to the recipient and
/// the protocol-fee data, computed before any transfer is made.
#[derive(Clone, Copy, Debug, PartialEq, Eq)]
pub struct RemovalPlan {
    pub amount: (u128, u128),
    pub fee_on: bool,
    pub fee_receiver: ActorId,
    pub fee: Amount,
    pub liquidity: Amount,
}

#[derive(Debug)]
pub struct Pair {
    pub factory: ActorId,
    pub router: ActorId,
    pub token: (ActorId, ActorId),
    pub reserve: (u128, u128),
    pub cumulative_price: (Amount, Amount),
    pub last_block_ts: u64,
    pub k_last: Amount,
    pub ft_state: FtLedger,
}

/// One accumulator step: the instantaneous price `num_r << 128 / den_r`
/// times the elapsed time, wrapping at 2^256.
pub open spec fn spec_cp_delta(num_r: int, den_r: int, dt: int) -> int {
    (num_r * pow128() / den_r * dt) % pow256()
}

impl Pair {
    pub open spec fn reserves_empty(self) -> bool {
        self.reserve.0 == 0 && self.reserve.1 == 0
    }

    /// The clock may not run backwards, and an accumulator step never
    /// divides by a zero reserve.
    pub open spec fn update_safe(self, now: u64) -> bool {
        &&& now >= self.last_block_ts
        &&& (now > self.last_block_ts && !self.reserves_empty() ==> self.reserve.0 > 0
            && self.reserve.1 > 0)
    }

    /// Both accumulators after an update at `now`, as integers.
    pub open spec fn spec_cp_after(self, now: u64) -> (int, int) {
        if now > self.last_block_ts && !self.reserves_empty() {
            (
                (self.cumulative_price.0@ + spec_cp_delta(
                    self.reserve.1 as int,
                    self.reserve.0 as int,
                    now - self.last_block_ts,
                )) % pow256(),
                (self.cumulative_price.1@ + spec_cp_delta(
                    self.reserve.0 as int,
                    self.reserve.1 as int,
                    now - self.last_block_ts,
                )) % pow256(),
            )
        } else {
            (self.cumulative_price.0@, self.cumulative_price.1@)
        }
    }

    /// Creates a pair over two distinct, non-null tokens with everything
    /// else zeroed.
    pub fn new(token: (ActorId, ActorId), factory: ActorId, router: ActorId) -> (r: Result<
        Pair,
        Error,
    >)
        ensures
            token.0 == 0 || token.1 == 0 ==> r == Err::<Pair, Error>(Error::ZeroActorId),
            token.0 != 0 && token.1 != 0 && token.0 == token.1 ==> r == Err::<Pair, Error>(
                Error::IdenticalTokens,
            ),
            token.0 != 0 && token.1 != 0 && token.0 != token.1 ==> {
                &&& r matches Ok(p)
                &&& r matches Ok(p) ==> {
                    &&& p.token == token
                    &&& p.factory == factory
                    &&& p.router == router
                    &&& p.reserve == (0u128, 0u128)
                    &&& p.cumulative_price.0@ == 0 && p.cumulative_price.1@ == 0
                    &&& p.last_block_ts == 0
                    &&& p.k_last@ == 0
                    &&& p.ft_state.total_supply@ == 0
                    &&& forall|a: ActorId| p.ft_state.balance(a) == 0
                    &&& forall|o: ActorId, s: ActorId| p.ft_state.allowance(o, s) == 0
                }
            },
    {
        if token.0 == 0 || token.1 == 0 {
            return Err(Error::ZeroActorId);
        }
        if token.0 == token.1 {
            return Err(Error::IdenticalTokens);
        }
        Ok(
            Pair {
                factory,
                router,
                token,
                reserve: (0, 0),
                cumulative_price: (Amount::zero(), Amount::zero()),
                last_block_ts: 0,
                k_last: Amount::zero(),
                ft_state: FtLedger::new(),
            },
        )
    }

    /// Advances both time-weighted price accumulators using the reserves
    /// held before this operation, then records the new pool balance and
    /// the time. The accumulators advance by exactly the prior price times
    /// the elapsed time, wrapping modulo 2^256, and otherwise stand still.
    pub fn update(&mut self, balance: (u128, u128), now: u64)
        requires
            old(self).update_safe(now),
        ensures
            final(self).reserve == balance,
            final(self).last_block_ts == now,
            final(self).cumulative_price.0@ == old(self).spec_cp_after(now).0,
            final(self).cumulative_price.1@ == old(self).spec_cp_after(now).1,
            final(self).token == old(self).token,
            final(self).factory == old(self).factory,
            final(self).router == old(self).router,
            final(self).k_last == old(self).k_last,
            final(self).ft_state == old(self).ft_state,
    {
        let dt = now - self.last_block_ts;
        if dt > 0 && !(self.reserve.0 == 0 && self.reserve.1 == 0) {
            let elapsed = Amount::from_u128(dt as u128);
            let q0 = u256_div(
                Amount::from_u128_shifted(self.reserve.1),
                Amount::from_u128(self.reserve.0),
            );
            let d0 = u256_overflowing_mul(q0, elapsed);
            self.cumulative_price.0 = u256_overflowing_add(self.cumulative_price.0, d0);
            let q1 = u256_div(
                Amount::from_u128_shifted(self.reserve.0),
                Amount::from_u128(self.reserve.1),
            );
            let d1 = u256_overflowing_mul(q1, elapsed);
            self.cumulative_price.1 = u256_overflowing_add(self.cumulative_price.1, d1);
        }
        self.reserve = balance;
        self.last_block_ts = now;
    }

    /// The protocol fee owed right now: one sixth of the growth of
    /// `sqrt(reserve0 * reserve1)` since the last fee mint, in shares of
    /// the current supply; zero when the fee is off, never minted, or the
    /// root has not grown.
    pub open spec fn spec_fee(self, fee_to: ActorId) -> Result<int, Error> {
        if fee_to != 0 && self.k_last@ != 0 {
            let rk = sqrt_floor(self.reserve.0 * self.reserve.1);
            let rkl = sqrt_floor(self.k_last@);
            if rk > rkl {
                if self.ft_state.total_supply@ * (rk - rkl) >= pow256() {
                    Err(Error::Overflow)
                } else {
                    Ok(self.ft_state.total_supply@ * (rk - rkl) / (5 * rk + rkl))
                }
            } else {
                Ok(0)
            }
        } else {
            Ok(0)
        }
    }

    /// Computes the protocol fee from the factory's fee receiver: the fee
    /// is on exactly when the receiver is not the null address.
    pub fn calculate_fee(&self, fee_to: ActorId) -> (r: Result<(bool, ActorId, Amount), Error>)
        ensures
            match r {
                Ok(t) => t.0 == (fee_to != 0) && t.1 == fee_to && self.spec_fee(fee_to)
                    == Ok::<int, Error>(t.2@),
                Err(e) => self.spec_fee(fee_to) == Err::<int, Error>(e),
            },
    {
        let is_fee_on = fee_to != 0;
        let mut fee = Amount::zero();
        if is_fee_on && !self.k_last.is_zero() {
            let k = u128_widening_mul(self.reserve.0, self.reserve.1);
            let root_k_amt = u256_integer_sqrt(k);
            let root_k_last_amt = u256_integer_sqrt(self.k_last);
            proof {
                lemma_amount_bounds(k);
                lemma_amount_bounds(self.k_last);
                lemma_amount_bounds(root_k_amt);
                lemma_amount_bounds(root_k_last_amt);
                assert(root_k_amt@ < pow128() && root_k_last_amt@ < pow128()) by (nonlinear_arith)
                    requires
                        root_k_amt@ * root_k_amt@ <= k@ < pow256(),
                        root_k_last_amt@ * root_k_last_amt@ <= self.k_last@ < pow256(),
                        root_k_amt@ >= 0,
                        root_k_last_amt@ >= 0,
                        pow256() == pow128() * pow128(),
                ;
                lemma_sqrt_unique(k@, root_k_amt@);
                lemma_sqrt_unique(self.k_last@, root_k_last_amt@);
            }
            let root_k = root_k_amt.to_u128();
            let root_k_last = root_k_last_amt.to_u128();
            if root_k > root_k_last {
                let num = match u256_checked_mul(
                    self.ft_state.total_supply,
                    Amount::from_u128(root_k - root_k_last),
                ) {
                    Some(n) => n,
                    None => {
                        return Err(Error::Overflow);
                    },
                };
                let denom5 = u128_widening_mul(root_k, 5);
                let denom = match u256_checked_add(denom5, Amount::from_u128(root_k_last)) {
                    Some(d) => d,
                    None => {
                        proof {
                            assert(root_k * 5 + root_k_last < pow256()) by (nonlinear_arith)
                                requires
                                    0 <= root_k < pow128(),
                                    0 <= root_k_last < pow128(),
                                    pow256() == pow128() * pow128(),
                                    pow128() >= 6,
                            ;
                        }
                        return Err(Error::Overflow);
                    },
                };
                fee = u256_div(num, denom);
                proof {
                    assert(denom@ == 5 * root_k + root_k_last);
                }
            }
        }
        Ok((is_fee_on, fee_to, fee))
    }

    /// The deposit amounts actually taken: the first deposit takes the
    /// desired amounts as they are; later deposits match one desired
    /// amount with the proportional quote of the other, rejecting quotes
    /// under the respective minimum.
    pub open spec fn spec_optimal_amounts(self, desired: (u128, u128), min: (u128, u128)) -> Result<
        (u128, u128),
        Error,
    > {
        if self.reserves_empty() {
            Ok(desired)
        } else {
            match spec_quote(desired.0 as int, self.reserve.0 as int, self.reserve.1 as int) {
                Err(e) => Err(e),
                Ok(optimal_b) => if optimal_b <= desired.1 {
                    if optimal_b < min.1 {
                        Err(Error::InsufficientLatterAmount)
                    } else {
                        Ok((desired.0, optimal_b))
                    }
                } else {
                    match spec_quote(
                        desired.1 as int,
                        self.reserve.1 as int,
                        self.reserve.0 as int,
                    ) {
                        Err(e) => Err(e),
                        Ok(optimal_a) => if optimal_a < min.0 {
                            Err(Error::InsufficientFormerAmount)
                        } else {
                            Ok((optimal_a, desired.1))
                        },
                    }
                },
            }
        }
    }

    /// Everything a deposit decides, in the order the checks run; any
    /// error leaves the pair untouched.
    pub open spec fn spec_add_liquidity(
        self,
        caller: ActorId,
        program_id: ActorId,
        desired: (u128, u128),
        min: (u128, u128),
        to: ActorId,
        fee_to: ActorId,
    ) -> Result<AddOutcome, Error> {
        if caller != self.router {
            Err(Error::InvalidRouter)
        } else {
            match self.spec_optimal_amounts(desired, min) {
                Err(e) => Err(e),
                Ok(amount) => if self.reserve.0 + amount.0 > u128::MAX || self.reserve.1 + amount.1
                    > u128::MAX {
                    Err(Error::Overflow)
                } else {
                    let balance = (
                        (self.reserve.0 + amount.0) as u128,
                        (self.reserve.1 + amount.1) as u128,
                    );
                    match self.spec_fee(fee_to) {
                        Err(e) => Err(e),
                        Ok(fee) => if self.ft_state.total_supply@ == 0 {
                            self.spec_first_mint(program_id, to, fee_to, amount, balance)
                        } else {
                            self.spec_subsequent_mint(to, fee_to, fee, amount, balance)
                        },
                    }
                },
            }
        }
    }

    pub open spec fn spec_first_mint(
        self,
        program_id: ActorId,
        to: ActorId,
        fee_to: ActorId,
        amount: (u128, u128),
        balance: (u128, u128),
    ) -> Result<AddOutcome, Error> {
        let s = sqrt_floor(amount.0 * amount.1);
        if s < MINIMUM_LIQUIDITY {
            Err(Error::InsufficientAmount)
        } else {
            let liq = s - MINIMUM_LIQUIDITY;
            if liq == 0 {
                Err(Error::InsufficientLiquidity)
            } else if self.ft_state.balance(program_id) + MINIMUM_LIQUIDITY >= pow256() {
                Err(Error::Overflow)
            } else if self.ft_state.balance(to) + (if to == program_id {
                MINIMUM_LIQUIDITY as int
            } else {
                0
            }) + liq >= pow256() {
                Err(Error::Overflow)
            } else {
                Ok(
                    AddOutcome {
                        amount,
                        balance,
                        fee_on: fee_to != 0,
                        fee: 0,
                        locked: MINIMUM_LIQUIDITY as int,
                        liquidity: liq,
                    },
                )
            }
        }
    }

    pub open spec fn spec_subsequent_mint(
        self,
        to: ActorId,
        fee_to: ActorId,
        fee: int,
        amount: (u128, u128),
        balance: (u128, u128),
    ) -> Result<AddOutcome, Error> {
        let t = self.ft_state.total_supply@;
        if t + fee >= pow256() {
            Err(Error::Overflow)
        } else if amount.0 * (t + fee) >= pow256() || amount.1 * (t + fee) >= pow256() {
            Err(Error::Overflow)
        } else {
            let liq = subsequent_liquidity(
                amount.0 as int,
                amount.1 as int,
                self.reserve.0 as int,
                self.reserve.1 as int,
                t + fee,
            );
            if t + fee + liq >= pow256() {
                Err(Error::Overflow)
            } else if liq == 0 {
                Err(Error::InsufficientLiquidity)
            } else if fee != 0 && self.ft_state.balance(fee_to) + fee >= pow256() {
                Err(Error::Overflow)
            } else if self.ft_state.balance(to) + (if to == fee_to {
                fee
            } else {
                0
            }) + liq >= pow256() {
                Err(Error::Overflow)
            } else {
                Ok(
                    AddOutcome {
                        amount,
                        balance,
                        fee_on: fee_to != 0,
                        fee,
                        locked: 0,
                        liquidity: liq,
                    },
                )
            }
        }
    }

    /// Accepts a deposit: matches the desired amounts against the pool
    /// ratio, accrues the protocol fee, mints shares — the first deposit
    /// mints the geometric mean of the amounts and locks
    /// `MINIMUM_LIQUIDITY` to the pair's own entry, later deposits mint
    /// against the fee-adjusted supply — advances the price accumulators
    /// and records the new balance. The caller is expected to have moved
    /// the underlying tokens already; only the accounting changes here.
    /// The preconditions keep the divisions meaningful: the clock does
    /// not run backwards, and a pool with outstanding shares has both
    /// reserves on hand.
    #[verifier::rlimit(60)]
    pub fn add_liquidity(
        &mut self,
        caller: ActorId,
        program_id: ActorId,
        desired_amount: (u128, u128),
        min_amount: (u128, u128),
        to: ActorId,
        fee_to: ActorId,
        now: u64,
    ) -> (r: Result<Event, Error>)
        requires
            old(self).update_safe(now),
            old(self).ft_state.total_supply@ != 0 ==> old(self).reserve.0 > 0 && old(
                self,
            ).reserve.1 > 0,
        ensures
            match old(self).spec_add_liquidity(
                caller,
                program_id,
                desired_amount,
                min_amount,
                to,
                fee_to,
            ) {
                Err(e) => r == Err::<Event, Error>(e) && *final(self) == *old(self),
                Ok(o) => {
                    &&& r == Ok::<Event, Error>(
                        Event::AddedLiquidity {
                            sender: to,
                            amount_a: o.amount.0,
                            amount_b: o.amount.1,
                            liquidity: amount_of(o.liquidity),
                        },
                    )
                    &&& final(self).reserve == o.balance
                    &&& final(self).last_block_ts == now
                    &&& final(self).cumulative_price.0@ == old(self).spec_cp_after(now).0
                    &&& final(self).cumulative_price.1@ == old(self).spec_cp_after(now).1
                    &&& final(self).k_last@ == (if o.fee_on {
                        o.balance.0 * o.balance.1
                    } else {
                        old(self).k_last@
                    })
                    &&& final(self).ft_state.total_supply@ == old(self).ft_state.total_supply@
                        + o.locked + o.fee + o.liquidity
                    &&& (forall|w: ActorId|
                        final(self).ft_state.balance(w) == mint_two(
                            old(self).ft_state,
                            if o.locked != 0 {
                                program_id
                            } else {
                                fee_to
                            },
                            o.locked + o.fee,
                            to,
                            o.liquidity,
                            w,
                        ))
                    &&& final(self).ft_state.allowances == old(self).ft_state.allowances
                    &&& final(self).token == old(self).token
                    &&& final(self).factory == old(self).factory
                    &&& final(self).router == old(self).router
                },
            },
    {
        if caller != self.router {
            return Err(Error::InvalidRouter);
        }
        let amount: (u128, u128);
        if self.reserve.0 == 0 && self.reserve.1 == 0 {
            amount = desired_amount;
        } else {
            let optimal_b = match quote(desired_amount.0, self.reserve) {
                Ok(v) => v,
                Err(e) => {
                    return Err(e);
                },
            };
            if optimal_b <= desired_amount.1 {
                if optimal_b < min_amount.1 {
                    return Err(Error::InsufficientLatterAmount);
                }
                amount = (desired_amount.0, optimal_b);
            } else {
                proof {
                    if self.reserve.1 == 0 {
                        vstd::arithmetic::div_mod::lemma_div_of0(self.reserve.0 as int);
                        assert(optimal_b == 0);
                    }
                }
                let optimal_a = match quote_reserve_unchecked(
                    desired_amount.1,
                    (self.reserve.1, self.reserve.0),
                ) {
                    Ok(v) => v,
                    Err(e) => {
                        return Err(e);
                    },
                };
                if optimal_a < min_amount.0 {
                    return Err(Error::InsufficientFormerAmount);
                }
                amount = (optimal_a, desired_amount.1);
            }
        }
        if amount.0 > u128::MAX - self.reserve.0 || amount.1 > u128::MAX - self.reserve.1 {
            return Err(Error::Overflow);
        }
        let balance = (self.reserve.0 + amount.0, self.reserve.1 + amount.1);
        let (is_fee_on, fee_receiver, fee) = match self.calculate_fee(fee_to) {
            Ok(t) => t,
            Err(e) => {
                return Err(e);
            },
        };
        if self.ft_state.supply().is_zero() {
            let prod = u128_widening_mul(amount.0, amount.1);
            let s = u256_integer_sqrt(prod);
            proof {
                lemma_amount_bounds(prod);
                assert(s@ < pow128()) by (nonlinear_arith)
                    requires
                        s@ * s@ <= prod@ < pow256(),
                        s@ >= 0,
                        pow256() == pow128() * pow128(),
                ;
                lemma_sqrt_unique(prod@, s@);
            }
            let liq = match u256_checked_sub(s, Amount::from_u128(MINIMUM_LIQUIDITY)) {
                Some(l) => l,
                None => {
                    return Err(Error::InsufficientAmount);
                },
            };
            if liq.is_zero() {
                return Err(Error::InsufficientLiquidity);
            }
            let bp = self.ft_state.balance_of(program_id);
            let locked = Amount::from_u128(MINIMUM_LIQUIDITY);
            let bp1 = match u256_checked_add(bp, locked) {
                Some(v) => v,
                None => {
                    return Err(Error::Overflow);
                },
            };
            let bt = if to == program_id {
                bp1
            } else {
                self.ft_state.balance_of(to)
            };
            if u256_checked_add(bt, liq).is_none() {
                return Err(Error::Overflow);
            }
            self.update(balance, now);
            self.ft_state.mint(program_id, locked);
            if is_fee_on {
                self.k_last = u128_widening_mul(balance.0, balance.1);
            }
            self.ft_state.mint(to, liq);
            proof {
                lemma_amount_of_view(liq);
            }
            Ok(
                Event::AddedLiquidity {
                    sender: to,
                    amount_a: amount.0,
                    amount_b: amount.1,
                    liquidity: liq,
                },
            )
        } else {
            let tf = match u256_checked_add(self.ft_state.supply(), fee) {
                Some(v) => v,
                None => {
                    return Err(Error::Overflow);
                },
            };
            let na = match u256_checked_mul(Amount::from_u128(amount.0), tf) {
                Some(v) => v,
                None => {
                    return Err(Error::Overflow);
                },
            };
            let nb = match u256_checked_mul(Amount::from_u128(amount.1), tf) {
                Some(v) => v,
                None => {
                    return Err(Error::Overflow);
                },
            };
            let la = u256_div(na, Amount::from_u128(self.reserve.0));
            let lb = u256_div(nb, Amount::from_u128(self.reserve.1));
            let liq = if la.lt(&lb) {
                la
            } else {
                lb
            };
            if u256_checked_add(tf, liq).is_none() {
                return Err(Error::Overflow);
            }
            if liq.is_zero() {
                return Err(Error::InsufficientLiquidity);
            }
            let bf = self.ft_state.balance_of(fee_receiver);
            if !fee.is_zero() {
                if u256_checked_add(bf, fee).is_none() {
                    return Err(Error::Overflow);
                }
            }
            let bt0 = self.ft_state.balance_of(to);
            let bt = if to == fee_receiver {
                match u256_checked_add(bt0, fee) {
                    Some(v) => v,
                    None => {
                        proof {
                            assert(false);
                        }
                        return Err(Error::Overflow);
                    },
                }
            } else {
                bt0
            };
            if u256_checked_add(bt, liq).is_none() {
                return Err(Error::Overflow);
            }
            self.update(balance, now);
            if !fee.is_zero() {
                self.ft_state.mint(fee_receiver, fee);
            }
            if is_fee_on {
                self.k_last = u128_widening_mul(balance.0, balance.1);
            }
            self.ft_state.mint(to, liq);
            proof {
                lemma_amount_of_view(liq);
            }
            Ok(
                Event::AddedLiquidity {
                    sender: to,
                    amount_a: amount.0,
                    amount_b: amount.1,
                    liquidity: liq,
                },
            )
        }
    }
}

impl Pair {
    /// Everything a withdrawal decides before any token moves; any error
    /// leaves the pair untouched. Withdrawal is a mutating operation, so
    /// only the registered router may ask for it.
    pub open spec fn spec_remove_plan(
        self,
        caller: ActorId,
        liquidity: Amount,
        min: (u128, u128),
        fee_to: ActorId,
    ) -> Result<RemoveOutcome, Error> {
        if caller != self.router {
            Err(Error::InvalidRouter)
        } else if self.ft_state.balance(caller) < liquidity@ {
            Err(Error::InsufficientLiquidity)
        } else {
            match self.spec_fee(fee_to) {
                Err(e) => Err(e),
                Ok(fee) => {
                    let t = self.ft_state.total_supply@;
                    if liquidity@ * self.reserve.0 >= pow256() || liquidity@ * self.reserve.1
                        >= pow256() {
                        Err(Error::Overflow)
                    } else if t + fee >= pow256() {
                        Err(Error::Overflow)
                    } else if t + fee == 0 {
                        Err(Error::InsufficientLiquidity)
                    } else {
                        let a0 = liquidity@ * self.reserve.0 / (t + fee);
                        let a1 = liquidity@ * self.reserve.1 / (t + fee);
                        if a0 > u128::MAX || a1 > u128::MAX {
                            Err(Error::Overflow)
                        } else if a0 == 0 || a1 == 0 {
                            Err(Error::InsufficientLiquidity)
                        } else if a0 < min.0 {
                            Err(Error::InsufficientFormerAmount)
                        } else if a1 < min.1 {
                            Err(Error::InsufficientLatterAmount)
                        } else {
                            Ok(
                                RemoveOutcome {
                                    amount: (a0 as u128, a1 as u128),
                                    fee_on: fee_to != 0,
                                    fee,
                                },
                            )
                        }
                    }
                },
            }
        }
    }

    /// Validates a withdrawal of `liquidity` shares and computes the
    /// amounts owed: each token's reserve share of the fee-adjusted
    /// supply, floored. No state changes; the caller transfers both
    /// amounts and then commits with `remove_liquidity_apply`.
    pub fn remove_liquidity_plan(
        &self,
        caller: ActorId,
        liquidity: Amount,
        min_amount: (u128, u128),
        fee_to: ActorId,
    ) -> (r: Result<RemovalPlan, Error>)
        ensures
            match self.spec_remove_plan(caller, liquidity, min_amount, fee_to) {
                Err(e) => r == Err::<RemovalPlan, Error>(e),
                Ok(o) => r == Ok::<RemovalPlan, Error>(
                    RemovalPlan {
                        amount: o.amount,
                        fee_on: o.fee_on,
                        fee_receiver: fee_to,
                        fee: amount_of(o.fee),
                        liquidity,
                    },
                ),
            },
    {
        if caller != self.router {
            return Err(Error::InvalidRouter);
        }
        let b = self.ft_state.balance_of(caller);
        if b.lt(&liquidity) {
            return Err(Error::InsufficientLiquidity);
        }
        let (_is_fee_on, fee_receiver, fee) = match self.calculate_fee(fee_to) {
            Ok(t) => t,
            Err(e) => {
                return Err(e);
            },
        };
        let na = match u256_checked_mul(liquidity, Amount::from_u128(self.reserve.0)) {
            Some(v) => v,
            None => {
                return Err(Error::Overflow);
            },
        };
        let nb = match u256_checked_mul(liquidity, Amount::from_u128(self.reserve.1)) {
            Some(v) => v,
            None => {
                return Err(Error::Overflow);
            },
        };
        let tf = match u256_checked_add(self.ft_state.supply(), fee) {
            Some(v) => v,
            None => {
                return Err(Error::Overflow);
            },
        };
        if tf.is_zero() {
            return Err(Error::InsufficientLiquidity);
        }
        let a0 = u256_div(na, tf);
        let a1 = u256_div(nb, tf);
        if !a0.fits_u128() || !a1.fits_u128() {
            return Err(Error::Overflow);
        }
        let amount = (a0.to_u128(), a1.to_u128());
        if amount.0 == 0 || amount.1 == 0 {
            return Err(Error::InsufficientLiquidity);
        }
        if amount.0 < min_amount.0 {
            return Err(Error::InsufficientFormerAmount);
        }
        if amount.1 < min_amount.1 {
            return Err(Error::InsufficientLatterAmount);
        }
        proof {
            lemma_amount_of_view(fee);
        }
        Ok(
            RemovalPlan {
                amount,
                fee_on: fee_receiver != 0,
                fee_receiver,
                fee,
                liquidity,
            },
        )
    }

    /// The checks `remove_liquidity_apply` runs before touching anything.
    pub open spec fn spec_remove_apply_check(self, caller: ActorId, plan: RemovalPlan) -> Result<
        (),
        Error,
    > {
        if caller != self.router {
            Err(Error::InvalidRouter)
        } else if self.ft_state.balance(caller) < plan.liquidity@ || self.ft_state.total_supply@
            < plan.liquidity@ {
            Err(Error::InsufficientLiquidity)
        } else if self.reserve.0 < plan.amount.0 || self.reserve.1 < plan.amount.1 {
            Err(Error::Overflow)
        } else if plan.fee_on && plan.fee@ != 0 && (self.ft_state.total_supply@ - plan.liquidity@
            + plan.fee@ >= pow256() || self.ft_state.balance(plan.fee_receiver) - (
        if plan.fee_receiver == caller {
            plan.liquidity@
        } else {
            0
        }) + plan.fee@ >= pow256()) {
            Err(Error::Overflow)
        } else {
            Ok(())
        }
    }

    /// Commits a withdrawal after both token transfers succeeded: burns
    /// the shares, mints the protocol fee, records the shrunken balance
    /// and advances the price accumulators.
    pub fn remove_liquidity_apply(
        &mut self,
        caller: ActorId,
        to: ActorId,
        plan: RemovalPlan,
        now: u64,
    ) -> (r: Result<Event, Error>)
        requires
            old(self).update_safe(now),
        ensures
            match old(self).spec_remove_apply_check(caller, plan) {
                Err(e) => r == Err::<Event, Error>(e) && *final(self) == *old(self),
                Ok(()) => {
                    &&& r == Ok::<Event, Error>(
                        Event::RemovedLiquidity {
                            sender: caller,
                            amount_a: plan.amount.0,
                            amount_b: plan.amount.1,
                            to,
                        },
                    )
                    &&& final(self).reserve == (
                        (old(self).reserve.0 - plan.amount.0) as u128,
                        (old(self).reserve.1 - plan.amount.1) as u128,
                    )
                    &&& final(self).last_block_ts == now
                    &&& final(self).cumulative_price.0@ == old(self).spec_cp_after(now).0
                    &&& final(self).cumulative_price.1@ == old(self).spec_cp_after(now).1
                    &&& final(self).k_last@ == (if plan.fee_on {
                        (old(self).reserve.0 - plan.amount.0) * (old(self).reserve.1
                            - plan.amount.1)
                    } else {
                        old(self).k_last@
                    })
                    &&& final(self).ft_state.total_supply@ == old(self).ft_state.total_supply@
                        - plan.liquidity@ + (if plan.fee_on && plan.fee@ != 0 {
                        plan.fee@
                    } else {
                        0
                    })
                    &&& (forall|w: ActorId|
                        final(self).ft_state.balance(w) == old(self).ft_state.balance(w) - (
                        if w == caller {
                            plan.liquidity@
                        } else {
                            0
                        }) + (if plan.fee_on && plan.fee@ != 0 && w == plan.fee_receiver {
                            plan.fee@
                        } else {
                            0
                        }))
                    &&& final(self).ft_state.allowances == old(self).ft_state.allowances
                    &&& final(self).token == old(self).token
                    &&& final(self).factory == old(self).factory
                    &&& final(self).router == old(self).router
                },
            },
    {
        if caller != self.router {
            return Err(Error::InvalidRouter);
        }
        let b = self.ft_state.balance_of(caller);
        if b.lt(&plan.liquidity) || self.ft_state.supply().lt(&plan.liquidity) {
            return Err(Error::InsufficientLiquidity);
        }
        if self.reserve.0 < plan.amount.0 || self.reserve.1 < plan.amount.1 {
            return Err(Error::Overflow);
        }
        if plan.fee_on && !plan.fee.is_zero() {
            let bf = self.ft_state.balance_of(plan.fee_receiver);
            let bf_after = if plan.fee_receiver == caller {
                match u256_checked_sub(bf, plan.liquidity) {
                    Some(v) => v,
                    None => {
                        proof {
                            assert(false);
                        }
                        return Err(Error::Overflow);
                    },
                }
            } else {
                bf
            };
            let ts_after = match u256_checked_sub(self.ft_state.supply(), plan.liquidity) {
                Some(v) => v,
                None => {
                    proof {
                        assert(false);
                    }
                    return Err(Error::Overflow);
                },
            };
            if u256_checked_add(ts_after, plan.fee).is_none() {
                return Err(Error::Overflow);
            }
            if u256_checked_add(bf_after, plan.fee).is_none() {
                return Err(Error::Overflow);
            }
        }
        let balance = (self.reserve.0 - plan.amount.0, self.reserve.1 - plan.amount.1);
        self.ft_state.burn(caller, plan.liquidity);
        if plan.fee_on {
            if !plan.fee.is_zero() {
                self.ft_state.mint(plan.fee_receiver, plan.fee);
            }
            self.k_last = u128_widening_mul(balance.0, balance.1);
        }
        self.update(balance, now);
        Ok(
            Event::RemovedLiquidity {
                sender: caller,
                amount_a: plan.amount.0,
                amount_b: plan.amount.1,
                to,
            },
        )
    }

    /// Rejects a recipient that is one of the pair's own tokens.
    pub fn check_recipient(&self, recipient: ActorId) -> (r: Result<(), Error>)
        ensures
            r == if recipient == self.token.0 || recipient == self.token.1 {
                Err::<(), Error>(Error::InvalidRecipient)
            } else {
                Ok::<(), Error>(())
            },
    {
        if recipient == self.token.0 || recipient == self.token.1 {
            Err(Error::InvalidRecipient)
        } else {
            Ok(())
        }
    }

    /// The input and output token of a swap in the given direction.
    pub open spec fn spec_swap_tokens(self, kind: SwapKind) -> (ActorId, ActorId) {
        match kind {
            SwapKind::AForB => (self.token.0, self.token.1),
            SwapKind::BForA => (self.token.1, self.token.0),
        }
    }

    /// The input and output reserve of a swap in the given direction.
    pub open spec fn spec_swap_reserves(self, kind: SwapKind) -> (int, int) {
        match kind {
            SwapKind::AForB => (self.reserve.0 as int, self.reserve.1 as int),
            SwapKind::BForA => (self.reserve.1 as int, self.reserve.0 as int),
        }
    }

    /// Authorizes a swap and names its tokens: the output token must be
    /// transferred to the recipient before the swap is committed, and on
    /// a failed output transfer the input token is returned instead.
    pub fn swap_prepare(&self, caller: ActorId, kind: SwapKind) -> (r: Result<
        (ActorId, ActorId),
        Error,
    >)
        ensures
            caller != self.router ==> r == Err::<(ActorId, ActorId), Error>(Error::InvalidRouter),
            caller == self.router ==> r == Ok::<(ActorId, ActorId), Error>(
                self.spec_swap_tokens(kind),
            ),
    {
        if caller != self.router {
            return Err(Error::InvalidRouter);
        }
        match kind {
            SwapKind::AForB => Ok((self.token.0, self.token.1)),
            SwapKind::BForA => Ok((self.token.1, self.token.0)),
        }
    }

    /// The compensation for a failed output transfer: the input amount
    /// goes back to the recipient in the input token, and the original
    /// error propagates; the reserves stay untouched.
    pub fn swap_compensation(&self, kind: SwapKind, in_amount: u128, to: ActorId) -> (r: (
        ActorId,
        ActorId,
        u128,
    ))
        ensures
            r == (self.spec_swap_tokens(kind).0, to, in_amount),
    {
        match kind {
            SwapKind::AForB => (self.token.0, to, in_amount),
            SwapKind::BForA => (self.token.1, to, in_amount),
        }
    }

    /// Commits a swap after the output transfer succeeded: the input
    /// reserve grows by the amount put in, the output reserve shrinks by
    /// the amount paid out, and the price accumulators advance on the
    /// prior reserves. The quantities are the router's responsibility;
    /// only their fit in the reserves is checked here.
    pub fn swap_commit(
        &mut self,
        caller: ActorId,
        kind: SwapKind,
        amounts: (u128, u128),
        to: ActorId,
        now: u64,
    ) -> (r: Result<Event, Error>)
        requires
            old(self).update_safe(now),
        ensures
            caller != old(self).router ==> {
                &&& r == Err::<Event, Error>(Error::InvalidRouter)
                &&& *final(self) == *old(self)
            },
            caller == old(self).router && (amounts.0 > u128::MAX - old(self).spec_swap_reserves(
                kind,
            ).0 || amounts.1 > old(self).spec_swap_reserves(kind).1) ==> r == Err::<Event, Error>(
                Error::Overflow,
            ) && *final(self) == *old(self),
            caller == old(self).router && amounts.0 <= u128::MAX - old(self).spec_swap_reserves(
                kind,
            ).0 && amounts.1 <= old(self).spec_swap_reserves(kind).1 ==> {
                &&& r == Ok::<Event, Error>(
                    Event::Swap {
                        sender: caller,
                        in_amount: amounts.0,
                        out_amount: amounts.1,
                        to,
                        kind,
                    },
                )
                &&& final(self).reserve == (match kind {
                    SwapKind::AForB => (
                        (old(self).reserve.0 + amounts.0) as u128,
                        (old(self).reserve.1 - amounts.1) as u128,
                    ),
                    SwapKind::BForA => (
                        (old(self).reserve.0 - amounts.1) as u128,
                        (old(self).reserve.1 + amounts.0) as u128,
                    ),
                })
                &&& final(self).last_block_ts == now
                &&& final(self).cumulative_price.0@ == old(self).spec_cp_after(now).0
                &&& final(self).cumulative_price.1@ == old(self).spec_cp_after(now).1
                &&& final(self).k_last == old(self).k_last
                &&& final(self).ft_state == old(self).ft_state
                &&& final(self).token == old(self).token
                &&& final(self).factory == old(self).factory
                &&& final(self).router == old(self).router
            },
    {
        if caller != self.router {
            return Err(Error::InvalidRouter);
        }
        let (reserve_in, reserve_out) = match kind {
            SwapKind::AForB => (self.reserve.0, self.reserve.1),
            SwapKind::BForA => (self.reserve.1, self.reserve.0),
        };
        if amounts.0 > u128::MAX - reserve_in || amounts.1 > reserve_out {
            return Err(Error::Overflow);
        }
        let balance = match kind {
            SwapKind::AForB => (self.reserve.0 + amounts.0, self.reserve.1 - amounts.1),
            SwapKind::BForA => (self.reserve.0 - amounts.1, self.reserve.1 + amounts.0),
        };
        self.update(balance, now);
        Ok(
            Event::Swap {
                sender: caller,
                in_amount: amounts.0,
                out_amount: amounts.1,
                to,
                kind,
            },
        )
    }

    /// The excess of the actually held balances over the tracked
    /// reserves; the caller sends exactly this excess to the recipient.
    pub fn skim_plan(&self, balance: (u128, u128)) -> (r: Result<(u128, u128), Error>)
        ensures
            balance.0 < self.reserve.0 || balance.1 < self.reserve.1 ==> r == Err::<
                (u128, u128),
                Error,
            >(Error::Overflow),
            balance.0 >= self.reserve.0 && balance.1 >= self.reserve.1 ==> r == Ok::<
                (u128, u128),
                Error,
            >(((balance.0 - self.reserve.0) as u128, (balance.1 - self.reserve.1) as u128)),
    {
        if balance.0 < self.reserve.0 || balance.1 < self.reserve.1 {
            return Err(Error::Overflow);
        }
        Ok((balance.0 - self.reserve.0, balance.1 - self.reserve.1))
    }

    /// Forces the reserves to match the actually held balances, advancing
    /// the price accumulators first.
    pub fn sync_apply(&mut self, balance: (u128, u128), now: u64) -> (ev: Event)
        requires
            old(self).update_safe(now),
        ensures
            ev == (Event::Sync { reserve_a: balance.0, reserve_b: balance.1 }),
            final(self).reserve == balance,
            final(self).last_block_ts == now,
            final(self).cumulative_price.0@ == old(self).spec_cp_after(now).0,
            final(self).cumulative_price.1@ == old(self).spec_cp_after(now).1,
            final(self).k_last == old(self).k_last,
            final(self).ft_state == old(self).ft_state,
            final(self).token == old(self).token,
            final(self).factory == old(self).factory,
            final(self).router == old(self).router,
    {
        self.update(balance, now);
        Event::Sync { reserve_a: balance.0, reserve_b: balance.1 }
    }

    /// Reports the reserves for the pair's own token order and rejects
    /// any other pair of tokens.
    pub fn get_reserves(&self, token_a: ActorId, token_b: ActorId) -> (r: Result<Event, Error>)
        ensures
            token_a == self.token.0 && token_b == self.token.1 ==> r == Ok::<Event, Error>(
                Event::GetReserves {
                    reserve_a: self.reserve.0,
                    reserve_b: self.reserve.1,
                    block_timestamp_last: self.last_block_ts,
                },
            ),
            !(token_a == self.token.0 && token_b == self.token.1) ==> r == Err::<Event, Error>(
                Error::InvalidTokens,
            ),
    {
        if token_a == self.token.0 && token_b == self.token.1 {
            Ok(
                Event::GetReserves {
                    reserve_a: self.reserve.0,
                    reserve_b: self.reserve.1,
                    block_timestamp_last: self.last_block_ts,
                },
            )
        } else {
            Err(Error::InvalidTokens)
        }
    }

    /// Moves liquidity shares from the caller to `to`.
    pub fn transfer(&mut self, caller: ActorId, to: ActorId, amount: u128) -> (r: Result<
        Event,
        Error,
    >)
        ensures
            final(self).reserve == old(self).reserve,
            final(self).cumulative_price == old(self).cumulative_price,
            final(self).last_block_ts == old(self).last_block_ts,
            final(self).k_last == old(self).k_last,
            final(self).token == old(self).token,
            final(self).factory == old(self).factory,
            final(self).router == old(self).router,
            match r {
                Ok(ev) => ev == Event::Transfer { from: caller, to, amount: amount_of(amount as int) },
                Err(e) => *final(self) == *old(self),
            },
            r is Ok <==> (old(self).ft_state.balance(caller) >= amount && (caller == to || old(
                self,
            ).ft_state.balance(to) + amount < pow256())),
            r is Ok && caller != to ==> final(self).ft_state.balance(caller) == old(
                self,
            ).ft_state.balance(caller) - amount && final(self).ft_state.balance(to) == old(
                self,
            ).ft_state.balance(to) + amount && (forall|w: ActorId|
                w != caller && w != to ==> final(self).ft_state.balance(w) == old(
                    self,
                ).ft_state.balance(w)),
            r is Ok && caller == to ==> final(self).ft_state == old(self).ft_state,
            r is Ok ==> final(self).ft_state.total_supply == old(self).ft_state.total_supply
                && final(self).ft_state.allowances == old(self).ft_state.allowances,
            old(self).ft_state.balance(caller) < amount ==> r == Err::<Event, Error>(
                Error::InsufficientAmount,
            ),
            old(self).ft_state.balance(caller) >= amount && !(caller == to || old(
                self,
            ).ft_state.balance(to) + amount < pow256()) ==> r == Err::<Event, Error>(
                Error::Overflow,
            ),
    {
        let a = Amount::from_u128(amount);
        match self.ft_state.transfer(caller, to, a) {
            Ok(()) => {
                proof {
                    lemma_amount_of_view(a);
                }
                Ok(Event::Transfer { from: caller, to, amount: a })
            },
            Err(e) => Err(e),
        }
    }

    /// Moves liquidity shares on behalf of `from`, drawing down the
    /// caller's allowance when the caller is not `from`.
    pub fn transfer_from(
        &mut self,
        caller: ActorId,
        from: ActorId,
        to: ActorId,
        amount: u128,
    ) -> (r: Result<Event, Error>)
        ensures
            final(self).reserve == old(self).reserve,
            final(self).cumulative_price == old(self).cumulative_price,
            final(self).last_block_ts == old(self).last_block_ts,
            final(self).k_last == old(self).k_last,
            final(self).token == old(self).token,
            final(self).factory == old(self).factory,
            final(self).router == old(self).router,
            match r {
                Ok(ev) => ev == Event::Transfer { from, to, amount: amount_of(amount as int) },
                Err(e) => *final(self) == *old(self),
            },
            r is Ok <==> ((caller == from || old(self).ft_state.allowance(from, caller) >= amount)
                && old(self).ft_state.balance(from) >= amount && (from == to || old(
                self,
            ).ft_state.balance(to) + amount < pow256())),
            r is Ok ==> {
                &&& final(self).ft_state.total_supply == old(self).ft_state.total_supply
                &&& (if from == to {
                    final(self).ft_state.balance(from) == old(self).ft_state.balance(from)
                } else {
                    final(self).ft_state.balance(from) == old(self).ft_state.balance(from) - amount
                        && final(self).ft_state.balance(to) == old(self).ft_state.balance(to)
                        + amount
                })
                &&& (forall|w: ActorId|
                    w != from && w != to ==> final(self).ft_state.balance(w) == old(
                        self,
                    ).ft_state.balance(w))
                &&& (if caller == from {
                    final(self).ft_state.allowances == old(self).ft_state.allowances
                } else {
                    final(self).ft_state.allowance(from, caller) == old(self).ft_state.allowance(
                        from,
                        caller,
                    ) - amount && (forall|o: ActorId, s: ActorId|
                        !(o == from && s == caller) ==> final(self).ft_state.allowance(o, s) == old(
                            self,
                        ).ft_state.allowance(o, s))
                })
            },
            caller != from && old(self).ft_state.allowance(from, caller) < amount ==> r == Err::<
                Event,
                Error,
            >(Error::InsufficientAllowance),
            (caller == from || old(self).ft_state.allowance(from, caller) >= amount) && old(
                self,
            ).ft_state.balance(from) < amount ==> r == Err::<Event, Error>(
                Error::InsufficientAmount,
            ),
            (caller == from || old(self).ft_state.allowance(from, caller) >= amount) && old(
                self,
            ).ft_state.balance(from) >= amount && !(from == to || old(self).ft_state.balance(to)
                + amount < pow256()) ==> r == Err::<Event, Error>(Error::Overflow),
    {
        let a = Amount::from_u128(amount);
        match self.ft_state.transfer_from(caller, from, to, a) {
            Ok(()) => {
                proof {
                    lemma_amount_of_view(a);
                }
                Ok(Event::Transfer { from, to, amount: a })
            },
            Err(e) => Err(e),
        }
    }

    /// Sets the allowance of `spender` over the caller's shares.
    pub fn approve(&mut self, caller: ActorId, spender: ActorId, amount: u128) -> (r: Result<
        Event,
        Error,
    >)
        ensures
            r == Ok::<Event, Error>(
                Event::Approval { owner: caller, spender, amount: amount_of(amount as int) },
            ),
            final(self).ft_state.allowance(caller, spender) == amount,
            forall|o: ActorId, s: ActorId|
                !(o == caller && s == spender) ==> final(self).ft_state.allowance(o, s) == old(
                    self,
                ).ft_state.allowance(o, s),
            final(self).ft_state.balances == old(self).ft_state.balances,
            final(self).ft_state.total_supply == old(self).ft_state.total_supply,
            final(self).reserve == old(self).reserve,
            final(self).cumulative_price == old(self).cumulative_price,
            final(self).last_block_ts == old(self).last_block_ts,
            final(self).k_last == old(self).k_last,
            final(self).token == old(self).token,
            final(self).factory == old(self).factory,
            final(self).router == old(self).router,
    {
        let a = Amount::from_u128(amount);
        self.ft_state.approve(caller, spender, a);
        proof {
            lemma_amount_of_view(a);
        }
        Ok(Event::Approval { owner: caller, spender, amount: a })
    }

    /// The low 128 bits of the owner's share balance, as the token-style
    /// balance query reports it.
    pub fn balance_of(&self, owner: ActorId) -> (r: Event)
        ensures
            r == Event::Balance((self.ft_state.balance(owner) % pow128()) as u128),
    {
        let b = self.ft_state.balance_of(owner);
        proof {
            lemma_amount_of_view(b);
        }
        Event::Balance(b.lo)
    }
}

/// Law: a deposit into an empty pool that succeeds takes the desired
/// amounts as they are, mints exactly
/// `floor(sqrt(amount_a * amount_b)) - MINIMUM_LIQUIDITY` shares to the
/// depositor and locks exactly `MINIMUM_LIQUIDITY` shares permanently in
/// the pair's own ledger entry; the whole new supply is the floored
/// square root. The per-account conclusions read the empty pool as one
/// with no outstanding entries for the depositor and the pair itself.
pub proof fn lemma_first_deposit(
    p: Pair,
    caller: ActorId,
    program_id: ActorId,
    desired: (u128, u128),
    min: (u128, u128),
    to: ActorId,
    fee_to: ActorId,
)
    requires
        p.reserves_empty(),
        p.ft_state.total_supply@ == 0,
    ensures
        match p.spec_add_liquidity(caller, program_id, desired, min, to, fee_to) {
            Ok(o) => {
                &&& o.liquidity == first_liquidity(desired.0 as int, desired.1 as int)
                &&& o.locked == MINIMUM_LIQUIDITY
                &&& o.fee == 0
                &&& o.amount == desired
                &&& o.balance == desired
                &&& o.locked + o.fee + o.liquidity == sqrt_floor(desired.0 * desired.1)
                &&& (p.ft_state.balance(to) == 0 && p.ft_state.balance(program_id) == 0 && to
                    != program_id ==> {
                    &&& mint_two(p.ft_state, program_id, o.locked + o.fee, to, o.liquidity, to)
                        == o.liquidity
                    &&& mint_two(
                        p.ft_state,
                        program_id,
                        o.locked + o.fee,
                        to,
                        o.liquidity,
                        program_id,
                    ) == MINIMUM_LIQUIDITY
                })
            },
            Err(_) => true,
        },
{
}

/// The balance of `w` after minting `v1` to `a1` and then `v2` to `a2`.
pub open spec fn mint_two(
    l: FtLedger,
    a1: ActorId,
    v1: int,
    a2: ActorId,
    v2: int,
    w: ActorId,
) -> int {
    l.balance(w) + (if w == a1 {
        v1
    } else {
        0
    }) + (if w == a2 {
        v2
    } else {
        0
    })
}

/// Law: a swap whose amounts come from either quoting formula never
/// shrinks the product of the pair's reserves, whichever direction it
/// trades in.
pub proof fn lemma_swap_preserves_reserve_product(
    p: Pair,
    kind: SwapKind,
    amount_in: u128,
    amount_out: u128,
)
    requires
        spec_calculate_out_amount(
            amount_in as int,
            p.spec_swap_reserves(kind).0,
            p.spec_swap_reserves(kind).1,
        ) == Ok::<u128, Error>(amount_out) || spec_calculate_in_amount(
            amount_out as int,
            p.spec_swap_reserves(kind).0,
            p.spec_swap_reserves(kind).1,
        ) == Ok::<u128, Error>(amount_in),
    ensures
        amount_out <= p.spec_swap_reserves(kind).1,
        (p.spec_swap_reserves(kind).0 + amount_in) * (p.spec_swap_reserves(kind).1 - amount_out)
            >= p.reserve.0 * p.reserve.1,
{
    let rin = p.spec_swap_reserves(kind).0;
    let rout = p.spec_swap_reserves(kind).1;
    if spec_calculate_out_amount(amount_in as int, rin, rout) == Ok::<u128, Error>(amount_out) {
        crate::math::lemma_out_amount_preserves_product(amount_in as int, rin, rout, amount_out);
    } else {
        crate::math::lemma_in_amount_preserves_product(amount_out as int, rin, rout, amount_in);
    }
    assert(rin * rout == p.reserve.0 * p.reserve.1) by (nonlinear_arith)
        requires
            (rin == p.reserve.0 as int && rout == p.reserve.1 as int) || (rin == p.reserve.1 as int
                && rout == p.reserve.0 as int),
    ;
}

/// The protocol fee is never negative.
pub proof fn lemma_fee_nonneg(p: Pair, fee_to: ActorId)
    ensures
        match p.spec_fee(fee_to) {
            Ok(f) => f >= 0,
            Err(_) => true,
        },
{
    if fee_to != 0 && p.k_last@ != 0 {
        let rk = sqrt_floor(p.reserve.0 * p.reserve.1);
        let rkl = sqrt_floor(p.k_last@);
        lemma_sqrt_floor_nonneg(p.reserve.0 * p.reserve.1);
        lemma_sqrt_floor_nonneg(p.k_last@);
        if rk > rkl {
            let t = p.ft_state.total_supply@;
            if t * (rk - rkl) < pow256() {
                assert(t * (rk - rkl) >= 0) by (nonlinear_arith)
                    requires
                        t >= 0,
                        rk - rkl >= 0,
                ;
                vstd::arithmetic::div_mod::lemma_div_pos_is_pos(t * (rk - rkl), 5 * rk + rkl);
            }
        }
    }
}

proof fn lemma_sqrt_floor_nonneg(n: int)
    ensures
        sqrt_floor(n) >= 0,
    decreases n,
{
    if n > 0 {
        lemma_sqrt_floor_nonneg(n - 1);
    }
}

/// Law: a deposit into a running pool mints shares matching, within
/// integer rounding, the deposited fraction of the pool against the
/// fee-adjusted supply: the shares never claim more of the enlarged pool
/// than the deposit added, and one share more would already overshoot the
/// deposit on the binding side.
pub proof fn lemma_deposit_share_of_supply(
    p: Pair,
    caller: ActorId,
    program_id: ActorId,
    desired: (u128, u128),
    min: (u128, u128),
    to: ActorId,
    fee_to: ActorId,
)
    requires
        p.ft_state.total_supply@ != 0,
        p.reserve.0 >= 1,
        p.reserve.1 >= 1,
    ensures
        match p.spec_add_liquidity(caller, program_id, desired, min, to, fee_to) {
            Ok(o) => {
                let tf = p.ft_state.total_supply@ + o.fee;
                let r0 = p.reserve.0 as int;
                let r1 = p.reserve.1 as int;
                &&& o.liquidity * (r0 + o.amount.0) <= o.amount.0 * (tf + o.liquidity)
                &&& o.liquidity * (r1 + o.amount.1) <= o.amount.1 * (tf + o.liquidity)
                &&& ((o.liquidity + 1) * r0 > o.amount.0 * tf || (o.liquidity + 1) * r1
                    > o.amount.1 * tf)
            },
            Err(_) => true,
        },
{
    match p.spec_add_liquidity(caller, program_id, desired, min, to, fee_to) {
        Ok(o) => {
            lemma_fee_nonneg(p, fee_to);
            let tf = p.ft_state.total_supply@ + o.fee;
            lemma_subsequent_deposit_share(
                o.amount.0 as int,
                o.amount.1 as int,
                p.reserve.0 as int,
                p.reserve.1 as int,
                tf,
            );
        },
        Err(_) => {},
    }
}

/// The arithmetic heart of the deposit-share law, over the minted-share
/// formula itself.
pub proof fn lemma_subsequent_deposit_share(a0: int, a1: int, r0: int, r1: int, tf: int)
    requires
        r0 >= 1,
        r1 >= 1,
        tf >= 0,
        a0 >= 0,
        a1 >= 0,
    ensures
        ({
            let liq = subsequent_liquidity(a0, a1, r0, r1, tf);
            &&& liq * (r0 + a0) <= a0 * (tf + liq)
            &&& liq * (r1 + a1) <= a1 * (tf + liq)
            &&& (liq + 1) * r0 > a0 * tf || (liq + 1) * r1 > a1 * tf
        }),
{
    let qa = a0 * tf / r0;
    let qb = a1 * tf / r1;
    let liq = subsequent_liquidity(a0, a1, r0, r1, tf);
    lemma_fundamental_div_mod(a0 * tf, r0);
    lemma_mod_division_less_than_divisor(a0 * tf, r0);
    lemma_fundamental_div_mod(a1 * tf, r1);
    lemma_mod_division_less_than_divisor(a1 * tf, r1);
    let rema = a0 * tf % r0;
    let remb = a1 * tf % r1;
    assert(liq == qa || liq == qb);
    assert(liq <= qa && liq <= qb);
    assert(qa >= 0 && qb >= 0) by (nonlinear_arith)
        requires
            a0 * tf == r0 * qa + rema,
            a1 * tf == r1 * qb + remb,
            0 <= rema < r0,
            0 <= remb < r1,
            a0 >= 0,
            a1 >= 0,
            tf >= 0,
            r0 >= 1,
            r1 >= 1,
    ;
    assert(liq * (r0 + a0) <= a0 * (tf + liq)) by (nonlinear_arith)
        requires
            a0 * tf == r0 * qa + rema,
            rema >= 0,
            liq <= qa,
            liq >= 0,
            a0 >= 0,
            r0 >= 1,
    ;
    assert(liq * (r1 + a1) <= a1 * (tf + liq)) by (nonlinear_arith)
        requires
            a1 * tf == r1 * qb + remb,
            remb >= 0,
            liq <= qb,
            liq >= 0,
            a1 >= 0,
            r1 >= 1,
    ;
    if liq == qa {
        assert((qa + 1) * r0 > a0 * tf) by (nonlinear_arith)
            requires
                a0 * tf == r0 * qa + rema,
                rema < r0,
    ;
    } else {
        assert((qb + 1) * r1 > a1 * tf) by (nonlinear_arith)
            requires
                a1 * tf == r1 * qb + remb,
                remb < r1,
    ;
    }
}

} // verus!

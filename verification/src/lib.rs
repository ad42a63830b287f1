//! Constant-product automated-market-maker core: pair liquidity and swap
//! mathematics, protocol-fee accrual, time-weighted price accumulation, and
//! the router's multi-hop orchestration logic, all as verified functions over
//! plain values. Actor messaging, which carries these values between the
//! router, pairs, the factory and token programs, stays outside the library.
use vstd::prelude::*;

pub mod amount;
pub mod error;
pub mod ledger;
pub mod math;
pub mod pair;
pub mod router;
pub mod wvara;

verus! {

/// An actor address, reduced to the integer identity the exchange logic
/// reads: equality, the total order used for canonical pair ordering, and
/// the distinguished zero (null) address.
pub type ActorId = u64;

/// Liquidity permanently locked into the pair's own ledger entry by the
/// first deposit, so the share price cannot be manipulated at zero supply.
pub const MINIMUM_LIQUIDITY: u128 = 1000;

} // verus!

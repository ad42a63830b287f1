//! Error kinds of the pair's liquidity and swap operations, including the
//! pure quoting helpers.
use vstd::prelude::*;

verus! {

/// Why a pair-level operation or a quoting helper failed.
#[derive(Clone, Copy, Debug, PartialEq, Eq, Structural)]
pub enum Error {
    /// A mutating operation was invoked by an actor other than the
    /// registered router.
    InvalidRouter,
    /// An amount was too small, or a reserve needed for quoting was zero.
    InsufficientAmount,
    /// The first of the two deposit amounts fell below its minimum.
    InsufficientFormerAmount,
    /// The second of the two deposit amounts fell below its minimum.
    InsufficientLatterAmount,
    /// Liquidity shares to mint or burn came out as zero, reserves were
    /// empty, or a withdrawal asked for more than the available liquidity.
    InsufficientLiquidity,
    /// An intermediate product or sum exceeded the supported width.
    Overflow,
    /// The factory's fee-receiver reply could not be used.
    FeeToGettingFailed,
    /// The operation's deadline lies in the past.
    DeadlineExceeded,
    /// The zero address appeared where a real actor is required.
    ZeroActorId,
    /// The two tokens of a would-be pair are the same actor.
    IdenticalTokens,
    /// A reserve query named tokens other than the pair's own.
    InvalidTokens,
    /// A swap recipient was one of the pair's own tokens.
    InvalidRecipient,
    /// An underlying token transfer failed.
    TransferFailed,
    /// A share transfer drew on an allowance that was too small.
    InsufficientAllowance,
}

} // verus!

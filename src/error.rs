use vstd::prelude::*;

verus! {

/// Every way an instruction of the pool can be refused.
#[derive(Clone, Copy, Debug, PartialEq, Eq, Structural)]
pub enum ErrorCode {
    /// A refusal with no more specific reason.
    CustomError,
    /// The pool is not active.
    PoolNotActive,
    /// The pool is paused.
    PoolPaused,
    /// An amount does not fit, or a checked subtraction would go below zero.
    MathOverflow,
    /// A reserve is empty or too small for the operation.
    InsufficientReserves,
    /// The computed amount misses the caller's minimum or the receipt.
    SlippageExceeded,
    /// Every slot of the provider's position table is taken.
    MaxPoolsReached,
    /// A token balance is too low for the operation.
    InsufficientTokenBalance,
    /// An amount is zero or an address is malformed.
    InvalidAmount,
    /// The provider or a vault holds fewer tokens than the operation moves.
    InsufficientFunds,
    /// The pool or the position holds less liquidity than asked for.
    InsufficientLiquidity,
    /// The provider holds fewer LP tokens than asked for, in its position or
    /// in its wallet.
    InsufficientLpTokens,
    /// The provider holds no position in the pool.
    ProviderNotFound,
    /// The account is already delegated.
    AlreadyDelegated,
    /// The account is not delegated.
    NotDelegated,
}

} // verus!

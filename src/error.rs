use vstd::prelude::*;

verus! {

/// Why an operation was refused. Every refusal leaves all balances unchanged.
#[derive(Debug, Clone, Copy, PartialEq, Eq, Structural)]
pub enum AmmError {
    /// A computed leg is zero, or no minimum amount was given.
    InvalidAmount,
    /// The quantity of shares to redeem is zero.
    ZeroBalance,
    /// An account holds less than it is asked to give up.
    InsufficientBalance,
    /// A computed amount is below the caller's floor.
    SlippageExceeded,
    /// The pool is locked against withdrawals.
    PoolLocked,
    /// Overflow or division by zero in the arithmetic.
    ArithmeticError,
}

} // verus!

//! The pool record and the balance moves that the operations are made of.
use vstd::prelude::*;

use crate::curve::BPS_DENOMINATOR;
use crate::error::AmmError;

verus! {

/// A 32-byte account identity.
#[derive(Debug, Clone, Copy, PartialEq, Eq)]
pub struct Pubkey {
    pub bytes: [u8; 32],
}

/// The persistent record of one pool.
#[derive(Debug, Clone, Copy, PartialEq, Eq)]
pub struct Config {
    /// Caller-chosen discriminant that identifies the pool.
    pub seed: u64,
    /// Who may perform administrative actions, if anyone.
    pub authority: Option<Pubkey>,
    pub mint_x: Pubkey,
    pub mint_y: Pubkey,
    /// Swap fee in basis points.
    pub fee: u16,
    /// When set, withdrawals are refused.
    pub locked: bool,
    pub config_bump: u8,
    pub lp_bump: u8,
}

impl Config {
    /// The fee is at most the whole input.
    pub open spec fn wf(self) -> bool {
        self.fee <= BPS_DENOMINATOR
    }
}

/// Reserves back every outstanding pool share: with shares issued, neither
/// reserve is empty.
pub open spec fn reserves_back_supply(reserve_x: int, reserve_y: int, lp_supply: int) -> bool {
    lp_supply > 0 ==> reserve_x > 0 && reserve_y > 0
}

/// Balances `(from, to)` after `amount` moves from one account to the other.
pub open spec fn moved(from: u64, to: u64, amount: u64) -> Result<(u64, u64), AmmError> {
    if from < amount {
        Err(AmmError::InsufficientBalance)
    } else if to + amount > u64::MAX {
        Err(AmmError::ArithmeticError)
    } else {
        Ok(((from - amount) as u64, (to + amount) as u64))
    }
}

/// Moves `amount` from the balance `from` to the balance `to`, returning both
/// new balances. Refused when `from` holds too little or `to` would overflow.
pub fn move_balance(from: u64, to: u64, amount: u64) -> (r: Result<(u64, u64), AmmError>)
    ensures
        r == moved(from, to, amount),
{
    if from < amount {
        Err(AmmError::InsufficientBalance)
    } else {
        match to.checked_add(amount) {
            Some(sum) => Ok((from - amount, sum)),
            None => Err(AmmError::ArithmeticError),
        }
    }
}

} // verus!

//! Proportional redemption of pool shares.
use vstd::prelude::*;

use crate::curve::{
    lemma_withdrawal_proportional, withdraw_amounts_from_shares, withdrawal_quote, WithdrawalAmounts,
};
use crate::error::AmmError;
use crate::state::{move_balance, moved, reserves_back_supply, Config};

verus! {

/// What a withdrawal reads and moves: the pool record, the pool's vault
/// balances, the share supply, and the caller's share and asset balances.
#[derive(Debug, Clone, Copy, PartialEq, Eq)]
pub struct Withdraw {
    pub config: Config,
    pub vault_x: u64,
    pub vault_y: u64,
    /// Pool shares outstanding.
    pub lp_supply: u64,
    /// Pool shares held by the caller.
    pub user_lp: u64,
    pub user_x: u64,
    pub user_y: u64,
}

impl Withdraw {
    /// The caller's shares are part of the supply.
    pub open spec fn wf(self) -> bool {
        &&& self.config.wf()
        &&& self.user_lp <= self.lp_supply
    }

    /// The balances after the pool pays `amount` of X (`is_x`) or Y from its
    /// vault to the caller.
    pub open spec fn paid_out(self, is_x: bool, amount: u64) -> Result<Withdraw, AmmError> {
        if is_x {
            match moved(self.vault_x, self.user_x, amount) {
                Ok((v, u)) => Ok(Withdraw { vault_x: v, user_x: u, ..self }),
                Err(e) => Err(e),
            }
        } else {
            match moved(self.vault_y, self.user_y, amount) {
                Ok((v, u)) => Ok(Withdraw { vault_y: v, user_y: u, ..self }),
                Err(e) => Err(e),
            }
        }
    }

    /// The balances after `amount` of the caller's shares are burned.
    pub open spec fn burned(self, amount: u64) -> Result<Withdraw, AmmError> {
        if self.user_lp < amount {
            Err(AmmError::InsufficientBalance)
        } else if self.lp_supply < amount {
            Err(AmmError::ArithmeticError)
        } else {
            Ok(
                Withdraw {
                    user_lp: (self.user_lp - amount) as u64,
                    lp_supply: (self.lp_supply - amount) as u64,
                    ..self
                },
            )
        }
    }

    /// The balances after a whole withdrawal of `amount` shares with floors
    /// `min_x` and `min_y`: the checks in order, then both payouts, then the
    /// burn.
    pub open spec fn withdrawn(self, amount: u64, min_x: u64, min_y: u64) -> Result<Withdraw, AmmError> {
        if self.config.locked {
            Err(AmmError::PoolLocked)
        } else if amount == 0 {
            Err(AmmError::ZeroBalance)
        } else if min_x == 0 && min_y == 0 {
            Err(AmmError::InvalidAmount)
        } else if amount > self.user_lp {
            Err(AmmError::InsufficientBalance)
        } else {
            match withdrawal_quote(self.vault_x as int, self.vault_y as int, self.lp_supply as int, amount as int) {
                Ok(w) => if min_x > w.x || min_y > w.y {
                    Err(AmmError::SlippageExceeded)
                } else {
                    match self.paid_out(true, w.x) {
                        Ok(s) => match s.paid_out(false, w.y) {
                            Ok(t) => t.burned(amount),
                            Err(e) => Err(e),
                        },
                        Err(e) => Err(e),
                    }
                },
                Err(e) => Err(e),
            }
        }
    }

    /// Redeems `amount` of the caller's pool shares for their proportional
    /// part of both reserves, each at least its floor. On success the
    /// balances are those of `withdrawn` and the result is the amounts paid
    /// out; on failure nothing has moved. A
    /// locked pool refuses every withdrawal. Burning the whole supply empties
    /// both vaults, and reserves that back the supply still do afterwards.
    pub fn withdraw(&mut self, amount: u64, min_x: u64, min_y: u64) -> (r: Result<WithdrawalAmounts, AmmError>)
        requires
            old(self).wf(),
        ensures
            final(self).wf(),
            match old(self).withdrawn(amount, min_x, min_y) {
                Ok(s) => r is Ok && *final(self) == s,
                Err(e) => r == Err::<WithdrawalAmounts, AmmError>(e) && *final(self) == *old(self),
            },
            r is Ok ==> r == withdrawal_quote(
                old(self).vault_x as int,
                old(self).vault_y as int,
                old(self).lp_supply as int,
                amount as int,
            ),
            old(self).config.locked ==> r == Err::<WithdrawalAmounts, AmmError>(AmmError::PoolLocked),
            r is Ok && amount == old(self).lp_supply ==> final(self).vault_x == 0 && final(self).vault_y == 0
                && final(self).lp_supply == 0,
            r is Ok && reserves_back_supply(old(self).vault_x as int, old(self).vault_y as int, old(self).lp_supply as int)
                ==> reserves_back_supply(final(self).vault_x as int, final(self).vault_y as int, final(self).lp_supply as int),
    {
        if self.config.locked {
            return Err(AmmError::PoolLocked);
        }
        if amount == 0 {
            return Err(AmmError::ZeroBalance);
        }
        if min_x == 0 && min_y == 0 {
            return Err(AmmError::InvalidAmount);
        }
        if amount > self.user_lp {
            return Err(AmmError::InsufficientBalance);
        }
        let amounts = match withdraw_amounts_from_shares(self.vault_x, self.vault_y, self.lp_supply, amount) {
            Ok(w) => w,
            Err(e) => return Err(e),
        };
        if min_x > amounts.x || min_y > amounts.y {
            return Err(AmmError::SlippageExceeded);
        }
        proof {
            lemma_withdrawal_proportional(self.vault_x, self.vault_y, self.lp_supply, amount);
        }
        let mut next = *self;
        match next.withdraw_tokens(true, amounts.x) {
            Ok(()) => {},
            Err(e) => return Err(e),
        }
        match next.withdraw_tokens(false, amounts.y) {
            Ok(()) => {},
            Err(e) => return Err(e),
        }
        match next.burn_lp_tokens(amount) {
            Ok(()) => {},
            Err(e) => return Err(e),
        }
        *self = next;
        Ok(amounts)
    }

    /// Moves `amount` of X (`is_x`) or Y from the pool's vault to the caller.
    pub fn withdraw_tokens(&mut self, is_x: bool, amount: u64) -> (r: Result<(), AmmError>)
        ensures
            match old(self).paid_out(is_x, amount) {
                Ok(s) => r is Ok && *final(self) == s,
                Err(e) => r == Err::<(), AmmError>(e) && *final(self) == *old(self),
            },
    {
        if is_x {
            match move_balance(self.vault_x, self.user_x, amount) {
                Ok((v, u)) => {
                    self.vault_x = v;
                    self.user_x = u;
                    Ok(())
                },
                Err(e) => Err(e),
            }
        } else {
            match move_balance(self.vault_y, self.user_y, amount) {
                Ok((v, u)) => {
                    self.vault_y = v;
                    self.user_y = u;
                    Ok(())
                },
                Err(e) => Err(e),
            }
        }
    }

    /// Burns `amount` of the caller's pool shares, reducing the supply.
    pub fn burn_lp_tokens(&mut self, amount: u64) -> (r: Result<(), AmmError>)
        ensures
            match old(self).burned(amount) {
                Ok(s) => r is Ok && *final(self) == s,
                Err(e) => r == Err::<(), AmmError>(e) && *final(self) == *old(self),
            },
    {
        if self.user_lp < amount {
            return Err(AmmError::InsufficientBalance);
        }
        if self.lp_supply < amount {
            return Err(AmmError::ArithmeticError);
        }
        self.user_lp = self.user_lp - amount;
        self.lp_supply = self.lp_supply - amount;
        Ok(())
    }
}

} // verus!

//! Exchange of one pool asset for the other.
use vstd::prelude::*;

use crate::curve::{lemma_swap_keeps_product, price_swap, swap_quote, SwapResult};
use crate::error::AmmError;
use crate::state::{move_balance, moved, Config};

verus! {

/// What a swap reads and moves: the pool record, the pool's two vault
/// balances and the caller's two balances.
#[derive(Debug, Clone, Copy, PartialEq, Eq)]
pub struct Swap {
    pub config: Config,
    pub vault_x: u64,
    pub vault_y: u64,
    pub user_x: u64,
    pub user_y: u64,
}

impl Swap {
    pub open spec fn wf(self) -> bool {
        self.config.wf()
    }

    /// The vault balances as `(reserve_in, reserve_out)` for a swap that pays
    /// in X (`is_x`) or Y.
    pub open spec fn reserves(self, is_x: bool) -> (u64, u64) {
        if is_x {
            (self.vault_x, self.vault_y)
        } else {
            (self.vault_y, self.vault_x)
        }
    }

    /// The balances after the caller pays `amount` of the input asset into
    /// its vault.
    pub open spec fn deposited(self, is_x: bool, amount: u64) -> Result<Swap, AmmError> {
        if is_x {
            match moved(self.user_x, self.vault_x, amount) {
                Ok((u, v)) => Ok(Swap { user_x: u, vault_x: v, ..self }),
                Err(e) => Err(e),
            }
        } else {
            match moved(self.user_y, self.vault_y, amount) {
                Ok((u, v)) => Ok(Swap { user_y: u, vault_y: v, ..self }),
                Err(e) => Err(e),
            }
        }
    }

    /// The balances after the pool pays `amount` of the output asset from its
    /// vault to the caller.
    pub open spec fn paid_out(self, is_x: bool, amount: u64) -> Result<Swap, AmmError> {
        if is_x {
            match moved(self.vault_y, self.user_y, amount) {
                Ok((v, u)) => Ok(Swap { vault_y: v, user_y: u, ..self }),
                Err(e) => Err(e),
            }
        } else {
            match moved(self.vault_x, self.user_x, amount) {
                Ok((v, u)) => Ok(Swap { vault_x: v, user_x: u, ..self }),
                Err(e) => Err(e),
            }
        }
    }

    /// The balances after a whole swap: priced against the current vaults,
    /// then the deposit, then the payout.
    pub open spec fn swapped(self, is_x: bool, amount: u64, min: u64) -> Result<Swap, AmmError> {
        let (reserve_in, reserve_out) = self.reserves(is_x);
        match swap_quote(reserve_in as int, reserve_out as int, self.config.fee as int, amount as int, min as int) {
            Ok(q) => match self.deposited(is_x, q.deposit) {
                Ok(s) => s.paid_out(is_x, q.withdraw),
                Err(e) => Err(e),
            },
            Err(e) => Err(e),
        }
    }

    /// Swaps `amount` of X for Y (`is_x`) or of Y for X, paying out at least
    /// `min`. On success the balances are those of `swapped`, the result is
    /// the priced deposit and payout, the product of the vaults has not
    /// decreased and non-empty vaults stay non-empty; on failure nothing has
    /// moved. The lock flag does not apply to swaps.
    pub fn swap(&mut self, is_x: bool, amount: u64, min: u64) -> (r: Result<SwapResult, AmmError>)
        requires
            old(self).wf(),
        ensures
            final(self).wf(),
            match old(self).swapped(is_x, amount, min) {
                Ok(s) => r is Ok && *final(self) == s,
                Err(e) => r == Err::<SwapResult, AmmError>(e) && *final(self) == *old(self),
            },
            r is Ok ==> r == swap_quote(
                old(self).reserves(is_x).0 as int,
                old(self).reserves(is_x).1 as int,
                old(self).config.fee as int,
                amount as int,
                min as int,
            ),
            r is Ok ==> final(self).vault_x * final(self).vault_y >= old(self).vault_x * old(self).vault_y,
            r is Ok && old(self).vault_x > 0 && old(self).vault_y > 0 ==> final(self).vault_x > 0
                && final(self).vault_y > 0,
    {
        let (reserve_in, reserve_out) = if is_x {
            (self.vault_x, self.vault_y)
        } else {
            (self.vault_y, self.vault_x)
        };
        let quote = match price_swap(reserve_in, reserve_out, self.config.fee, amount, min) {
            Ok(q) => q,
            Err(e) => return Err(e),
        };
        proof {
            lemma_swap_keeps_product(reserve_in, reserve_out, self.config.fee, amount, min);
        }
        let mut next = *self;
        match next.deposit_tokens(is_x, quote.deposit) {
            Ok(()) => {},
            Err(e) => return Err(e),
        }
        match next.withdraw_tokens(is_x, quote.withdraw) {
            Ok(()) => {},
            Err(e) => return Err(e),
        }
        proof {
            let (a, b) = (next.vault_x, next.vault_y);
            let (c, d) = (self.vault_x, self.vault_y);
            assert(a * b == b * a && c * d == d * c) by (nonlinear_arith);
            assert(c > 0 && d > 0 && a * b >= c * d ==> a > 0 && b > 0) by (nonlinear_arith);
        }
        *self = next;
        Ok(quote)
    }

    /// Moves `amount` of the input asset from the caller to the pool's vault.
    pub fn deposit_tokens(&mut self, is_x: bool, amount: u64) -> (r: Result<(), AmmError>)
        ensures
            match old(self).deposited(is_x, amount) {
                Ok(s) => r is Ok && *final(self) == s,
                Err(e) => r == Err::<(), AmmError>(e) && *final(self) == *old(self),
            },
    {
        if is_x {
            match move_balance(self.user_x, self.vault_x, amount) {
                Ok((u, v)) => {
                    self.user_x = u;
                    self.vault_x = v;
                    Ok(())
                },
                Err(e) => Err(e),
            }
        } else {
            match move_balance(self.user_y, self.vault_y, amount) {
                Ok((u, v)) => {
                    self.user_y = u;
                    self.vault_y = v;
                    Ok(())
                },
                Err(e) => Err(e),
            }
        }
    }

    /// Moves `amount` of the output asset from the pool's vault to the caller.
    pub fn withdraw_tokens(&mut self, is_x: bool, amount: u64) -> (r: Result<(), AmmError>)
        ensures
            match old(self).paid_out(is_x, amount) {
                Ok(s) => r is Ok && *final(self) == s,
                Err(e) => r == Err::<(), AmmError>(e) && *final(self) == *old(self),
            },
    {
        if is_x {
            match move_balance(self.vault_y, self.user_y, amount) {
                Ok((v, u)) => {
                    self.vault_y = v;
                    self.user_y = u;
                    Ok(())
                },
                Err(e) => Err(e),
            }
        } else {
            match move_balance(self.vault_x, self.user_x, amount) {
                Ok((v, u)) => {
                    self.vault_x = v;
                    self.user_x = u;
                    Ok(())
                },
                Err(e) => Err(e),
            }
        }
    }
}

} // verus!

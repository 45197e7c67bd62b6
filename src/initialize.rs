//! Creation of a pool record.
use vstd::prelude::*;

use crate::curve::BPS_DENOMINATOR;
use crate::error::AmmError;
use crate::state::{Config, Pubkey};

verus! {

/// The derivation bumps found for the pool's record and share mint.
#[derive(Debug, Clone, Copy, PartialEq, Eq, Structural)]
pub struct InitializeBumps {
    pub config: u8,
    pub mint_lp: u8,
}

/// What pool creation reads and writes: the two asset identities and the
/// record being filled in.
#[derive(Debug, Clone, Copy, PartialEq, Eq)]
pub struct Initialize {
    pub mint_x: Pubkey,
    pub mint_y: Pubkey,
    pub config: Config,
}

impl Initialize {
    /// Fills in the pool record: the given seed, authority and fee, the two
    /// asset identities, unlocked.
    pub fn init(
        &mut self,
        seed: u64,
        fee: u16,
        authority: Option<Pubkey>,
        bumps: InitializeBumps,
    ) -> (r: Result<(), AmmError>)
        requires
            fee <= BPS_DENOMINATOR,
        ensures
            final(self).mint_x == old(self).mint_x,
            final(self).mint_y == old(self).mint_y,
            final(self).config == (Config {
                seed,
                authority,
                mint_x: old(self).mint_x,
                mint_y: old(self).mint_y,
                fee,
                locked: false,
                config_bump: bumps.config,
                lp_bump: bumps.mint_lp,
            }),
            final(self).config.wf(),
            r is Ok,
    {
        self.config = Config {
            seed,
            authority,
            mint_x: self.mint_x,
            mint_y: self.mint_y,
            fee,
            locked: false,
            config_bump: bumps.config,
            lp_bump: bumps.mint_lp,
        };
        Ok(())
    }
}

} // verus!

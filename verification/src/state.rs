//! The two kinds of account the program owns: an AMM's configuration and a
//! pool's configuration.

use vstd::prelude::*;

use crate::key::{key_lt, Pubkey};

verus! {

/// The configuration shared by every pool of one AMM.
#[derive(Clone, Copy, Debug)]
pub struct AmmConfig {
    /// Who created the AMM; part of its address.
    pub maker: Pubkey,
    /// Who may pause it, change its fee and hand administration on.
    pub admin: Pubkey,
    /// The maker's number for this AMM; part of its address.
    pub id: u64,
    /// The swap fee, in basis points.
    pub fee: u16,
    /// 1 while paused, 0 otherwise.
    pub paused: u8,
    pub bump: u8,
}

impl AmmConfig {
    /// What every stored configuration satisfies: a fee below 10,000 basis
    /// points and a pause flag of 0 or 1.
    pub open spec fn valid(self) -> bool {
        &&& self.fee < 10_000
        &&& self.paused <= 1
    }

    /// The configuration with only its pause flag replaced.
    pub open spec fn with_paused(self, paused: u8) -> AmmConfig {
        AmmConfig { paused, ..self }
    }

    /// The configuration with only its fee replaced.
    pub open spec fn with_fee(self, fee: u16) -> AmmConfig {
        AmmConfig { fee, ..self }
    }

    /// The configuration with only its admin replaced.
    pub open spec fn with_admin(self, admin: Pubkey) -> AmmConfig {
        AmmConfig { admin, ..self }
    }

    /// Whether `key` is this AMM's admin: the account a privileged
    /// instruction names as admin must be this one.
    pub fn has_admin(&self, key: &Pubkey) -> (r: bool)
        ensures
            r == (self.admin@ == key@),
    {
        self.admin.equals(key)
    }
}

/// The configuration of one pool: the AMM it belongs to and its two mints.
#[derive(Clone, Copy, Debug)]
pub struct PoolConfig {
    /// The address of the AMM's configuration.
    pub amm_config: Pubkey,
    pub mint_a: Pubkey,
    pub mint_b: Pubkey,
    pub bump: u8,
    pub lp_bump: u8,
}

impl PoolConfig {
    /// What every stored pool satisfies: its mints are distinct and in
    /// order, `mint_a` first.
    pub open spec fn valid(self) -> bool {
        key_lt(self.mint_a@, self.mint_b@)
    }
}

} // verus!

//! Account layouts of the strategy vault.
use vstd::prelude::*;

verus! {

/// A vault that pools deposits and points at its active strategy.
#[derive(Clone, Copy, Debug)]
pub struct Vault {
    pub bump: u8,
    pub authority: [u8; 32],
    pub total_deposited: u64,
    pub active_strategy: [u8; 32],
    pub encrypted_routing_hash: [u8; 32],
    pub last_rebalance_ts: i64,
}

/// Account size of a vault: discriminator, bump, authority, total deposited,
/// active strategy, routing hash, last rebalance time.
pub const VAULT_SPACE: usize = 8 + 1 + 32 + 8 + 32 + 32 + 8;

/// The risk cap of a strategy.
#[derive(Clone, Copy, PartialEq, Eq, Debug, Structural)]
pub enum RiskLevel {
    Low,
    Medium,
    High,
}

/// How often a strategy rebalances.
#[derive(Clone, Copy, PartialEq, Eq, Debug, Structural)]
pub enum RebalanceFrequency {
    Daily,
    Weekly,
    Monthly,
}

/// A yield strategy.
#[derive(Clone, Copy, Debug)]
pub struct Strategy {
    pub bump: u8,
    pub creator: [u8; 32],
    pub apy_target: u16,
    pub risk_level: RiskLevel,
    pub frequency: RebalanceFrequency,
    pub last_rebalance_ts: i64,
    pub mev_time_delay: u64,
    pub strategy_nft_mint: [u8; 32],
    pub is_active: bool,
}

/// Account size of a strategy.
pub const STRATEGY_SPACE: usize = 8 + 1 + 32 + 2 + 1 + 1 + 8 + 8 + 32 + 1;

/// A user's share of a vault.
#[derive(Clone, Copy, Debug)]
pub struct UserPosition {
    pub owner: [u8; 32],
    pub vault: [u8; 32],
    pub deposited_amount: u64,
    pub shares: u64,
}

/// Account size of a user position.
pub const USER_POSITION_SPACE: usize = 8 + 32 + 32 + 8 + 8;

} // verus!

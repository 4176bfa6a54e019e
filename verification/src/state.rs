//! On-chain account data of the orderbook program, with keys held as their
//! 32 raw bytes.
use vstd::prelude::*;

pub mod orderbook;
pub mod vault;

verus! {

/// The orderbook account.
#[derive(Clone, Copy, Debug)]
pub struct Orderbook {
    pub admin: [u8; 32],
    pub arcium_artifact_id: [u8; 32],
    pub arcium_verification_key: [u8; 32],
    pub arcium_mxe_public_key: [u8; 32],
    pub escrow_authority_bump: u8,
    pub order_count: u64,
    pub token_int: [u8; 32],
    pub total_volume: u64,
    pub total_matches: u64,
    pub created_at: i64,
    pub token_mint: [u8; 32],
}

/// Lifecycle of an order: placed orders are pending, queued while the cluster
/// matches them, and end filled or cancelled.
#[derive(Clone, Copy, PartialEq, Eq, Debug, Structural)]
pub enum OrderStatus {
    Pending,
    Queued,
    Processing,
    Filled,
    Cancelled,
}

impl Default for OrderStatus {
    fn default() -> (r: Self)
        ensures
            r == OrderStatus::Pending,
    {
        OrderStatus::Pending
    }
}

/// An order account: the ciphertext of the order and the escrow locked for it.
#[derive(Clone, Copy, Debug)]
pub struct Order {
    pub owner: [u8; 32],
    pub order_id: u64,
    pub encryption_pubkey: [u8; 32],
    pub nonce: u128,
    pub escrow_amount: u64,
    pub status: OrderStatus,
    pub order_ciphertext: [u8; 96],
    pub placed_at: i64,
    pub updated_at: i64,
}

/// The yield protocols a position can be routed to.
#[derive(Clone, Copy, PartialEq, Eq, Debug, Structural)]
pub enum Protocol {
    Raydium,
    Drift,
    Solend,
    DarkPool,
}

impl Default for Protocol {
    fn default() -> (r: Self)
        ensures
            r == Protocol::Raydium,
    {
        Protocol::Raydium
    }
}

/// A yield position account.
#[derive(Clone, Copy, Debug)]
pub struct YieldPosition {
    pub owner: [u8; 32],
    pub position_id: u64,
    pub escrowed_tokens: u64,
    pub protocol: Protocol,
    pub position_ciphertext: [u8; 96],
    pub encryption_pubkey: [u8; 32],
    pub nonce: u128,
    pub accrued_yield: u64,
    pub last_compounded_at: i64,
    pub auto_compound: bool,
    pub created_at: i64,
    pub updated_at: i64,
}

/// The record that a settlement bundle was executed; one exists per bundle
/// hash.
#[derive(Clone, Copy, Debug)]
pub struct SettlementRecord {
    pub settlement_hash: [u8; 32],
    pub bundle_timestamp: i64,
    pub relayer: [u8; 32],
    pub is_yield_settlement: bool,
}

/// The header of a settlement bundle submitted by a relayer.
#[derive(Clone, Copy, Debug)]
pub struct SettlementBundleHeader {
    pub artifact_id: [u8; 32],
    pub settlement_hash: [u8; 32],
    pub timestamp: i64,
    pub amount_a_to_b: u64,
    pub amount_b_to_a: u64,
}

/// The output of the matching computation as the callback receives it.
#[derive(Clone, Copy, Debug)]
pub struct MatchOrdersOutput {
    pub matched: bool,
    pub execution_price: u64,
    pub execution_size: u64,
}

/// The output of the routing computation as the callback receives it.
#[derive(Clone, Copy, Debug)]
pub struct RouteYieldOutput {
    pub success: bool,
    pub deposit_amount: u64,
    pub target_protocol: u8,
    pub yield_rate_bps: u64,
}

/// Ciphertext fields sent alongside a match-order-pair instruction.
#[derive(Clone, Copy, Debug)]
pub struct OrderEncryptedData {
    /// Encrypted `bool`: true = buy, false = sell.
    pub is_buy_enc: [u8; 32],
    /// Encrypted `u64` price in lamports per token.
    pub price_enc: [u8; 32],
    /// Encrypted `u64` token amount.
    pub size_enc: [u8; 32],
    /// Encrypted `[u8; 32]` owner key.
    pub owner_enc: [u8; 32],
    /// Plaintext nonce (authenticated but not secret).
    pub nonce: u128,
}

} // verus!

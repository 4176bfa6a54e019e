//! Account layouts of the commitment-based orderbook.
use vstd::prelude::*;

verus! {

/// The risk cap of a strategy.
#[derive(Clone, Copy, PartialEq, Eq, Debug, Structural)]
pub enum RiskLevel {
    Low,
    Medium,
    High,
}

/// How often a strategy rebalances.
#[derive(Clone, Copy, PartialEq, Eq, Debug, Structural)]
pub enum RebalanceFrequency {
    Daily,
    Weekly,
    Dynamic,
}

/// Where yield comes from.
#[derive(Clone, Copy, PartialEq, Eq, Debug, Structural)]
pub enum YieldSource {
    Raydium,
    Drift,
    ArciumEncrypted,
}

/// Whether a vault takes deposits.
#[derive(Clone, Copy, PartialEq, Eq, Debug, Structural)]
pub enum VaultStatus {
    Active,
    Paused,
    Deprecated,
}

/// The kind of liquidity pool.
#[derive(Clone, Copy, PartialEq, Eq, Debug, Structural)]
pub enum PoolType {
    Amm,
    Clmm,
    Orderbook,
}

/// What an encrypted payload carries.
#[derive(Clone, Copy, PartialEq, Eq, Debug, Structural)]
pub enum PayloadType {
    RebalanceInput,
    OrderData,
    StrategyParams,
}

/// Where an encrypted payload is in its processing.
#[derive(Clone, Copy, PartialEq, Eq, Debug, Structural)]
pub enum PayloadStatus {
    Pending,
    Processing,
    Computed,
    Expired,
}

/// Where a transaction is.
#[derive(Clone, Copy, PartialEq, Eq, Debug, Structural)]
pub enum TxStatus {
    Pending,
    Confirmed,
    Failed,
}

/// Whether a position is open.
#[derive(Clone, Copy, PartialEq, Eq, Debug, Structural)]
pub enum PositionStatus {
    Active,
    Closed,
}

/// What a scheduled job does.
#[derive(Clone, Copy, PartialEq, Eq, Debug, Structural)]
pub enum CronJobType {
    Scan,
    Rebalance,
    Compound,
}

/// Whether a scheduled job runs.
#[derive(Clone, Copy, PartialEq, Eq, Debug, Structural)]
pub enum CronJobStatus {
    Active,
    Paused,
    Failed,
}

/// How a logged run ended.
#[derive(Clone, Copy, PartialEq, Eq, Debug, Structural)]
pub enum LogStatus {
    Success,
    Failure,
    Timeout,
}

/// Lifecycle of a committed order.
#[derive(Clone, Copy, PartialEq, Eq, Debug, Structural)]
pub enum OrderStatus {
    Pending,
    Processing,
    Filled,
    Cancelled,
}

/// Ciphertext fields of an order.
#[derive(Clone, Copy, Debug)]
pub struct OrderEncryptedData {
    pub is_buy: [u8; 32],
    pub price: [u8; 32],
    pub size: [u8; 32],
    pub owner: [u8; 32],
    pub nonce: u128,
}

/// The header of a settlement bundle.
#[derive(Clone, Copy, Debug)]
pub struct SettlementBundleHeader {
    pub artifact_id: [u8; 32],
    pub settlement_hash: [u8; 32],
    pub timestamp: i64,
}

/// A signed match result for two orders.
#[derive(Clone, Copy, Debug)]
pub struct SettlementBundle {
    pub order1_id: u64,
    pub order2_id: u64,
    pub matched: bool,
    pub execution_price: u64,
    pub execution_size: u64,
    pub commitment_hash: [u8; 32],
    pub arcium_signature: [u8; 64],
    pub artifact_id: [u8; 32],
}

/// The orderbook account.
#[derive(Clone, Copy, Debug)]
pub struct Orderbook {
    pub admin: [u8; 32],
    pub order_count: u64,
    pub token_mint: [u8; 32],
    pub escrow_authority_bump: u8,
    pub arcium_circuit_id: [u8; 32],
    pub arcium_verification_key: [u8; 32],
}

/// Account size of an orderbook.
pub const ORDERBOOK_SPACE: usize = 8 + 32 + 8 + 32 + 1 + 32 + 32;

/// A commitment to an order.
#[derive(Clone, Copy, Debug)]
pub struct OrderCommitment {
    pub owner: [u8; 32],
    pub commitment_hash: [u8; 32],
    pub encryption_pubkey: [u8; 32],
    pub nonce: u128,
    pub escrow_amount: u64,
    pub state: u8,
    pub order_id: u64,
    pub timestamp: i64,
}

/// Account size of an order commitment.
pub const ORDER_COMMITMENT_SPACE: usize = 8 + 32 + 32 + 32 + 16 + 8 + 1 + 8 + 8;

/// An order with its encrypted fields.
#[derive(Clone, Copy, Debug)]
pub struct Order {
    pub owner: [u8; 32],
    pub order_id: u64,
    pub encryption_pubkey: [u8; 32],
    pub nonce: u128,
    pub escrow_amount: u64,
    pub status: OrderStatus,
    pub order_encrypted: [u8; 32],
    pub price_encrypted: [u8; 32],
    pub size_encrypted: [u8; 32],
    pub is_buy_encrypted: [u8; 32],
}

/// Account size of an order.
pub const ORDER_SPACE: usize = 8 + 32 + 8 + 32 + 16 + 8 + 1 + 32 + 32 + 32 + 32;

/// The record of an executed settlement.
#[derive(Clone, Copy, Debug)]
pub struct SettlementRecord {
    pub settlement_hash: [u8; 32],
    pub timestamp: i64,
    pub relayer: [u8; 32],
}

/// Account size of a settlement record.
pub const SETTLEMENT_RECORD_SPACE: usize = 8 + 32 + 8 + 32;

/// Emitted when an orderbook is created.
#[derive(Clone, Copy, Debug)]
pub struct OrderbookInitialized {
    pub authority: [u8; 32],
    pub token_mint: [u8; 32],
    pub arcium_artifact_id: [u8; 32],
}

/// Emitted when an order is placed.
#[derive(Clone, Copy, Debug)]
pub struct OrderPlaced {
    pub order_id: u64,
    pub owner: [u8; 32],
    pub escrow_amount: u64,
}

/// Emitted when a match is started.
#[derive(Clone, Copy, Debug)]
pub struct MatchInitiated {
    pub order1: [u8; 32],
    pub order2: [u8; 32],
}

/// Emitted when two orders matched.
#[derive(Clone, Copy, Debug)]
pub struct OrderMatched {
    pub order1: [u8; 32],
    pub order2: [u8; 32],
    pub execution_price: u64,
    pub execution_size: u64,
}

/// Emitted when two orders failed to match.
#[derive(Clone, Copy, Debug)]
pub struct OrderMatchFailed {
    pub order1: [u8; 32],
    pub order2: [u8; 32],
}

/// Emitted when an order is cancelled.
#[derive(Clone, Copy, Debug)]
pub struct OrderCancelled {
    pub order_id: u64,
    pub owner: [u8; 32],
    pub refund_amount: u64,
}

/// Emitted when a settlement is executed.
#[derive(Clone, Copy, Debug)]
pub struct SettlementExecuted {
    pub settlement_hash: [u8; 32],
    pub order_a: [u8; 32],
    pub order_b: [u8; 32],
}

} // verus!

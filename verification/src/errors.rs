//! The program's error codes.
use vstd::prelude::*;

verus! {

/// Why an instruction was refused.
#[derive(Clone, Copy, Debug, PartialEq, Eq, Structural)]
pub enum ErrorCode {
    /// Order is not in pending status.
    OrderNotPending,
    /// Order is not in processing status.
    OrderNotProcessing,
    /// Insufficient escrow balance.
    InsufficientEscrow,
    /// Invalid order parameters.
    InvalidOrderParams,
    /// Arcium artifact ID mismatch.
    InvalidArtifactId,
    /// Invalid Arcium signature.
    InvalidArciumSignature,
    /// Settlement replay detected.
    SettlementReplay,
    /// Invalid order state.
    InvalidOrderState,
    /// Settlement data mismatch.
    SettlementMismatch,
    /// Order already cancelled.
    OrderAlreadyCancelled,
    /// Invalid escrow authority.
    InvalidEscrowAuthority,
    /// Token transfer failed.
    TokenTransferFailed,
    /// Order not found.
    OrderNotFound,
    /// Unauthorized access.
    UnauthorizedAccess,
    /// Invalid amount.
    InvalidAmount,
    /// Math overflow.
    MathOverflow,
    /// Insufficient balance.
    InsufficientBalance,
    /// Cluster not set.
    ClusterNotSet,
    /// Vault has no deposits.
    EmptyVault,
    /// MPC computation was aborted or failed.
    AbortedComputation,
    /// Invalid escrow account.
    InvalidEscrow,
    /// Only the order owner may perform this action.
    UnauthorizedOrderAccess,
    /// Settlement bundle timestamp is outside the ±120 s window.
    SettlementExpired,
    /// Order state is not valid for settlement (expected Pending or Processing).
    InvalidOrderStateForSettlement,
}

} // verus!

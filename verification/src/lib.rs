//! Private order matching and yield routing for a Solana orderbook whose
//! order contents are processed inside an Arcium MPC cluster.
//!
//! The computations that run inside the MPC circuits and the decisions of the
//! on-chain instruction handlers are plain functions over plaintext values,
//! each with a contract. Keys are held as their 32 raw bytes.
pub mod arith;
pub mod keys;
pub mod precompile;
pub mod circuits;
pub mod matching;
pub mod rebalance;
pub mod mxe_instruction;
pub mod state;
pub mod yield_router;
pub mod errors;
pub mod program;

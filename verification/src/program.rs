//! The decisions of the orderbook program's instructions.
//!
//! Each instruction reads its accounts, checks its preconditions, moves tokens
//! and writes its accounts back. The checks and the new account contents are
//! computed here from plain values: the caller hands in the accounts' data,
//! the signer's key and the cluster time, and performs the token transfers
//! and the event emission that the result describes.
use vstd::prelude::*;
use crate::errors::ErrorCode;
use crate::keys::{all_zero, is_zero_key, is_zero_signature, keys_equal};
use crate::precompile::{ed25519_attests, ed25519_instruction_attests, ED25519_PROGRAM_ID};
use crate::state::{
    Order, OrderEncryptedData, OrderStatus, Orderbook, Protocol, SettlementBundleHeader, SettlementRecord, YieldPosition,
};

verus! {

/// How far, in seconds, a settlement bundle's timestamp may be from the
/// cluster time.
pub const SETTLEMENT_WINDOW_SECS: i64 = 120;

/// Emitted when an orderbook is created.
#[derive(Clone, Copy, Debug)]
pub struct OrderbookInitialized {
    pub authority: [u8; 32],
    pub token_mint: [u8; 32],
    pub arcium_artifact_id: [u8; 32],
    pub arcium_mxe_pubkey: [u8; 32],
}

/// Emitted when an order is placed.
#[derive(Clone, Copy, Debug)]
pub struct OrderPlaced {
    pub order_id: u64,
    pub owner: [u8; 32],
    pub escrow_amount: u64,
    pub orderbook: [u8; 32],
}

/// Emitted when a pair of orders is queued for matching.
#[derive(Clone, Copy, Debug)]
pub struct MatchQueued {
    pub order1: [u8; 32],
    pub order2: [u8; 32],
}

/// Emitted when a pair of orders matched.
#[derive(Clone, Copy, Debug)]
pub struct OrderMatched {
    pub order1: [u8; 32],
    pub order2: [u8; 32],
    pub execution_price: u64,
    pub execution_size: u64,
}

/// Emitted when a queued pair of orders returns to the book unmatched.
#[derive(Clone, Copy, Debug)]
pub struct OrderMatchFailed {
    pub order1: [u8; 32],
    pub order2: [u8; 32],
}

/// Emitted when an order is cancelled and its escrow refunded.
#[derive(Clone, Copy, Debug)]
pub struct OrderCancelled {
    pub order_id: u64,
    pub owner: [u8; 32],
    pub refund_amount: u64,
}

/// Emitted when a settlement bundle is executed.
#[derive(Clone, Copy, Debug)]
pub struct SettlementExecuted {
    pub settlement_hash: [u8; 32],
    pub order_a: [u8; 32],
    pub order_b: [u8; 32],
    pub amount_a_to_b: u64,
    pub amount_b_to_a: u64,
}

/// Emitted when a yield position is opened.
#[derive(Clone, Copy, Debug)]
pub struct YieldPositionOpened {
    pub position_id: u64,
    pub owner: [u8; 32],
    pub protocol: Protocol,
    pub escrow_amount: u64,
    pub auto_compound: bool,
}

/// Emitted when a yield position is closed.
#[derive(Clone, Copy, Debug)]
pub struct YieldPositionClosed {
    pub position_id: u64,
    pub owner: [u8; 32],
    pub total_payout: u64,
}

/// What an accepted settlement does: the two escrow transfers (none when the
/// amount is zero), the replay record and the event.
#[derive(Clone, Copy, Debug)]
pub struct SettlementOutcome {
    pub transfer_a_to_b: u64,
    pub transfer_b_to_a: u64,
    pub record: SettlementRecord,
    pub event: SettlementExecuted,
}

// ---------------------------------------------------------------------------
// Orderbook creation
// ---------------------------------------------------------------------------

/// Create an orderbook administered by `authority` for `token_mint`, bound to
/// the given Arcium artifact and keys, created at `now`.
pub fn init_orderbook(
    authority: [u8; 32],
    arcium_artifact_id: [u8; 32],
    arcium_verification_key: [u8; 32],
    arcium_mxe_public_key: [u8; 32],
    escrow_authority_bump: u8,
    token_mint: [u8; 32],
    now: i64,
) -> (r: (Orderbook, OrderbookInitialized))
    ensures
        r.0 == (Orderbook {
            admin: authority,
            arcium_artifact_id,
            arcium_verification_key,
            arcium_mxe_public_key,
            escrow_authority_bump,
            order_count: 0,
            token_int: r.0.token_int,
            total_volume: 0,
            total_matches: 0,
            created_at: now,
            token_mint,
        }),
        all_zero(r.0.token_int@),
        r.1 == (OrderbookInitialized {
            authority,
            token_mint,
            arcium_artifact_id,
            arcium_mxe_pubkey: arcium_mxe_public_key,
        }),
{
    let token_int = [0u8; 32];
    assert(all_zero(token_int@));
    let ob = Orderbook {
        admin: authority,
        arcium_artifact_id,
        arcium_verification_key,
        arcium_mxe_public_key,
        escrow_authority_bump,
        order_count: 0,
        token_int,
        total_volume: 0,
        total_matches: 0,
        created_at: now,
        token_mint,
    };
    let event = OrderbookInitialized {
        authority: ob.admin,
        token_mint: ob.token_mint,
        arcium_artifact_id,
        arcium_mxe_pubkey: arcium_mxe_public_key,
    };
    (ob, event)
}

// ---------------------------------------------------------------------------
// Order placement
// ---------------------------------------------------------------------------

/// The order that `place_order` records.
pub open spec fn placed_order(
    ob: Orderbook,
    user: [u8; 32],
    order_ciphertext: [u8; 96],
    encryption_pubkey: [u8; 32],
    nonce: u128,
    escrow_amount: u64,
    now: i64,
) -> Order {
    Order {
        owner: user,
        order_id: ob.order_count,
        encryption_pubkey,
        nonce,
        escrow_amount,
        status: OrderStatus::Pending,
        order_ciphertext,
        placed_at: now,
        updated_at: now,
    }
}

/// Place an order that locks `escrow_amount` tokens: the order takes the next
/// order id and starts pending. Refused with `InsufficientEscrow` when nothing
/// is escrowed and with `MathOverflow` when the order counter is exhausted; a
/// refusal leaves the orderbook unchanged. The caller moves `escrow_amount`
/// from the user's token account to the order's escrow.
pub fn place_order(
    orderbook: &mut Orderbook,
    orderbook_key: [u8; 32],
    user: [u8; 32],
    order_ciphertext: [u8; 96],
    encryption_pubkey: [u8; 32],
    nonce: u128,
    escrow_amount: u64,
    now: i64,
) -> (r: Result<(Order, OrderPlaced), ErrorCode>)
    ensures
        r is Ok <==> escrow_amount > 0 && old(orderbook).order_count < u64::MAX,
        escrow_amount == 0 ==> r == Err::<(Order, OrderPlaced), ErrorCode>(ErrorCode::InsufficientEscrow),
        escrow_amount > 0 && old(orderbook).order_count == u64::MAX ==> r == Err::<(Order, OrderPlaced), ErrorCode>(
            ErrorCode::MathOverflow,
        ),
        r is Err ==> *final(orderbook) == *old(orderbook),
        r matches Ok(placed) ==> {
            &&& placed.0 == placed_order(*old(orderbook), user, order_ciphertext, encryption_pubkey, nonce, escrow_amount, now)
            &&& placed.1 == (OrderPlaced {
                order_id: old(orderbook).order_count,
                owner: user,
                escrow_amount,
                orderbook: orderbook_key,
            })
            &&& *final(orderbook) == (Orderbook { order_count: (old(orderbook).order_count + 1) as u64, ..*old(orderbook) })
        },
{
    if escrow_amount == 0 {
        return Err(ErrorCode::InsufficientEscrow);
    }
    let order = Order {
        owner: user,
        order_id: orderbook.order_count,
        encryption_pubkey,
        nonce,
        escrow_amount,
        status: OrderStatus::Pending,
        order_ciphertext,
        placed_at: now,
        updated_at: now,
    };
    match orderbook.order_count.checked_add(1) {
        Some(next) => {
            orderbook.order_count = next;
        },
        None => {
            return Err(ErrorCode::MathOverflow);
        },
    }
    let event = OrderPlaced { order_id: order.order_id, owner: order.owner, escrow_amount, orderbook: orderbook_key };
    Ok((order, event))
}

// ---------------------------------------------------------------------------
// Matching
// ---------------------------------------------------------------------------

/// Whether an order is pending.
pub open spec fn is_pending(o: Order) -> bool {
    o.status == OrderStatus::Pending
}

/// One argument handed to the matching computation.
#[derive(Clone, Copy, Debug)]
pub enum MatchArg {
    /// A party's x25519 public key, under which its inputs are encrypted.
    X25519Pubkey([u8; 32]),
    /// A plaintext 128-bit value (the encryption nonce).
    PlaintextU128(u128),
    /// An encrypted `bool`.
    EncryptedBool([u8; 32]),
    /// An encrypted `u64`.
    EncryptedU64([u8; 32]),
}

/// An account the computation's callback receives.
#[derive(Clone, Copy, Debug)]
pub struct CallbackAccountRef {
    pub pubkey: [u8; 32],
    pub is_writable: bool,
}

/// The computation to queue with the cluster for a pair of orders.
#[derive(Clone, Debug)]
pub struct MatchComputation {
    pub computation_offset: u64,
    pub args: Vec<MatchArg>,
    pub callback_accounts: Vec<CallbackAccountRef>,
    pub num_callback_txs: u8,
    pub cu_price_micro: u64,
}

/// The arguments describing one order: its owner's key, its nonce, then its
/// encrypted side, price and size.
pub open spec fn order_args(d: OrderEncryptedData) -> Seq<MatchArg> {
    seq![
        MatchArg::X25519Pubkey(d.owner_enc),
        MatchArg::PlaintextU128(d.nonce),
        MatchArg::EncryptedBool(d.is_buy_enc),
        MatchArg::EncryptedU64(d.price_enc),
        MatchArg::EncryptedU64(d.size_enc),
    ]
}

/// The accounts the callback of a pair's computation writes: both orders,
/// then both escrows.
pub open spec fn match_callback_accounts(
    order1_key: [u8; 32],
    order2_key: [u8; 32],
    escrow1_key: [u8; 32],
    escrow2_key: [u8; 32],
) -> Seq<CallbackAccountRef> {
    seq![
        CallbackAccountRef { pubkey: order1_key, is_writable: true },
        CallbackAccountRef { pubkey: order2_key, is_writable: true },
        CallbackAccountRef { pubkey: escrow1_key, is_writable: true },
        CallbackAccountRef { pubkey: escrow2_key, is_writable: true },
    ]
}

/// Push the arguments describing one order.
fn push_order_args(args: &mut Vec<MatchArg>, d: &OrderEncryptedData)
    ensures
        final(args)@ == old(args)@ + order_args(*d),
{
    args.push(MatchArg::X25519Pubkey(d.owner_enc));
    args.push(MatchArg::PlaintextU128(d.nonce));
    args.push(MatchArg::EncryptedBool(d.is_buy_enc));
    args.push(MatchArg::EncryptedU64(d.price_enc));
    args.push(MatchArg::EncryptedU64(d.size_enc));
    assert(args@ =~= old(args)@ + order_args(*d));
}

/// Queue two pending orders for matching by the cluster: both become queued
/// at `now`, and the computation to queue carries order 1's arguments then
/// order 2's, with one callback transaction writing both orders and both
/// escrows. Refused with `OrderNotPending`, and both orders left unchanged,
/// when either is not pending. The caller queues the computation.
pub fn match_order_pair(
    order1: &mut Order,
    order2: &mut Order,
    order1_key: [u8; 32],
    order2_key: [u8; 32],
    escrow1_key: [u8; 32],
    escrow2_key: [u8; 32],
    computation_offset: u64,
    order1_enc: &OrderEncryptedData,
    order2_enc: &OrderEncryptedData,
    now: i64,
) -> (r: Result<(MatchQueued, MatchComputation), ErrorCode>)
    ensures
        r is Ok <==> is_pending(*old(order1)) && is_pending(*old(order2)),
        r is Err ==> r == Err::<(MatchQueued, MatchComputation), ErrorCode>(ErrorCode::OrderNotPending)
            && *final(order1) == *old(order1) && *final(order2) == *old(order2),
        r matches Ok(out) ==> {
            &&& *final(order1) == (Order { status: OrderStatus::Queued, updated_at: now, ..*old(order1) })
            &&& *final(order2) == (Order { status: OrderStatus::Queued, updated_at: now, ..*old(order2) })
            &&& out.0 == (MatchQueued { order1: order1_key, order2: order2_key })
            &&& out.1.computation_offset == computation_offset
            &&& out.1.args@ == order_args(*order1_enc) + order_args(*order2_enc)
            &&& out.1.callback_accounts@ == match_callback_accounts(order1_key, order2_key, escrow1_key, escrow2_key)
            &&& out.1.num_callback_txs == 1
            &&& out.1.cu_price_micro == 0
        },
{
    if order1.status != OrderStatus::Pending {
        return Err(ErrorCode::OrderNotPending);
    }
    if order2.status != OrderStatus::Pending {
        return Err(ErrorCode::OrderNotPending);
    }
    let mut args: Vec<MatchArg> = Vec::new();
    push_order_args(&mut args, order1_enc);
    push_order_args(&mut args, order2_enc);
    assert(args@ =~= order_args(*order1_enc) + order_args(*order2_enc));
    let mut callback_accounts: Vec<CallbackAccountRef> = Vec::new();
    callback_accounts.push(CallbackAccountRef { pubkey: order1_key, is_writable: true });
    callback_accounts.push(CallbackAccountRef { pubkey: order2_key, is_writable: true });
    callback_accounts.push(CallbackAccountRef { pubkey: escrow1_key, is_writable: true });
    callback_accounts.push(CallbackAccountRef { pubkey: escrow2_key, is_writable: true });
    assert(callback_accounts@ =~= match_callback_accounts(order1_key, order2_key, escrow1_key, escrow2_key));
    order1.status = OrderStatus::Queued;
    order2.status = OrderStatus::Queued;
    order1.updated_at = now;
    order2.updated_at = now;
    let computation = MatchComputation { computation_offset, args, callback_accounts, num_callback_txs: 1, cu_price_micro: 0 };
    Ok((MatchQueued { order1: order1_key, order2: order2_key }, computation))
}

/// Handle the cluster's answer to a queued match: when its signature does not
/// verify the answer is refused with `AbortedComputation` and both orders
/// stay as they are; otherwise both orders return to pending at `now` and the
/// pair is reported unmatched.
pub fn match_orders_callback(
    order1: &mut Order,
    order2: &mut Order,
    order1_key: [u8; 32],
    order2_key: [u8; 32],
    output_verified: bool,
    now: i64,
) -> (r: Result<OrderMatchFailed, ErrorCode>)
    ensures
        r is Ok <==> output_verified,
        !output_verified ==> r == Err::<OrderMatchFailed, ErrorCode>(ErrorCode::AbortedComputation)
            && *final(order1) == *old(order1) && *final(order2) == *old(order2),
        output_verified ==> {
            &&& *final(order1) == (Order { status: OrderStatus::Pending, updated_at: now, ..*old(order1) })
            &&& *final(order2) == (Order { status: OrderStatus::Pending, updated_at: now, ..*old(order2) })
            &&& r == Ok::<OrderMatchFailed, ErrorCode>(OrderMatchFailed { order1: order1_key, order2: order2_key })
        },
{
    if !output_verified {
        return Err(ErrorCode::AbortedComputation);
    }
    order1.status = OrderStatus::Pending;
    order2.status = OrderStatus::Pending;
    order1.updated_at = now;
    order2.updated_at = now;
    Ok(OrderMatchFailed { order1: order1_key, order2: order2_key })
}

// ---------------------------------------------------------------------------
// Settlement
// ---------------------------------------------------------------------------

/// An ed25519 signature stands: message, signature and key each have a
/// non-zero byte, and the instruction the transaction carries just before
/// this one is an Ed25519 program instruction verifying that signature by
/// that key over that message.
pub open spec fn ed25519_ok(
    message: Seq<u8>,
    signature: Seq<u8>,
    public_key: Seq<u8>,
    precompile_program: Seq<u8>,
    precompile_data: Seq<u8>,
) -> bool {
    &&& !all_zero(message)
    &&& !all_zero(signature)
    &&& !all_zero(public_key)
    &&& precompile_program == ED25519_PROGRAM_ID@
    &&& ed25519_attests(precompile_data, public_key, message, signature)
}

/// The bundle signature is acceptable: 64 bytes, a verification key that is
/// not all zero, and an ed25519 signature of the bundle hash by that key.
pub open spec fn bundle_signature_ok(
    header: SettlementBundleHeader,
    signature: Seq<u8>,
    verification_key: Seq<u8>,
    precompile_program: Seq<u8>,
    precompile_data: Seq<u8>,
) -> bool {
    &&& signature.len() == 64
    &&& !all_zero(verification_key)
    &&& ed25519_ok(header.settlement_hash@, signature, verification_key, precompile_program, precompile_data)
}

/// Check an ed25519 signature over a 32-byte message through the Ed25519
/// native program: `precompile_program` and `precompile_data` are the program
/// address and data of the instruction preceding this one in the transaction.
/// Obviously invalid (all-zero) inputs are refused first.
pub fn verify_ed25519(
    message: &[u8; 32],
    signature: &[u8; 64],
    public_key: &[u8; 32],
    precompile_program: &[u8; 32],
    precompile_data: &[u8],
) -> (r: bool)
    ensures
        r == ed25519_ok(message@, signature@, public_key@, precompile_program@, precompile_data@),
{
    if is_zero_key(message) {
        return false;
    }
    if is_zero_signature(signature) {
        return false;
    }
    if is_zero_key(public_key) {
        return false;
    }
    let ed25519_program = ED25519_PROGRAM_ID;
    if !keys_equal(precompile_program, &ed25519_program) {
        return false;
    }
    ed25519_instruction_attests(precompile_data, public_key, message, signature)
}

/// Check the cluster's signature on a settlement bundle against the
/// orderbook's verification key, given the instruction preceding this one.
pub fn verify_arcium_bundle(
    header: &SettlementBundleHeader,
    signature: &[u8],
    verification_key: &[u8; 32],
    precompile_program: &[u8; 32],
    precompile_data: &[u8],
) -> (r: bool)
    ensures
        r == bundle_signature_ok(*header, signature@, verification_key@, precompile_program@, precompile_data@),
{
    if signature.len() != 64 {
        return false;
    }
    if is_zero_key(verification_key) {
        return false;
    }
    let msg_hash: [u8; 32] = header.settlement_hash;
    let mut sig = [0u8; 64];
    let mut i: usize = 0;
    while i < 64
        invariant
            0 <= i <= 64,
            signature@.len() == 64,
            sig@.len() == 64,
            forall|j: int| 0 <= j < i ==> sig@[j] == signature@[j],
        decreases 64 - i,
    {
        sig[i] = signature[i];
        i = i + 1;
    }
    assert(sig@ =~= signature@);
    verify_ed25519(&msg_hash, &sig, verification_key, precompile_program, precompile_data)
}

/// The bundle's timestamp is within the settlement window of `now`: at most
/// 120 s away, whichever is later.
pub open spec fn within_window(now: i64, timestamp: i64) -> bool {
    -120 <= now - timestamp <= 120
}

/// Whether `timestamp` is within the settlement window of `now`, for every
/// pair of stamps.
pub fn is_within_window(now: i64, timestamp: i64) -> (r: bool)
    ensures
        r == within_window(now, timestamp),
{
    let delta: i128 = (now as i128) - (timestamp as i128);
    let window: i128 = SETTLEMENT_WINDOW_SECS as i128;
    -window <= delta && delta <= window
}

/// An order that a settlement may fill: pending or processing.
pub open spec fn settleable(o: Order) -> bool {
    o.status == OrderStatus::Pending || o.status == OrderStatus::Processing
}

/// The error, if any, with which a settlement is refused, in the order the
/// checks are made.
pub open spec fn settlement_error(
    ob: Orderbook,
    bundle: SettlementBundleHeader,
    signature: Seq<u8>,
    precompile_program: Seq<u8>,
    precompile_data: Seq<u8>,
    order_a: Order,
    order_b: Order,
    escrow_a_amount: u64,
    escrow_b_amount: u64,
    now: i64,
) -> Option<ErrorCode> {
    if bundle.artifact_id@ != ob.arcium_artifact_id@ {
        Some(ErrorCode::InvalidArtifactId)
    } else if !within_window(now, bundle.timestamp) {
        Some(ErrorCode::SettlementExpired)
    } else if !bundle_signature_ok(bundle, signature, ob.arcium_verification_key@, precompile_program, precompile_data) {
        Some(ErrorCode::InvalidArciumSignature)
    } else if !settleable(order_a) || !settleable(order_b) {
        Some(ErrorCode::InvalidOrderStateForSettlement)
    } else if bundle.amount_a_to_b > 0 && escrow_a_amount < bundle.amount_a_to_b {
        Some(ErrorCode::InsufficientEscrow)
    } else if bundle.amount_b_to_a > 0 && escrow_b_amount < bundle.amount_b_to_a {
        Some(ErrorCode::InsufficientEscrow)
    } else {
        None
    }
}

/// Execute a settlement bundle that a relayer submits for orders A and B:
/// the bundle must name the orderbook's artifact, be stamped within 120 s of
/// `now`, carry an acceptable signature, find both orders pending or
/// processing, and find each paying escrow able to cover its leg. Both orders
/// are then filled at `now`; the caller transfers the two legs from the
/// escrows and records the settlement. A refusal leaves both orders unchanged.
pub fn settle_matches(
    orderbook: &Orderbook,
    bundle: &SettlementBundleHeader,
    arcium_signature: &[u8],
    precompile_program: &[u8; 32],
    precompile_data: &[u8],
    order_a: &mut Order,
    order_b: &mut Order,
    escrow_a_amount: u64,
    escrow_b_amount: u64,
    relayer: [u8; 32],
    now: i64,
) -> (r: Result<SettlementOutcome, ErrorCode>)
    ensures
        ({
            let err = settlement_error(
                *orderbook,
                *bundle,
                arcium_signature@,
                precompile_program@,
                precompile_data@,
                *old(order_a),
                *old(order_b),
                escrow_a_amount,
                escrow_b_amount,
                now,
            );
            &&& r is Ok <==> err is None
            &&& r is Ok ==> settlement_checks_hold(
                *orderbook,
                *bundle,
                arcium_signature@,
                precompile_program@,
                precompile_data@,
                *old(order_a),
                *old(order_b),
                escrow_a_amount,
                escrow_b_amount,
                now,
            )
            &&& err matches Some(e) ==> r == Err::<SettlementOutcome, ErrorCode>(e) && *final(order_a) == *old(order_a)
                && *final(order_b) == *old(order_b)
            &&& r matches Ok(out) ==> {
                &&& *final(order_a) == (Order { status: OrderStatus::Filled, updated_at: now, ..*old(order_a) })
                &&& *final(order_b) == (Order { status: OrderStatus::Filled, updated_at: now, ..*old(order_b) })
                &&& out.transfer_a_to_b == bundle.amount_a_to_b
                &&& out.transfer_b_to_a == bundle.amount_b_to_a
                &&& out.record == (SettlementRecord {
                    settlement_hash: bundle.settlement_hash,
                    bundle_timestamp: bundle.timestamp,
                    relayer,
                    is_yield_settlement: false,
                })
                &&& out.event == (SettlementExecuted {
                    settlement_hash: bundle.settlement_hash,
                    order_a: old(order_a).owner,
                    order_b: old(order_b).owner,
                    amount_a_to_b: bundle.amount_a_to_b,
                    amount_b_to_a: bundle.amount_b_to_a,
                })
            }
        }),
{
    let ob = orderbook;
    if !keys_equal(&bundle.artifact_id, &ob.arcium_artifact_id) {
        return Err(ErrorCode::InvalidArtifactId);
    }
    if !is_within_window(now, bundle.timestamp) {
        return Err(ErrorCode::SettlementExpired);
    }
    if !verify_arcium_bundle(bundle, arcium_signature, &ob.arcium_verification_key, precompile_program, precompile_data) {
        return Err(ErrorCode::InvalidArciumSignature);
    }
    let a_state = order_a.status;
    let b_state = order_b.status;
    if !(a_state == OrderStatus::Pending || a_state == OrderStatus::Processing) {
        return Err(ErrorCode::InvalidOrderStateForSettlement);
    }
    if !(b_state == OrderStatus::Pending || b_state == OrderStatus::Processing) {
        return Err(ErrorCode::InvalidOrderStateForSettlement);
    }
    if bundle.amount_a_to_b > 0 {
        if !(escrow_a_amount >= bundle.amount_a_to_b) {
            return Err(ErrorCode::InsufficientEscrow);
        }
    }
    if bundle.amount_b_to_a > 0 {
        if !(escrow_b_amount >= bundle.amount_b_to_a) {
            return Err(ErrorCode::InsufficientEscrow);
        }
    }
    order_a.status = OrderStatus::Filled;
    order_b.status = OrderStatus::Filled;
    order_a.updated_at = now;
    order_b.updated_at = now;
    let record = SettlementRecord {
        settlement_hash: bundle.settlement_hash,
        bundle_timestamp: bundle.timestamp,
        relayer,
        is_yield_settlement: false,
    };
    let event = SettlementExecuted {
        settlement_hash: bundle.settlement_hash,
        order_a: order_a.owner,
        order_b: order_b.owner,
        amount_a_to_b: bundle.amount_a_to_b,
        amount_b_to_a: bundle.amount_b_to_a,
    };
    Ok(SettlementOutcome {
        transfer_a_to_b: bundle.amount_a_to_b,
        transfer_b_to_a: bundle.amount_b_to_a,
        record,
        event,
    })
}

// ---------------------------------------------------------------------------
// Cancellation
// ---------------------------------------------------------------------------

/// Cancel a pending order at its owner's request: the whole escrow is
/// refunded and the order becomes cancelled at `now`. Refused with
/// `OrderNotPending` when the order is not pending, else with
/// `UnauthorizedOrderAccess` when `user` does not own it; a refusal leaves the
/// order unchanged. The caller transfers the refund from the escrow.
pub fn cancel_order(order: &mut Order, user: [u8; 32], now: i64) -> (r: Result<(u64, OrderCancelled), ErrorCode>)
    ensures
        r is Ok <==> is_pending(*old(order)) && old(order).owner@ == user@,
        !is_pending(*old(order)) ==> r == Err::<(u64, OrderCancelled), ErrorCode>(ErrorCode::OrderNotPending),
        is_pending(*old(order)) && old(order).owner@ != user@ ==> r == Err::<(u64, OrderCancelled), ErrorCode>(
            ErrorCode::UnauthorizedOrderAccess,
        ),
        r is Err ==> *final(order) == *old(order),
        r is Ok ==> {
            &&& *final(order) == (Order { status: OrderStatus::Cancelled, updated_at: now, ..*old(order) })
            &&& r == Ok::<(u64, OrderCancelled), ErrorCode>(
                (
                    old(order).escrow_amount,
                    OrderCancelled {
                        order_id: old(order).order_id,
                        owner: old(order).owner,
                        refund_amount: old(order).escrow_amount,
                    },
                ),
            )
        },
{
    if order.status != OrderStatus::Pending {
        return Err(ErrorCode::OrderNotPending);
    }
    if !keys_equal(&order.owner, &user) {
        return Err(ErrorCode::UnauthorizedOrderAccess);
    }
    order.status = OrderStatus::Cancelled;
    order.updated_at = now;
    let event = OrderCancelled {
        order_id: order.order_id,
        owner: order.owner,
        refund_amount: order.escrow_amount,
    };
    Ok((order.escrow_amount, event))
}

// ---------------------------------------------------------------------------
// Yield positions
// ---------------------------------------------------------------------------

/// The position that `open_yield_position` records.
pub open spec fn opened_position(
    ob: Orderbook,
    user: [u8; 32],
    position_ciphertext: [u8; 96],
    encryption_pubkey: [u8; 32],
    nonce: u128,
    escrow_amount: u64,
    protocol: Protocol,
    auto_compound: bool,
    now: i64,
) -> YieldPosition {
    YieldPosition {
        owner: user,
        position_id: ob.order_count,
        escrowed_tokens: escrow_amount,
        protocol,
        position_ciphertext,
        encryption_pubkey,
        nonce,
        accrued_yield: 0,
        last_compounded_at: now,
        auto_compound,
        created_at: now,
        updated_at: now,
    }
}

/// Open a yield position that escrows `escrow_amount` tokens; it takes the
/// next id from the orderbook's counter. Refused with `InsufficientEscrow`
/// when nothing is escrowed and with `MathOverflow` when the counter is
/// exhausted; a refusal leaves the orderbook unchanged. The caller moves the
/// tokens into the vault.
pub fn open_yield_position(
    orderbook: &mut Orderbook,
    user: [u8; 32],
    position_ciphertext: [u8; 96],
    encryption_pubkey: [u8; 32],
    nonce: u128,
    escrow_amount: u64,
    protocol: Protocol,
    auto_compound: bool,
    now: i64,
) -> (r: Result<(YieldPosition, YieldPositionOpened), ErrorCode>)
    ensures
        r is Ok <==> escrow_amount > 0 && old(orderbook).order_count < u64::MAX,
        escrow_amount == 0 ==> r == Err::<(YieldPosition, YieldPositionOpened), ErrorCode>(ErrorCode::InsufficientEscrow),
        escrow_amount > 0 && old(orderbook).order_count == u64::MAX ==> r == Err::<
            (YieldPosition, YieldPositionOpened),
            ErrorCode,
        >(ErrorCode::MathOverflow),
        r is Err ==> *final(orderbook) == *old(orderbook),
        r matches Ok(opened) ==> {
            &&& opened.0 == opened_position(
                *old(orderbook),
                user,
                position_ciphertext,
                encryption_pubkey,
                nonce,
                escrow_amount,
                protocol,
                auto_compound,
                now,
            )
            &&& opened.1 == (YieldPositionOpened {
                position_id: old(orderbook).order_count,
                owner: user,
                protocol,
                escrow_amount,
                auto_compound,
            })
            &&& *final(orderbook) == (Orderbook { order_count: (old(orderbook).order_count + 1) as u64, ..*old(orderbook) })
        },
{
    if escrow_amount == 0 {
        return Err(ErrorCode::InsufficientEscrow);
    }
    let pos = YieldPosition {
        owner: user,
        position_id: orderbook.order_count,
        escrowed_tokens: escrow_amount,
        protocol,
        position_ciphertext,
        encryption_pubkey,
        nonce,
        accrued_yield: 0,
        last_compounded_at: now,
        auto_compound,
        created_at: now,
        updated_at: now,
    };
    match orderbook.order_count.checked_add(1) {
        Some(next) => {
            orderbook.order_count = next;
        },
        None => {
            return Err(ErrorCode::MathOverflow);
        },
    }
    let event = YieldPositionOpened {
        position_id: pos.position_id,
        owner: pos.owner,
        protocol,
        escrow_amount,
        auto_compound,
    };
    Ok((pos, event))
}

/// Close a yield position at its owner's request: the payout is the escrowed
/// tokens plus the accrued yield. Refused with `UnauthorizedOrderAccess` when
/// `user` does not own the position, else with `MathOverflow` when the payout
/// does not fit in a `u64`. The caller transfers the payout from the vault
/// and closes the account.
pub fn close_yield_position(position: &YieldPosition, user: [u8; 32]) -> (r: Result<(u64, YieldPositionClosed), ErrorCode>)
    ensures
        position.owner@ != user@ ==> r == Err::<(u64, YieldPositionClosed), ErrorCode>(ErrorCode::UnauthorizedOrderAccess),
        position.owner@ == user@ && position.escrowed_tokens + position.accrued_yield > u64::MAX ==> r == Err::<
            (u64, YieldPositionClosed),
            ErrorCode,
        >(ErrorCode::MathOverflow),
        position.owner@ == user@ && position.escrowed_tokens + position.accrued_yield <= u64::MAX ==> r == Ok::<
            (u64, YieldPositionClosed),
            ErrorCode,
        >(
            (
                (position.escrowed_tokens + position.accrued_yield) as u64,
                YieldPositionClosed {
                    position_id: position.position_id,
                    owner: position.owner,
                    total_payout: (position.escrowed_tokens + position.accrued_yield) as u64,
                },
            ),
        ),
{
    let pos = position;
    if !keys_equal(&pos.owner, &user) {
        return Err(ErrorCode::UnauthorizedOrderAccess);
    }
    let total = match pos.escrowed_tokens.checked_add(pos.accrued_yield) {
        Some(t) => t,
        None => {
            return Err(ErrorCode::MathOverflow);
        },
    };
    let event = YieldPositionClosed { position_id: pos.position_id, owner: pos.owner, total_payout: total };
    Ok((total, event))
}


// ---------------------------------------------------------------------------
// Order lifecycle
// ---------------------------------------------------------------------------

/// Filled and cancelled orders are final for every instruction a user or
/// relayer submits: matching refuses them, cancellation refuses them, and a
/// settlement naming one on either side is refused.
pub proof fn lemma_closed_orders_are_final(
    order: Order,
    other: Order,
    ob: Orderbook,
    bundle: SettlementBundleHeader,
    signature: Seq<u8>,
    precompile_program: Seq<u8>,
    precompile_data: Seq<u8>,
    escrow_a_amount: u64,
    escrow_b_amount: u64,
    now: i64,
)
    requires
        order.status == OrderStatus::Filled || order.status == OrderStatus::Cancelled,
    ensures
        !is_pending(order),
        !settleable(order),
        settlement_error(ob, bundle, signature, precompile_program, precompile_data, order, other, escrow_a_amount, escrow_b_amount, now) is Some,
        settlement_error(ob, bundle, signature, precompile_program, precompile_data, other, order, escrow_a_amount, escrow_b_amount, now) is Some,
{
}

/// What an accepted settlement has established: the bundle names the
/// orderbook's artifact, is stamped within 120 s of `now` either way, carries a
/// 64-byte signature that the preceding Ed25519 program instruction verifies
/// over the bundle hash under the orderbook's verification key, finds both
/// orders pending or processing, and finds each escrow able to pay its leg.
pub open spec fn settlement_checks_hold(
    ob: Orderbook,
    bundle: SettlementBundleHeader,
    signature: Seq<u8>,
    precompile_program: Seq<u8>,
    precompile_data: Seq<u8>,
    order_a: Order,
    order_b: Order,
    escrow_a_amount: u64,
    escrow_b_amount: u64,
    now: i64,
) -> bool {
    &&& bundle.artifact_id@ == ob.arcium_artifact_id@
    &&& -120 <= now - bundle.timestamp <= 120
    &&& signature.len() == 64
    &&& precompile_program == ED25519_PROGRAM_ID@
    &&& ed25519_attests(precompile_data, ob.arcium_verification_key@, bundle.settlement_hash@, signature)
    &&& order_a.status == OrderStatus::Pending || order_a.status == OrderStatus::Processing
    &&& order_b.status == OrderStatus::Pending || order_b.status == OrderStatus::Processing
    &&& escrow_a_amount >= bundle.amount_a_to_b
    &&& escrow_b_amount >= bundle.amount_b_to_a
}

/// A settlement goes through only when every check holds, as
/// `settlement_checks_hold` lists them, and a bundle for another artifact is
/// refused as such whatever else it holds.
pub proof fn lemma_settlement_needs_every_check(
    ob: Orderbook,
    bundle: SettlementBundleHeader,
    signature: Seq<u8>,
    precompile_program: Seq<u8>,
    precompile_data: Seq<u8>,
    order_a: Order,
    order_b: Order,
    escrow_a_amount: u64,
    escrow_b_amount: u64,
    now: i64,
)
    ensures
        settlement_error(ob, bundle, signature, precompile_program, precompile_data, order_a, order_b, escrow_a_amount, escrow_b_amount, now) is None
            ==> settlement_checks_hold(ob, bundle, signature, precompile_program, precompile_data, order_a, order_b, escrow_a_amount, escrow_b_amount, now),
        bundle.artifact_id@ != ob.arcium_artifact_id@ ==> settlement_error(ob, bundle, signature, precompile_program, precompile_data, order_a, order_b, escrow_a_amount, escrow_b_amount, now)
            == Some(ErrorCode::InvalidArtifactId),
        bundle.artifact_id@ == ob.arcium_artifact_id@ && !(-120 <= now - bundle.timestamp <= 120) ==> settlement_error(ob, bundle, signature, precompile_program, precompile_data, order_a, order_b, escrow_a_amount, escrow_b_amount, now)
            == Some(ErrorCode::SettlementExpired),
{
}

/// Two successive placements on the same orderbook hand out different order
/// ids: the second placement sees the counter the first one advanced.
pub proof fn lemma_order_ids_distinct(
    ob: Orderbook,
    user1: [u8; 32],
    user2: [u8; 32],
    ct1: [u8; 96],
    ct2: [u8; 96],
    key1: [u8; 32],
    key2: [u8; 32],
    nonce1: u128,
    nonce2: u128,
    amount1: u64,
    amount2: u64,
    now1: i64,
    now2: i64,
)
    requires
        ob.order_count < u64::MAX,
    ensures
        placed_order(ob, user1, ct1, key1, nonce1, amount1, now1).order_id != placed_order(
            Orderbook { order_count: (ob.order_count + 1) as u64, ..ob },
            user2,
            ct2,
            key2,
            nonce2,
            amount2,
            now2,
        ).order_id,
{
}

/// A bundle is timely exactly when the cluster time is within the window of
/// its stamp, whichever of the two is later.
pub proof fn lemma_window_is_symmetric(now: i64, timestamp: i64)
    ensures
        within_window(now, timestamp) == within_window(timestamp, now),
{
}

} // verus!

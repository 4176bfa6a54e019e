use arcyield::errors::ErrorCode;
use arcyield::program::{
    cancel_order, close_yield_position, init_orderbook, match_order_pair, match_orders_callback, open_yield_position,
    place_order, settle_matches, verify_arcium_bundle, verify_ed25519,
};
use arcyield::precompile::{ed25519_instruction_attests, ED25519_PROGRAM_ID};
use arcyield::program::MatchArg;
use arcyield::state::{Order, OrderEncryptedData, OrderStatus, Orderbook, Protocol, SettlementBundleHeader, YieldPosition};

const ADMIN: [u8; 32] = [1u8; 32];
const ALICE: [u8; 32] = [2u8; 32];
const BOB: [u8; 32] = [3u8; 32];
const ARTIFACT: [u8; 32] = [4u8; 32];
const VKEY: [u8; 32] = [5u8; 32];
const MINT: [u8; 32] = [6u8; 32];
const OB_KEY: [u8; 32] = [7u8; 32];

fn book() -> Orderbook {
    init_orderbook(ADMIN, ARTIFACT, VKEY, [8u8; 32], 254, MINT, 1_000).0
}

fn pending_order(owner: [u8; 32], order_id: u64, escrow_amount: u64) -> Order {
    Order {
        owner,
        order_id,
        encryption_pubkey: [9u8; 32],
        nonce: 42,
        escrow_amount,
        status: OrderStatus::Pending,
        order_ciphertext: [0xAAu8; 96],
        placed_at: 10,
        updated_at: 10,
    }
}

const SIG: [u8; 64] = [9u8; 64];

/// Data of an Ed25519 program instruction verifying `sig` by `pk` over `msg`.
fn ed25519_ix(pk: [u8; 32], msg: [u8; 32], sig: [u8; 64]) -> Vec<u8> {
    let mut d = vec![1u8, 0];
    for v in [16u16, u16::MAX, 80, u16::MAX, 112, 32, u16::MAX] {
        d.extend_from_slice(&v.to_le_bytes());
    }
    d.extend_from_slice(&sig);
    d.extend_from_slice(&pk);
    d.extend_from_slice(&msg);
    d
}

/// The instruction attesting the cluster's signature on the test bundles.
fn attest() -> Vec<u8> {
    ed25519_ix(VKEY, [0x11u8; 32], SIG)
}

fn bundle(timestamp: i64, a_to_b: u64, b_to_a: u64) -> SettlementBundleHeader {
    SettlementBundleHeader { artifact_id: ARTIFACT, settlement_hash: [0x11u8; 32], timestamp, amount_a_to_b: a_to_b, amount_b_to_a: b_to_a }
}

fn enc(n: u8) -> OrderEncryptedData {
    OrderEncryptedData {
        is_buy_enc: [0x10 + n; 32],
        price_enc: [0x20 + n; 32],
        size_enc: [0x40 + n; 32],
        owner_enc: [0x30 + n; 32],
        nonce: n as u128,
    }
}

#[test]
fn default_statuses() {
    assert_eq!(OrderStatus::default(), OrderStatus::Pending);
    assert_eq!(Protocol::default(), Protocol::Raydium);
}

#[test]
fn init_orderbook_sets_fields() {
    let (ob, ev) = init_orderbook(ADMIN, ARTIFACT, VKEY, [8u8; 32], 254, MINT, 1_000);
    assert_eq!(ob.admin, ADMIN);
    assert_eq!(ob.arcium_artifact_id, ARTIFACT);
    assert_eq!(ob.arcium_verification_key, VKEY);
    assert_eq!(ob.arcium_mxe_public_key, [8u8; 32]);
    assert_eq!(ob.escrow_authority_bump, 254);
    assert_eq!(ob.order_count, 0);
    assert_eq!(ob.token_int, [0u8; 32]);
    assert_eq!(ob.total_volume, 0);
    assert_eq!(ob.total_matches, 0);
    assert_eq!(ob.created_at, 1_000);
    assert_eq!(ob.token_mint, MINT);
    assert_eq!(ev.authority, ADMIN);
    assert_eq!(ev.token_mint, MINT);
    assert_eq!(ev.arcium_artifact_id, ARTIFACT);
    assert_eq!(ev.arcium_mxe_pubkey, [8u8; 32]);
}

#[test]
fn place_order_assigns_consecutive_ids() {
    let mut ob = book();
    let (o1, ev1) = place_order(&mut ob, OB_KEY, ALICE, [1u8; 96], [2u8; 32], 77, 500, 2_000).unwrap();
    let (o2, ev2) = place_order(&mut ob, OB_KEY, BOB, [3u8; 96], [4u8; 32], 78, 600, 2_001).unwrap();
    assert_eq!(o1.order_id, 0);
    assert_eq!(o2.order_id, 1);
    assert_eq!(ob.order_count, 2);
    assert_eq!(o1.owner, ALICE);
    assert_eq!(o1.status, OrderStatus::Pending);
    assert_eq!(o1.escrow_amount, 500);
    assert_eq!(o1.nonce, 77);
    assert_eq!(o1.placed_at, 2_000);
    assert_eq!(o1.updated_at, 2_000);
    assert_eq!(o1.order_ciphertext, [1u8; 96]);
    assert_eq!(ev1.order_id, 0);
    assert_eq!(ev1.orderbook, OB_KEY);
    assert_eq!(ev2.owner, BOB);
    assert_eq!(ev2.escrow_amount, 600);
}

#[test]
fn place_order_refuses_empty_escrow() {
    let mut ob = book();
    let r = place_order(&mut ob, OB_KEY, ALICE, [1u8; 96], [2u8; 32], 77, 0, 2_000);
    assert_eq!(r.err(), Some(ErrorCode::InsufficientEscrow));
    assert_eq!(ob.order_count, 0);
}

#[test]
fn place_order_refuses_exhausted_counter() {
    let mut ob = book();
    ob.order_count = u64::MAX;
    let r = place_order(&mut ob, OB_KEY, ALICE, [1u8; 96], [2u8; 32], 77, 5, 2_000);
    assert_eq!(r.err(), Some(ErrorCode::MathOverflow));
    assert_eq!(ob.order_count, u64::MAX);
}

#[test]
fn match_order_pair_queues_pending_orders() {
    let mut a = pending_order(ALICE, 0, 10);
    let mut b = pending_order(BOB, 1, 10);
    let (ev, comp) = match_order_pair(&mut a, &mut b, [20u8; 32], [21u8; 32], [22u8; 32], [23u8; 32], 99, &enc(1), &enc(2), 3_000).unwrap();
    assert_eq!(a.status, OrderStatus::Queued);
    assert_eq!(b.status, OrderStatus::Queued);
    assert_eq!(a.updated_at, 3_000);
    assert_eq!(ev.order1, [20u8; 32]);
    assert_eq!(ev.order2, [21u8; 32]);
    assert_eq!(comp.computation_offset, 99);
    assert_eq!(comp.num_callback_txs, 1);
    assert_eq!(comp.cu_price_micro, 0);
    assert_eq!(comp.args.len(), 10);
    assert!(matches!(comp.args[0], MatchArg::X25519Pubkey(k) if k == [0x31u8; 32]));
    assert!(matches!(comp.args[1], MatchArg::PlaintextU128(1)));
    assert!(matches!(comp.args[2], MatchArg::EncryptedBool(k) if k == [0x11u8; 32]));
    assert!(matches!(comp.args[3], MatchArg::EncryptedU64(k) if k == [0x21u8; 32]));
    assert!(matches!(comp.args[4], MatchArg::EncryptedU64(k) if k == [0x41u8; 32]));
    assert!(matches!(comp.args[5], MatchArg::X25519Pubkey(k) if k == [0x32u8; 32]));
    assert!(matches!(comp.args[6], MatchArg::PlaintextU128(2)));
    let keys: Vec<[u8; 32]> = comp.callback_accounts.iter().map(|c| c.pubkey).collect();
    assert_eq!(keys, vec![[20u8; 32], [21u8; 32], [22u8; 32], [23u8; 32]]);
    assert!(comp.callback_accounts.iter().all(|c| c.is_writable));
}

#[test]
fn match_order_pair_refuses_non_pending() {
    let mut a = pending_order(ALICE, 0, 10);
    let mut b = pending_order(BOB, 1, 10);
    b.status = OrderStatus::Filled;
    let r = match_order_pair(&mut a, &mut b, [20u8; 32], [21u8; 32], [22u8; 32], [23u8; 32], 99, &enc(1), &enc(2), 3_000);
    assert_eq!(r.err(), Some(ErrorCode::OrderNotPending));
    assert_eq!(a.status, OrderStatus::Pending);
    assert_eq!(a.updated_at, 10);
}

#[test]
fn callback_returns_orders_to_book() {
    let mut a = pending_order(ALICE, 0, 10);
    let mut b = pending_order(BOB, 1, 10);
    a.status = OrderStatus::Queued;
    b.status = OrderStatus::Queued;
    let ev = match_orders_callback(&mut a, &mut b, [20u8; 32], [21u8; 32], true, 4_000).unwrap();
    assert_eq!(a.status, OrderStatus::Pending);
    assert_eq!(b.status, OrderStatus::Pending);
    assert_eq!(b.updated_at, 4_000);
    assert_eq!(ev.order1, [20u8; 32]);
}

#[test]
fn callback_refuses_unverified_output() {
    let mut a = pending_order(ALICE, 0, 10);
    let mut b = pending_order(BOB, 1, 10);
    a.status = OrderStatus::Queued;
    let r = match_orders_callback(&mut a, &mut b, [20u8; 32], [21u8; 32], false, 4_000);
    assert_eq!(r.err(), Some(ErrorCode::AbortedComputation));
    assert_eq!(a.status, OrderStatus::Queued);
}

#[test]
fn ed25519_instruction_parsing() {
    let d = ed25519_ix([1u8; 32], [2u8; 32], [3u8; 64]);
    assert!(ed25519_instruction_attests(&d, &[1u8; 32], &[2u8; 32], &[3u8; 64]));
    assert!(!ed25519_instruction_attests(&d, &[4u8; 32], &[2u8; 32], &[3u8; 64]));
    assert!(!ed25519_instruction_attests(&d, &[1u8; 32], &[4u8; 32], &[3u8; 64]));
    assert!(!ed25519_instruction_attests(&d, &[1u8; 32], &[2u8; 32], &[4u8; 64]));
    let mut two = d.clone();
    two[0] = 2;
    assert!(!ed25519_instruction_attests(&two, &[1u8; 32], &[2u8; 32], &[3u8; 64]));
    let mut other_ix = d.clone();
    other_ix[4] = 0;
    other_ix[5] = 0;
    assert!(!ed25519_instruction_attests(&other_ix, &[1u8; 32], &[2u8; 32], &[3u8; 64]));
    assert!(!ed25519_instruction_attests(&d[..100], &[1u8; 32], &[2u8; 32], &[3u8; 64]));
    assert!(!ed25519_instruction_attests(&[], &[1u8; 32], &[2u8; 32], &[3u8; 64]));
}

#[test]
fn ed25519_needs_the_precompile() {
    let d = ed25519_ix([1u8; 32], [1u8; 32], [1u8; 64]);
    assert!(verify_ed25519(&[1u8; 32], &[1u8; 64], &[1u8; 32], &ED25519_PROGRAM_ID, &d));
    // the same bytes with no Ed25519 instruction, or another program's, prove nothing
    assert!(!verify_ed25519(&[1u8; 32], &[1u8; 64], &[1u8; 32], &ED25519_PROGRAM_ID, &[]));
    assert!(!verify_ed25519(&[1u8; 32], &[1u8; 64], &[1u8; 32], &[7u8; 32], &d));
    let z = ed25519_ix([1u8; 32], [0u8; 32], [1u8; 64]);
    assert!(!verify_ed25519(&[0u8; 32], &[1u8; 64], &[1u8; 32], &ED25519_PROGRAM_ID, &z));
    let zs = ed25519_ix([1u8; 32], [1u8; 32], [0u8; 64]);
    assert!(!verify_ed25519(&[1u8; 32], &[0u8; 64], &[1u8; 32], &ED25519_PROGRAM_ID, &zs));
    let zk = ed25519_ix([0u8; 32], [1u8; 32], [1u8; 64]);
    assert!(!verify_ed25519(&[1u8; 32], &[1u8; 64], &[0u8; 32], &ED25519_PROGRAM_ID, &zk));
}

#[test]
fn bundle_signature_checks() {
    let b = bundle(0, 0, 0);
    let a = attest();
    assert!(verify_arcium_bundle(&b, &SIG, &VKEY, &ED25519_PROGRAM_ID, &a));
    assert!(!verify_arcium_bundle(&b, &[9u8; 63], &VKEY, &ED25519_PROGRAM_ID, &a));
    assert!(!verify_arcium_bundle(&b, &[9u8; 65], &VKEY, &ED25519_PROGRAM_ID, &a));
    assert!(!verify_arcium_bundle(&b, &SIG, &[0u8; 32], &ED25519_PROGRAM_ID, &a));
    assert!(!verify_arcium_bundle(&b, &[8u8; 64], &VKEY, &ED25519_PROGRAM_ID, &a));
    assert!(!verify_arcium_bundle(&b, &SIG, &VKEY, &ED25519_PROGRAM_ID, &[]));
    let mut other_hash = b;
    other_hash.settlement_hash = [0x12u8; 32];
    assert!(!verify_arcium_bundle(&other_hash, &SIG, &VKEY, &ED25519_PROGRAM_ID, &a));
}

#[test]
fn settle_matches_fills_both_orders() {
    let ob = book();
    let mut a = pending_order(ALICE, 0, 500);
    let mut b = pending_order(BOB, 1, 500);
    b.status = OrderStatus::Processing;
    let out = settle_matches(&ob, &bundle(5_100, 300, 0), &SIG, &ED25519_PROGRAM_ID, &attest(), &mut a, &mut b, 400, 0, [30u8; 32], 5_000).unwrap();
    assert_eq!(a.status, OrderStatus::Filled);
    assert_eq!(b.status, OrderStatus::Filled);
    assert_eq!(a.updated_at, 5_000);
    assert_eq!(out.transfer_a_to_b, 300);
    assert_eq!(out.transfer_b_to_a, 0);
    assert_eq!(out.record.settlement_hash, [0x11u8; 32]);
    assert_eq!(out.record.bundle_timestamp, 5_100);
    assert_eq!(out.record.relayer, [30u8; 32]);
    assert!(!out.record.is_yield_settlement);
    assert_eq!(out.event.order_a, ALICE);
    assert_eq!(out.event.order_b, BOB);
    assert_eq!(out.event.amount_a_to_b, 300);
}

#[test]
fn settle_matches_window_edges() {
    let ob = book();
    for ts in [4_880i64, 5_120] {
        let mut a = pending_order(ALICE, 0, 500);
        let mut b = pending_order(BOB, 1, 500);
        assert!(settle_matches(&ob, &bundle(ts, 0, 0), &SIG, &ED25519_PROGRAM_ID, &attest(), &mut a, &mut b, 0, 0, [30u8; 32], 5_000).is_ok());
    }
    for ts in [4_879i64, 5_121] {
        let mut a = pending_order(ALICE, 0, 500);
        let mut b = pending_order(BOB, 1, 500);
        let r = settle_matches(&ob, &bundle(ts, 0, 0), &SIG, &ED25519_PROGRAM_ID, &attest(), &mut a, &mut b, 0, 0, [30u8; 32], 5_000);
        assert_eq!(r.err(), Some(ErrorCode::SettlementExpired));
        assert_eq!(a.status, OrderStatus::Pending);
    }
}

#[test]
fn settle_matches_refusals() {
    let ob = book();
    let run = |bundle_header: SettlementBundleHeader, sig: &[u8], a_status: OrderStatus, b_status: OrderStatus, ea: u64, eb: u64| {
        let mut a = pending_order(ALICE, 0, 500);
        let mut b = pending_order(BOB, 1, 500);
        a.status = a_status;
        b.status = b_status;
        let r = settle_matches(&ob, &bundle_header, sig, &ED25519_PROGRAM_ID, &attest(), &mut a, &mut b, ea, eb, [30u8; 32], 5_000);
        if r.is_err() {
            assert_eq!(a.status, a_status);
            assert_eq!(b.status, b_status);
        }
        r.err()
    };
    let mut wrong_artifact = bundle(5_000, 0, 0);
    wrong_artifact.artifact_id = [0x44u8; 32];
    let p = OrderStatus::Pending;
    assert_eq!(run(wrong_artifact, &SIG, p, p, 0, 0), Some(ErrorCode::InvalidArtifactId));
    assert_eq!(run(bundle(5_000, 0, 0), &[9u8; 10], p, p, 0, 0), Some(ErrorCode::InvalidArciumSignature));
    assert_eq!(run(bundle(5_000, 0, 0), &SIG, OrderStatus::Filled, p, 0, 0), Some(ErrorCode::InvalidOrderStateForSettlement));
    assert_eq!(run(bundle(5_000, 0, 0), &[9u8; 64], p, OrderStatus::Cancelled, 0, 0), Some(ErrorCode::InvalidOrderStateForSettlement));
    assert_eq!(run(bundle(5_000, 0, 0), &SIG, OrderStatus::Queued, p, 0, 0), Some(ErrorCode::InvalidOrderStateForSettlement));
    assert_eq!(run(bundle(5_000, 301, 0), &SIG, p, p, 300, 0), Some(ErrorCode::InsufficientEscrow));
    assert_eq!(run(bundle(5_000, 0, 7), &SIG, p, p, 0, 6), Some(ErrorCode::InsufficientEscrow));
    assert_eq!(run(bundle(5_000, 300, 7), &SIG, p, p, 300, 7), None);
}

#[test]
fn cancel_order_refunds_owner() {
    let mut o = pending_order(ALICE, 3, 900);
    let (refund, ev) = cancel_order(&mut o, ALICE, 6_000).unwrap();
    assert_eq!(refund, 900);
    assert_eq!(ev.refund_amount, 900);
    assert_eq!(ev.order_id, 3);
    assert_eq!(ev.owner, ALICE);
    assert_eq!(o.status, OrderStatus::Cancelled);
    assert_eq!(o.updated_at, 6_000);
}

#[test]
fn cancel_order_refusals() {
    let mut o = pending_order(ALICE, 3, 900);
    assert_eq!(cancel_order(&mut o, BOB, 6_000).err(), Some(ErrorCode::UnauthorizedOrderAccess));
    assert_eq!(o.status, OrderStatus::Pending);
    cancel_order(&mut o, ALICE, 6_000).unwrap();
    assert_eq!(cancel_order(&mut o, ALICE, 6_001).err(), Some(ErrorCode::OrderNotPending));
    assert_eq!(o.updated_at, 6_000);
}

#[test]
fn yield_position_lifecycle() {
    let mut ob = book();
    ob.order_count = 5;
    let (pos, ev) = open_yield_position(&mut ob, ALICE, [1u8; 96], [2u8; 32], 9, 1_000, Protocol::Solend, true, 7_000).unwrap();
    assert_eq!(ob.order_count, 6);
    assert_eq!(pos.position_id, 5);
    assert_eq!(pos.escrowed_tokens, 1_000);
    assert_eq!(pos.protocol, Protocol::Solend);
    assert_eq!(pos.accrued_yield, 0);
    assert_eq!(pos.last_compounded_at, 7_000);
    assert!(pos.auto_compound);
    assert_eq!(ev.position_id, 5);
    assert_eq!(ev.protocol, Protocol::Solend);
    let accrued = YieldPosition { accrued_yield: 55, ..pos };
    let (payout, closed) = close_yield_position(&accrued, ALICE).unwrap();
    assert_eq!(payout, 1_055);
    assert_eq!(closed.total_payout, 1_055);
    assert_eq!(closed.position_id, 5);
    assert_eq!(close_yield_position(&accrued, BOB).err(), Some(ErrorCode::UnauthorizedOrderAccess));
}

#[test]
fn yield_position_refusals() {
    let mut ob = book();
    let r = open_yield_position(&mut ob, ALICE, [1u8; 96], [2u8; 32], 9, 0, Protocol::Drift, false, 7_000);
    assert_eq!(r.err(), Some(ErrorCode::InsufficientEscrow));
    ob.order_count = u64::MAX;
    let r2 = open_yield_position(&mut ob, ALICE, [1u8; 96], [2u8; 32], 9, 1, Protocol::Drift, false, 7_000);
    assert_eq!(r2.err(), Some(ErrorCode::MathOverflow));
    let pos = YieldPosition {
        owner: ALICE,
        position_id: 0,
        escrowed_tokens: u64::MAX,
        protocol: Protocol::Raydium,
        position_ciphertext: [0u8; 96],
        encryption_pubkey: [0u8; 32],
        nonce: 0,
        accrued_yield: 1,
        last_compounded_at: 0,
        auto_compound: false,
        created_at: 0,
        updated_at: 0,
    };
    assert_eq!(close_yield_position(&pos, ALICE).err(), Some(ErrorCode::MathOverflow));
}

#[test]
fn settle_matches_far_off_stamps_expire() {
    let ob = book();
    for (ts, now) in [(i64::MIN, i64::MAX), (i64::MAX, i64::MIN), (i64::MIN, 0), (0, i64::MIN + 1)] {
        let mut a = pending_order(ALICE, 0, 500);
        let mut b = pending_order(BOB, 1, 500);
        let r = settle_matches(&ob, &bundle(ts, 0, 0), &SIG, &ED25519_PROGRAM_ID, &attest(), &mut a, &mut b, 0, 0, [30u8; 32], now);
        assert_eq!(r.err(), Some(ErrorCode::SettlementExpired));
        assert_eq!(a.status, OrderStatus::Pending);
    }
}

#[test]
fn settle_matches_wrong_artifact_any_stamp() {
    let ob = book();
    let mut far = bundle(i64::MIN, 0, 0);
    far.artifact_id = [0x44u8; 32];
    let mut a = pending_order(ALICE, 0, 500);
    let mut b = pending_order(BOB, 1, 500);
    let r = settle_matches(&ob, &far, &SIG, &ED25519_PROGRAM_ID, &attest(), &mut a, &mut b, 0, 0, [30u8; 32], i64::MAX);
    assert_eq!(r.err(), Some(ErrorCode::InvalidArtifactId));
}

#[test]
fn settle_matches_needs_the_attestation() {
    let ob = book();
    let mut a = pending_order(ALICE, 0, 500);
    let mut b = pending_order(BOB, 1, 500);
    let r = settle_matches(&ob, &bundle(5_000, 0, 0), &SIG, &ED25519_PROGRAM_ID, &[], &mut a, &mut b, 0, 0, [30u8; 32], 5_000);
    assert_eq!(r.err(), Some(ErrorCode::InvalidArciumSignature));
    let forged = ed25519_ix([0x55u8; 32], [0x11u8; 32], SIG);
    let r2 = settle_matches(&ob, &bundle(5_000, 0, 0), &SIG, &ED25519_PROGRAM_ID, &forged, &mut a, &mut b, 0, 0, [30u8; 32], 5_000);
    assert_eq!(r2.err(), Some(ErrorCode::InvalidArciumSignature));
    assert_eq!(a.status, OrderStatus::Pending);
}

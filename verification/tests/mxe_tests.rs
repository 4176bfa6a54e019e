use arcyield::mxe_instruction::{
    calculate_batch_midpoint, compound_yield, match_orders, route_yield, validate_order, EncEscrow, EncOrder,
    PrivatePosition,
};

fn order(is_buy: bool, price: u64, size: u64) -> EncOrder {
    EncOrder { is_buy, price, size, owner: [4u8; 32] }
}

fn escrow(balance: u64) -> EncEscrow {
    EncEscrow { balance, owner: [6u8; 32] }
}

fn position(amount: u64, protocol: u8, min_apy_bps: u64) -> PrivatePosition {
    PrivatePosition { amount, protocol, min_apy_bps, auto_compound: true, owner: [8u8; 32] }
}

#[test]
fn mxe_match_debits_both_escrows() {
    let (r, e1, e2) = match_orders(order(false, 90, 80), order(true, 100, 50), escrow(60), escrow(70));
    assert!(r.matched);
    assert_eq!(r.execution_price, 90);
    assert_eq!(r.execution_size, 50);
    assert_eq!(e1.balance, 10);
    assert_eq!(e2.balance, 20);
}

#[test]
fn mxe_match_short_escrow_keeps_balances() {
    let (r, e1, e2) = match_orders(order(false, 90, 80), order(true, 100, 50), escrow(60), escrow(49));
    assert!(!r.matched);
    assert_eq!(r.execution_size, 50);
    assert_eq!(e1.balance, 60);
    assert_eq!(e2.balance, 49);
}

#[test]
fn mxe_match_is_symmetric() {
    let a = match_orders(order(true, 100, 50), order(false, 90, 80), escrow(70), escrow(60));
    let b = match_orders(order(false, 90, 80), order(true, 100, 50), escrow(60), escrow(70));
    assert_eq!(a.0.matched, b.0.matched);
    assert_eq!(a.0.execution_size, b.0.execution_size);
    assert_eq!(a.1.balance, b.2.balance);
    assert_eq!(a.2.balance, b.1.balance);
}

#[test]
fn mxe_validate_order() {
    assert!(validate_order(order(true, 100, 5), 1, 100, 5, 5));
    assert!(!validate_order(order(true, 100, 6), 1, 100, 5, 5));
    let mut anon = order(true, 100, 5);
    anon.owner = [0u8; 32];
    assert!(!validate_order(anon, 1, 100, 5, 5));
}

#[test]
fn mxe_route_yield() {
    let r = route_yield(position(1_000_000, 0, 500), 400, 600, 800, 700);
    assert!(r.success);
    assert_eq!(r.target_protocol, 2);
    assert_eq!(r.yield_rate_bps, 800);
    assert_eq!(r.deposit_amount, 999_000);
}

#[test]
fn mxe_route_yield_keeps_own_protocol_when_nothing_beats_zero() {
    let r = route_yield(position(1_000_000, 9, 0), 0, 0, 0, 0);
    assert!(r.success);
    assert_eq!(r.target_protocol, 9);
    assert_eq!(r.yield_rate_bps, 0);
}

#[test]
fn mxe_route_yield_fails_below_minimum() {
    let r = route_yield(position(1_000_000, 1, 900), 400, 600, 800, 700);
    assert!(!r.success);
    assert_eq!(r.deposit_amount, 0);
    assert_eq!(r.target_protocol, 1);
}

#[test]
fn mxe_compound_yield() {
    let (p, left) = compound_yield(position(1_000, 0, 0), 25);
    assert_eq!(p.amount, 1_025);
    assert_eq!(left, 0);
    let (q, _) = compound_yield(position(u64::MAX, 0, 0), 25);
    assert_eq!(q.amount, u64::MAX);
}

#[test]
fn mxe_batch_midpoint() {
    let mut buys = [order(true, 0, 0); 8];
    let mut sells = [order(false, u64::MAX, 0); 8];
    buys[0] = order(true, 101, 1);
    buys[3] = order(true, 121, 1);
    sells[5] = order(false, 111, 1);
    // (121, 111) -> 116; (101, 111) does not cross
    assert_eq!(calculate_batch_midpoint(&buys, &sells), 116);
    assert_eq!(calculate_batch_midpoint(&[order(true, 10, 1); 8], &sells), 0);
}

#[test]
fn mxe_batch_midpoint_rounds_the_sum() {
    let buys = [order(true, 101, 1); 8];
    let sells = [order(false, 99, 1); 8];
    assert_eq!(calculate_batch_midpoint(&buys, &sells), 100);
    let top = [order(true, u64::MAX, 1); 8];
    let top_sells = [order(false, u64::MAX, 1); 8];
    assert_eq!(calculate_batch_midpoint(&top, &top_sells), u64::MAX);
    let near = [order(false, u64::MAX - 1, 1); 8];
    assert_eq!(calculate_batch_midpoint(&top, &near), u64::MAX - 1);
}

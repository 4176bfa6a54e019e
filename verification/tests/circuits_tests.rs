use arcyield::circuits::{
    accrue_epoch_yield, batch_match_orders, batch_route_yield, calculate_vwap, check_position_health, close_position,
    compound_yield, match_orders, max_safe_withdrawal, produce_settlement, produce_yield_settlement,
    rebalance_position, route_yield, validate_order, withdraw_yield, EncAccruedYield, EncEscrow, EncOrder,
    EncPosition, MatchResult, OraclePrice,
};

fn order(is_buy: bool, price: u64, size: u64, timestamp: u64) -> EncOrder {
    EncOrder { is_buy, price, size, owner: [7u8; 32], timestamp, order_nonce: 1 }
}

fn escrow(balance: u64) -> EncEscrow {
    EncEscrow { balance, fee_reserve: 0, owner: [3u8; 32], last_epoch: 11 }
}

fn position(amount: u64, protocol: u8, min_apy_bps: u64, auto_compound: bool) -> EncPosition {
    EncPosition { amount, protocol, min_apy_bps, max_drawdown_bps: 0, auto_compound, owner: [5u8; 32], open_epoch: 1 }
}

fn accrued(epoch_yield: u64, lifetime_yield: u64) -> EncAccruedYield {
    EncAccruedYield { epoch_yield, lifetime_yield, last_updated_epoch: 2, owner: [9u8; 32] }
}

#[test]
fn match_orders_buyer_first() {
    let (r, e1, e2) = match_orders(order(true, 100, 20_000, 5), order(false, 90, 30_000, 7), escrow(50_000), escrow(50_000));
    assert!(r.matched);
    assert_eq!(r.execution_price, 90);
    assert_eq!(r.execution_size, 19_980);
    assert_eq!(r.fee_bps, 10);
    assert!(r.order1_is_maker);
    assert_eq!(e1.balance, 30_020);
    assert_eq!(e1.fee_reserve, 20);
    assert_eq!(e2.balance, 49_980);
    assert_eq!(e2.fee_reserve, 0);
    assert_eq!(e1.last_epoch, 11);
}

#[test]
fn match_orders_seller_first() {
    let (r, e1, e2) = match_orders(order(false, 90, 30_000, 9), order(true, 100, 20_000, 7), escrow(50_000), escrow(50_000));
    assert!(r.matched);
    assert_eq!(r.execution_price, 90);
    assert_eq!(r.execution_size, 19_980);
    assert!(!r.order1_is_maker);
    assert_eq!(e1.balance, 49_980);
    assert_eq!(e2.balance, 30_020);
    assert_eq!(e2.fee_reserve, 20);
}

#[test]
fn match_orders_is_symmetric() {
    let o1 = order(true, 120, 7_000, 1);
    let o2 = order(false, 110, 9_000, 2);
    let (a, a1, a2) = match_orders(o1, o2, escrow(8_000), escrow(12_000));
    let (b, b1, b2) = match_orders(o2, o1, escrow(12_000), escrow(8_000));
    assert_eq!(a.matched, b.matched);
    assert_eq!(a.execution_price, b.execution_price);
    assert_eq!(a.execution_size, b.execution_size);
    assert_eq!(a1.balance, b2.balance);
    assert_eq!(a1.fee_reserve, b2.fee_reserve);
    assert_eq!(a2.balance, b1.balance);
}

#[test]
fn match_orders_same_side_does_not_match() {
    let (r, e1, e2) = match_orders(order(true, 100, 10, 1), order(true, 90, 10, 2), escrow(1_000), escrow(2_000));
    assert!(!r.matched);
    assert_eq!(r.execution_price, 0);
    assert_eq!(r.execution_size, 0);
    assert_eq!(e1.balance, 1_000);
    assert_eq!(e2.balance, 2_000);
}

#[test]
fn match_orders_prices_apart_do_not_match() {
    let (r, _, _) = match_orders(order(true, 80, 10, 1), order(false, 90, 10, 2), escrow(1_000), escrow(2_000));
    assert!(!r.matched);
    assert_eq!(r.execution_price, 0);
}

#[test]
fn match_orders_short_buyer_escrow() {
    let (r, e1, e2) = match_orders(order(true, 100, 20_000, 1), order(false, 90, 30_000, 2), escrow(100), escrow(50_000));
    assert!(!r.matched);
    assert_eq!(r.execution_price, 90);
    assert_eq!(r.execution_size, 0);
    assert_eq!(e1.balance, 100);
    assert_eq!(e2.balance, 50_000);
}

#[test]
fn match_orders_short_seller_escrow() {
    let (r, _, e2) = match_orders(order(true, 100, 20_000, 1), order(false, 90, 30_000, 2), escrow(50_000), escrow(19_999));
    assert!(!r.matched);
    assert_eq!(e2.balance, 19_999);
}

#[test]
fn validate_order_cases() {
    let good = order(true, 100, 50, 1);
    assert!(validate_order(good, 10, 200, 1, 100));
    assert!(!validate_order(good, 101, 200, 1, 100));
    assert!(!validate_order(good, 10, 99, 1, 100));
    assert!(!validate_order(good, 10, 200, 51, 100));
    let mut no_owner = good;
    no_owner.owner = [0u8; 32];
    assert!(!validate_order(no_owner, 10, 200, 1, 100));
    let mut no_nonce = good;
    no_nonce.order_nonce = 0;
    assert!(!validate_order(no_nonce, 10, 200, 1, 100));
}

#[test]
fn calculate_vwap_over_crossing_pairs() {
    let buys = vec![order(true, 100, 10, 0), order(true, 80, 5, 0)];
    let sells = vec![order(false, 90, 4, 0), order(false, 70, 20, 0)];
    assert_eq!(calculate_vwap(&buys, &sells), 74);
    assert_eq!(calculate_vwap(&buys, &vec![]), 0);
    assert_eq!(calculate_vwap(&vec![order(true, 10, 5, 0)], &sells), 0);
}

#[test]
fn route_yield_picks_best_qualifying() {
    let r = route_yield(position(1_000_000, 1, 500, false), 400, 600, 800, 700);
    assert!(r.success);
    assert_eq!(r.deposit_amount, 999_000);
    assert_eq!(r.fee_amount, 1_000);
    assert_eq!(r.target_protocol, 2);
    assert_eq!(r.yield_rate_bps, 800);
}

#[test]
fn route_yield_keeps_preferred_on_tie() {
    let r = route_yield(position(1_000_000, 3, 0, false), 800, 600, 800, 800);
    assert!(r.success);
    assert_eq!(r.target_protocol, 3);
}

#[test]
fn route_yield_nothing_qualifies() {
    let r = route_yield(position(1_000_000, 1, 1_000, false), 400, 600, 800, 700);
    assert!(!r.success);
    assert_eq!(r.deposit_amount, 0);
    assert_eq!(r.target_protocol, 1);
    assert_eq!(r.yield_rate_bps, 0);
    assert_eq!(r.fee_amount, 1_000);
}

#[test]
fn route_yield_clamps_preferred_protocol() {
    let r = route_yield(position(10_000, 9, 0, false), 100, 100, 100, 100);
    assert!(r.success);
    assert_eq!(r.target_protocol, 3);
    assert_eq!(r.fee_amount, 10);
    assert_eq!(r.deposit_amount, 9_990);
}

#[test]
fn route_yield_empty_position_fails() {
    let r = route_yield(position(0, 0, 0, false), 100, 100, 100, 100);
    assert!(!r.success);
    assert_eq!(r.yield_rate_bps, 100);
}

#[test]
fn batch_route_yield_matches_single_routing() {
    let ps = vec![position(1_000_000, 1, 500, false), position(5, 0, 0, true), position(77_777, 2, 900, false)];
    let batch = batch_route_yield(&ps, 400, 600, 800, 700);
    assert_eq!(batch.len(), 3);
    for (p, b) in ps.iter().zip(batch.iter()) {
        let single = route_yield(*p, 400, 600, 800, 700);
        assert_eq!(single.success, b.success);
        assert_eq!(single.deposit_amount, b.deposit_amount);
        assert_eq!(single.target_protocol, b.target_protocol);
        assert_eq!(single.yield_rate_bps, b.yield_rate_bps);
        assert_eq!(single.fee_amount, b.fee_amount);
    }
}

#[test]
fn rebalance_moves_underperforming_position() {
    let (p, r) = rebalance_position(position(1_000_000, 0, 500, true), 400, 600, 800, 700);
    assert!(r.success);
    assert_eq!(p.protocol, 2);
    assert_eq!(p.amount, 999_500);
    assert_eq!(r.fee_amount, 500);
    assert_eq!(r.deposit_amount, 999_500);
    assert_eq!(r.yield_rate_bps, 800);
    assert!(p.auto_compound);
}

#[test]
fn rebalance_keeps_performing_position() {
    let (p, r) = rebalance_position(position(1_000_000, 3, 500, false), 400, 600, 800, 700);
    assert!(!r.success);
    assert_eq!(p.protocol, 3);
    assert_eq!(r.yield_rate_bps, 700);
    assert_eq!(p.amount, 999_500);
}

#[test]
fn compound_yield_redeposits() {
    let (p, y) = compound_yield(position(1_000, 0, 0, true), accrued(50, 200), 9);
    assert_eq!(p.amount, 1_050);
    assert_eq!(y.epoch_yield, 0);
    assert_eq!(y.lifetime_yield, 250);
    assert_eq!(y.last_updated_epoch, 9);
}

#[test]
fn compound_yield_without_auto_compound() {
    let (p, y) = compound_yield(position(1_000, 0, 0, false), accrued(50, 200), 9);
    assert_eq!(p.amount, 1_000);
    assert_eq!(y.epoch_yield, 0);
    assert_eq!(y.lifetime_yield, 200);
}

#[test]
fn accrue_epoch_yield_adds_share() {
    let y = accrue_epoch_yield(position(1_000_000, 0, 0, false), accrued(10, 100), 25, 4);
    assert_eq!(y.epoch_yield, 2_510);
    assert_eq!(y.lifetime_yield, 2_600);
    assert_eq!(y.last_updated_epoch, 4);
}

#[test]
fn accrue_epoch_yield_saturates() {
    let y = accrue_epoch_yield(position(u64::MAX, 0, 0, false), accrued(u64::MAX - 1, 0), 10_000, 4);
    assert_eq!(y.epoch_yield, u64::MAX);
}

#[test]
fn withdraw_yield_pays_epoch_yield() {
    let (paid, y) = withdraw_yield(position(1_000, 0, 0, false), accrued(70, 300), 12);
    assert_eq!(paid, 70);
    assert_eq!(y.epoch_yield, 0);
    assert_eq!(y.lifetime_yield, 300);
    assert_eq!(y.last_updated_epoch, 12);
}

#[test]
fn close_position_equals_yield_settlement() {
    let p = position(1_000, 0, 0, false);
    let y = accrued(70, 300);
    assert_eq!(close_position(p, y), 1_070);
    assert_eq!(produce_yield_settlement(p, y), close_position(p, y));
    let (_, zeroed) = withdraw_yield(p, y, 1);
    assert_eq!(close_position(p, zeroed), 1_000);
    assert_eq!(close_position(position(u64::MAX, 0, 0, false), y), u64::MAX);
}

fn oracle(mark_price: u64) -> OraclePrice {
    OraclePrice { mark_price, confidence: 0, publish_slot: 0 }
}

#[test]
fn check_position_health_healthy() {
    let r = check_position_health(position(1_000, 0, 0, false), escrow(3_000), oracle(1_000_000_000), 5_000);
    assert_eq!(r.health_factor_bps, 15_000);
    assert!(r.healthy);
    assert!(!r.should_liquidate);
    assert_eq!(r.available_collateral, 1_000);
}

#[test]
fn check_position_health_near_liquidation() {
    let r = check_position_health(position(1_000, 0, 0, false), escrow(2_080), oracle(1_000_000_000), 5_000);
    assert_eq!(r.health_factor_bps, 10_400);
    assert!(r.healthy);
    assert!(r.should_liquidate);
}

#[test]
fn check_position_health_zero_leverage() {
    let r = check_position_health(position(1_000, 0, 0, false), escrow(3_000), oracle(1_000_000_000), 0);
    assert_eq!(r.health_factor_bps, 0);
    assert!(!r.healthy);
    assert!(r.should_liquidate);
    assert_eq!(r.available_collateral, 0);
}

#[test]
fn check_position_health_empty_position() {
    let r = check_position_health(position(0, 0, 0, false), escrow(3_000), oracle(1_000_000_000), 5_000);
    assert_eq!(r.health_factor_bps, 10_000);
    assert!(r.healthy);
    assert_eq!(r.available_collateral, 3_000);
}

#[test]
fn max_safe_withdrawal_cases() {
    let p = position(1_000, 0, 0, false);
    assert_eq!(max_safe_withdrawal(p, escrow(3_000), oracle(1_000_000_000), 5_000, 0), 1_000);
    assert_eq!(max_safe_withdrawal(p, escrow(3_000), oracle(1_000_000_000), 5_000, 2_500), 500);
    assert_eq!(max_safe_withdrawal(p, escrow(3_000), oracle(1_000_000_000), 5_000, 5_000), 0);
    assert_eq!(max_safe_withdrawal(p, escrow(3_000), oracle(1_000_000_000), 0, 0), 0);
}

#[test]
fn max_safe_withdrawal_without_buffer_is_available_collateral() {
    let p = position(4_321, 0, 0, false);
    let e = escrow(98_765);
    let o = oracle(1_234_567_890);
    assert_eq!(max_safe_withdrawal(p, e, o, 3, 0), check_position_health(p, e, o, 3).available_collateral);
}

#[test]
fn produce_settlement_legs() {
    let buy = order(true, 100, 10, 0);
    let sell = order(false, 90, 10, 0);
    let m = MatchResult { matched: true, execution_price: 90, execution_size: 10, fee_bps: 10, order1_is_maker: true };
    assert_eq!(produce_settlement(buy, sell, m), (10, 0));
    assert_eq!(produce_settlement(sell, buy, m), (0, 10));
    let none = MatchResult { matched: false, ..m };
    assert_eq!(produce_settlement(buy, sell, none), (0, 0));
}

#[test]
fn batch_match_orders_runs_every_pair() {
    let buys = vec![order(true, 100, 100_000, 0)];
    let sells = vec![order(false, 90, 50_000, 0), order(false, 95, 80_000, 0)];
    let be = vec![escrow(1_000_000)];
    let se = vec![escrow(40_000), escrow(1_000_000)];
    let (summary, be2, se2) = batch_match_orders(&buys, &sells, be, se);
    assert_eq!(summary.matched_pairs, 2);
    assert_eq!(summary.total_volume, 119_880);
    assert_eq!(summary.total_fees, 120);
    assert_eq!(summary.vwap, 93);
    assert_eq!(be2[0].balance, 880_120);
    assert_eq!(be2[0].fee_reserve, 120);
    assert_eq!(se2[0].balance, 39_960);
    assert_eq!(se2[1].balance, 999_920);
}

#[test]
fn batch_match_orders_skips_empty_escrows_and_apart_prices() {
    let buys = vec![order(true, 100, 1_000, 0), order(true, 50, 1_000, 0)];
    let sells = vec![order(false, 90, 1_000, 0)];
    let be = vec![escrow(0), escrow(5_000)];
    let se = vec![escrow(5_000)];
    let (summary, be2, se2) = batch_match_orders(&buys, &sells, be, se);
    assert_eq!(summary.matched_pairs, 0);
    assert_eq!(summary.vwap, 0);
    assert_eq!(be2[1].balance, 5_000);
    assert_eq!(se2[0].balance, 5_000);
}

#[test]
fn batch_match_orders_empty_sells() {
    let buys = vec![order(true, 100, 1_000, 0)];
    let (summary, be2, se2) = batch_match_orders(&buys, &vec![], vec![], vec![]);
    assert_eq!(summary.matched_pairs, 0);
    assert!(be2.is_empty());
    assert!(se2.is_empty());
}

#[test]
fn accrue_then_withdraw_pays_the_accrual() {
    let p = position(2_000_000, 0, 0, false);
    let y = accrue_epoch_yield(p, accrued(0, 1_000), 30, 5);
    let (paid, after) = withdraw_yield(p, y, 6);
    assert_eq!(paid, 6_000);
    assert_eq!(after.lifetime_yield, 7_000);
    assert_eq!(after.epoch_yield, 0);
}

#[test]
fn compound_twice_is_compound_once() {
    let (p1, y1) = compound_yield(position(1_000, 0, 0, true), accrued(50, 200), 9);
    let (p2, y2) = compound_yield(p1, y1, 10);
    assert_eq!(p2.amount, p1.amount);
    assert_eq!(y2.lifetime_yield, y1.lifetime_yield);
    assert_eq!(y2.epoch_yield, 0);
}

#[test]
fn batch_match_orders_escrow_accounting() {
    let buys = vec![order(true, 100, 100_000, 0), order(true, 97, 30_000, 0)];
    let sells = vec![order(false, 90, 50_000, 0), order(false, 95, 80_000, 0)];
    let be = vec![escrow(1_000_000), escrow(25_000)];
    let se = vec![escrow(40_000), escrow(1_000_000)];
    let before_b: u64 = be.iter().map(|e| e.balance).sum();
    let before_s: u64 = se.iter().map(|e| e.balance).sum();
    let (summary, be2, se2) = batch_match_orders(&buys, &sells, be, se);
    let after_b: u64 = be2.iter().map(|e| e.balance).sum();
    let after_s: u64 = se2.iter().map(|e| e.balance).sum();
    assert_eq!(before_b - after_b, summary.total_volume);
    assert_eq!(before_s - after_s, summary.total_fees);
    assert!(summary.matched_pairs >= 2);
}

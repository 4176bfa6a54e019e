use arcyield::state::Protocol;
use arcyield::yield_router::{optimal_allocation, ProtocolApy};

fn apy(raydium: u64, drift: u64, solend: u64, dark_pool: u64) -> ProtocolApy {
    ProtocolApy { raydium, drift, solend, dark_pool }
}

#[test]
fn best_above_picks_highest() {
    assert_eq!(apy(400, 900, 800, 700).best_above(500), Some((Protocol::Drift, 900)));
}

#[test]
fn best_above_prefers_last_among_equals() {
    assert_eq!(apy(900, 900, 100, 900).best_above(0), Some((Protocol::DarkPool, 900)));
    assert_eq!(apy(900, 900, 100, 800).best_above(0), Some((Protocol::Drift, 900)));
}

#[test]
fn best_above_none_qualifies() {
    assert_eq!(apy(400, 900, 800, 700).best_above(901), None);
}

#[test]
fn blended_weighted_average() {
    let a = apy(100, 200, 300, 400);
    assert_eq!(a.blended([1, 1, 1, 1]), 250);
    assert_eq!(a.blended([0, 0, 0, 3]), 400);
    assert_eq!(a.blended([0, 0, 0, 0]), 0);
    assert_eq!(a.blended([3, 0, 0, 1]), 175);
}

#[test]
fn blended_uniform_returns_apy() {
    let a = apy(777, 777, 777, 777);
    assert_eq!(a.blended([5, 0, 9, 2]), 777);
}

#[test]
fn optimal_allocation_proportional() {
    let w = optimal_allocation(&apy(500, 300, 200, 1_000), 8_000);
    assert_eq!(w, [5_000, 3_000, 2_000, 0]);
    assert_eq!(w.iter().sum::<u64>(), 10_000);
}

#[test]
fn optimal_allocation_rounding_goes_to_last_largest() {
    let w = optimal_allocation(&apy(1, 1, 1, 1), 7_500);
    assert_eq!(w, [3_333, 3_333, 3_334, 0]);
    assert_eq!(w.iter().sum::<u64>(), 10_000);
}

#[test]
fn optimal_allocation_nothing_tolerated() {
    assert_eq!(optimal_allocation(&apy(500, 300, 200, 1_000), 0), [0, 0, 10_000, 0]);
    assert_eq!(optimal_allocation(&apy(0, 0, 0, 0), 10_000), [0, 0, 10_000, 0]);
}

#[test]
fn optimal_allocation_all_tolerated() {
    let w = optimal_allocation(&apy(1, 2, 3, 4), 10_000);
    assert_eq!(w, [1_000, 2_000, 3_000, 4_000]);
    let v = optimal_allocation(&apy(1, 1, 1, 0), 10_000);
    assert_eq!(v.iter().sum::<u64>(), 10_000);
}

//! The confidential instructions bundled with the on-chain program: matching
//! that debits both escrows, validation, routing, compounding and batch
//! midpoint pricing.
use vstd::prelude::*;
use crate::arith::{fee_spec, lemma_fee_le_amount, fee_of, min_spec, min_u64, sat_add, sat_add_spec, sat_sub, sat_sub_spec};
use crate::circuits::{scan_best, scan_table, lemma_scan_best, apy_table_spec};

verus! {

/// A limit order.
#[derive(Clone, Copy, Debug)]
pub struct EncOrder {
    pub is_buy: bool,
    pub price: u64,
    pub size: u64,
    pub owner: [u8; 32],
}

/// An escrow balance.
#[derive(Clone, Copy, Debug)]
pub struct EncEscrow {
    pub balance: u64,
    pub owner: [u8; 32],
}

/// The public part of a match.
#[derive(Clone, Copy, Debug)]
pub struct MatchResult {
    pub matched: bool,
    pub execution_price: u64,
    pub execution_size: u64,
}

/// A private yield position.
#[derive(Clone, Copy, Debug)]
pub struct PrivatePosition {
    pub amount: u64,
    pub protocol: u8,
    pub min_apy_bps: u64,
    pub auto_compound: bool,
    pub owner: [u8; 32],
}

/// Where a position is routed.
#[derive(Clone, Copy, Debug)]
pub struct YieldRouteResult {
    pub success: bool,
    pub deposit_amount: u64,
    pub target_protocol: u8,
    pub yield_rate_bps: u64,
}

/// Number of buy orders in a priced batch.
pub const BUY_BATCH: usize = 8;
/// Number of sell orders in a priced batch.
pub const SELL_BATCH: usize = 8;

/// One order buys and the other sells, and the buy limit reaches the sell limit.
pub open spec fn prices_cross(o1: EncOrder, o2: EncOrder) -> bool {
    &&& o1.is_buy != o2.is_buy
    &&& if o1.is_buy {
        o1.price >= o2.price
    } else {
        o2.price >= o1.price
    }
}

/// What match_orders computes.
pub open spec fn match_orders_spec(o1: EncOrder, o2: EncOrder, e1: EncEscrow, e2: EncEscrow) -> (
    MatchResult,
    EncEscrow,
    EncEscrow,
) {
    let cross = prices_cross(o1, o2);
    let price: u64 = if cross {
        if o1.is_buy {
            o2.price
        } else {
            o1.price
        }
    } else {
        0
    };
    let size: u64 = if cross {
        min_spec(o1.size, o2.size)
    } else {
        0
    };
    let buyer = if o1.is_buy { e1.balance } else { e2.balance };
    let seller = if o1.is_buy { e2.balance } else { e1.balance };
    let matched = cross && buyer >= size && seller >= size;
    (
        MatchResult { matched, execution_price: price, execution_size: size },
        EncEscrow { balance: if matched { sat_sub_spec(e1.balance, size) } else { e1.balance }, owner: e1.owner },
        EncEscrow { balance: if matched { sat_sub_spec(e2.balance, size) } else { e2.balance }, owner: e2.owner },
    )
}

/// Match two encrypted limit orders; on a match both escrows are debited by
/// the executed size.
pub fn match_orders(order1: EncOrder, order2: EncOrder, escrow1: EncEscrow, escrow2: EncEscrow) -> (r: (
    MatchResult,
    EncEscrow,
    EncEscrow,
))
    ensures
        r == match_orders_spec(order1, order2, escrow1, escrow2),
        r.0.matched ==> r.1.balance + r.0.execution_size == escrow1.balance
            && r.2.balance + r.0.execution_size == escrow2.balance,
        !r.0.matched ==> r.1 == escrow1 && r.2 == escrow2,
        match_respects_limits(order1, order2, escrow1, escrow2, r),
{
    let o1 = order1;
    let o2 = order2;
    let e1 = escrow1;
    let e2 = escrow2;
    let directions_cross = o1.is_buy != o2.is_buy;
    let prices_cross = directions_cross && if o1.is_buy {
        o1.price >= o2.price
    } else {
        o2.price >= o1.price
    };
    let execution_price = if prices_cross {
        if o1.is_buy {
            o2.price
        } else {
            o1.price
        }
    } else {
        0u64
    };
    let execution_size = if prices_cross {
        min_u64(o1.size, o2.size)
    } else {
        0u64
    };
    let buyer_escrow = if o1.is_buy {
        e1.balance
    } else {
        e2.balance
    };
    let seller_escrow = if o1.is_buy {
        e2.balance
    } else {
        e1.balance
    };
    let buyer_ok = prices_cross && buyer_escrow >= execution_size;
    let seller_ok = prices_cross && seller_escrow >= execution_size;
    let final_matched = prices_cross && buyer_ok && seller_ok;
    let result = MatchResult { matched: final_matched, execution_price, execution_size };
    let new_e1 = EncEscrow {
        balance: if final_matched {
            sat_sub(e1.balance, execution_size)
        } else {
            e1.balance
        },
        owner: e1.owner,
    };
    let new_e2 = EncEscrow {
        balance: if final_matched {
            sat_sub(e2.balance, execution_size)
        } else {
            e2.balance
        },
        owner: e2.owner,
    };
    (result, new_e1, new_e2)
}

/// Matching does not depend on which order is passed first.
pub proof fn lemma_match_orders_symmetric(o1: EncOrder, o2: EncOrder, e1: EncEscrow, e2: EncEscrow)
    ensures
        ({
            let a = match_orders_spec(o1, o2, e1, e2);
            let b = match_orders_spec(o2, o1, e2, e1);
            &&& a.0 == b.0
            &&& a.1 == b.2
            &&& a.2 == b.1
        }),
{
}

/// What any answer of match_orders must satisfy: a trade happens only
/// between a buy and a sell whose limits cross, at the seller's limit, for the
/// smaller size, which both escrows cover and both pay; crossing orders whose
/// escrows both cover that size always trade; without a trade both escrows
/// come back unchanged.
pub open spec fn match_respects_limits(o1: EncOrder, o2: EncOrder, e1: EncEscrow, e2: EncEscrow, r: (
    MatchResult,
    EncEscrow,
    EncEscrow,
)) -> bool {
    let (buy, sell) = if o1.is_buy {
        (o1, o2)
    } else {
        (o2, o1)
    };
    let size = if o1.size <= o2.size {
        o1.size
    } else {
        o2.size
    };
    let crossing = o1.is_buy != o2.is_buy && buy.price >= sell.price;
    &&& r.0.matched <==> crossing && e1.balance >= size && e2.balance >= size
    &&& r.0.matched ==> r.0.execution_price == sell.price && r.0.execution_size == size
    &&& r.0.matched ==> r.1.balance == e1.balance - size && r.2.balance == e2.balance - size
    &&& r.1.owner == e1.owner && r.2.owner == e2.owner
    &&& !r.0.matched ==> r.1 == e1 && r.2 == e2
}

/// A match never trades through a limit: it trades exactly when one order
/// buys, the other sells, the buy limit reaches the sell limit and both
/// escrows cover the smaller size; the trade is that size at the seller's
/// price, paid from both escrows.
pub proof fn lemma_match_respects_limits(o1: EncOrder, o2: EncOrder, e1: EncEscrow, e2: EncEscrow)
    ensures
        match_respects_limits(o1, o2, e1, e2, match_orders_spec(o1, o2, e1, e2)),
{
}

/// An accepted order lies within every bound, has an owner and nothing else is
/// accepted.
pub proof fn lemma_valid_orders_within_bounds(o: EncOrder, min_price: u64, max_price: u64, min_size: u64, max_size: u64)
    ensures
        order_valid_spec(o, min_price, max_price, min_size, max_size) <==> min_price <= o.price && o.price
            <= max_price && min_size <= o.size && o.size <= max_size && exists|i: int| 0 <= i < 32 && o.owner[i] != 0,
{
}

/// The order's price and size lie within the bounds and its owner key is not
/// all zero.
pub open spec fn order_valid_spec(o: EncOrder, min_price: u64, max_price: u64, min_size: u64, max_size: u64) -> bool {
    &&& min_price <= o.price <= max_price
    &&& min_size <= o.size <= max_size
    &&& !crate::keys::all_zero(o.owner@)
}

/// Validate an order's parameters against the orderbook's permitted bounds.
pub fn validate_order(order: EncOrder, min_price: u64, max_price: u64, min_size: u64, max_size: u64) -> (r: bool)
    ensures
        r == order_valid_spec(order, min_price, max_price, min_size, max_size),
        r <==> min_price <= order.price && order.price <= max_price && min_size <= order.size && order.size
            <= max_size && exists|i: int| 0 <= i < 32 && order.owner[i] != 0,
{
    let o = order;
    let valid_price = o.price >= min_price && o.price <= max_price;
    let valid_size = o.size >= min_size && o.size <= max_size;
    let valid_owner = !crate::keys::is_zero_key(&o.owner);
    valid_price && valid_size && valid_owner
}

/// What route_yield computes: the best protocol whose APY reaches the minimum,
/// starting from the position's own protocol at zero.
pub open spec fn route_spec(pos: PrivatePosition, table: Seq<u64>) -> YieldRouteResult {
    let fee = fee_spec(pos.amount, 10);
    let net = sat_sub_spec(pos.amount, fee);
    let choice = scan_best(table, pos.min_apy_bps, pos.protocol, 0, 4);
    let success = choice.1 >= pos.min_apy_bps && net > 0;
    YieldRouteResult {
        success,
        deposit_amount: if success { net } else { 0 },
        target_protocol: choice.0,
        yield_rate_bps: choice.1,
    }
}

/// Route a private yield position to the optimal protocol, after a 0.1% fee.
pub fn route_yield(
    position: PrivatePosition,
    raydium_apy_bps: u64,
    drift_apy_bps: u64,
    solend_apy_bps: u64,
    darkpool_apy_bps: u64,
) -> (r: YieldRouteResult)
    ensures
        r == route_spec(position, apy_table_spec(raydium_apy_bps, drift_apy_bps, solend_apy_bps, darkpool_apy_bps)),
        r.success ==> r.yield_rate_bps >= position.min_apy_bps,
        r.target_protocol == position.protocol || r.target_protocol <= 3,
        r.success <==> position.amount > 0 && exists|i: int| 0 <= i < 4 && apy_table_spec(raydium_apy_bps, drift_apy_bps, solend_apy_bps, darkpool_apy_bps)[i]
            >= position.min_apy_bps,
        !r.success ==> r.deposit_amount == 0,
        r.success && r.target_protocol != position.protocol ==> r.target_protocol <= 3
            && apy_table_spec(raydium_apy_bps, drift_apy_bps, solend_apy_bps, darkpool_apy_bps)[r.target_protocol as int] == r.yield_rate_bps,
        position.amount * 10 <= u64::MAX && r.success ==> r.deposit_amount == position.amount - position.amount * 10 / 10_000,
        r.success ==> r.deposit_amount + fee_spec(position.amount, 10) == position.amount,
        forall|i: int| 0 <= i < 4 && #[trigger] apy_table_spec(raydium_apy_bps, drift_apy_bps, solend_apy_bps, darkpool_apy_bps)[i]
            >= position.min_apy_bps ==> r.yield_rate_bps >= apy_table_spec(raydium_apy_bps, drift_apy_bps, solend_apy_bps, darkpool_apy_bps)[i],
{
    let pos = position;
    let fee_bps = 10u64;
    let fee = fee_of(pos.amount, fee_bps);
    let net = sat_sub(pos.amount, fee);
    let candidates: [u64; 4] = [raydium_apy_bps, drift_apy_bps, solend_apy_bps, darkpool_apy_bps];
    let ghost table = apy_table_spec(raydium_apy_bps, drift_apy_bps, solend_apy_bps, darkpool_apy_bps);
    assert(candidates@ =~= table);
    let (best_protocol, best_apy) = scan_table(&candidates, pos.min_apy_bps, pos.protocol, 0);
    proof {
        lemma_scan_best(table, pos.min_apy_bps, pos.protocol, 0, 4);
        lemma_fee_le_amount(pos.amount, 10);
    }
    let success = best_apy >= pos.min_apy_bps && net > 0;
    YieldRouteResult {
        success,
        deposit_amount: if success {
            net
        } else {
            0u64
        },
        target_protocol: best_protocol,
        yield_rate_bps: best_apy,
    }
}

/// Auto-compound: re-deposit accrued yield into the position and zero it.
pub fn compound_yield(position: PrivatePosition, accrued_yield: u64) -> (r: (PrivatePosition, u64))
    ensures
        r.0 == (PrivatePosition { amount: sat_add_spec(position.amount, accrued_yield), ..position }),
        r.1 == 0,
{
    let mut pos = position;
    pos.amount = sat_add(pos.amount, accrued_yield);
    (pos, 0u64)
}

/// The buy limit reaches the sell limit.
pub open spec fn crosses(b: EncOrder, s: EncOrder) -> bool {
    b.price >= s.price
}

/// The midpoint of two prices, rounded down.
pub open spec fn mid_spec(b: EncOrder, s: EncOrder) -> u64 {
    ((b.price + s.price) / 2) as u64
}

/// The midpoint of two prices, rounded down, computed without forming their
/// sum.
fn midpoint(b: u64, s: u64) -> (r: u64)
    ensures
        r == (b + s) / 2,
{
    let both_odd: u64 = if b % 2 == 1 && s % 2 == 1 {
        1
    } else {
        0
    };
    b / 2 + s / 2 + both_odd
}

/// The midpoint of a crossing pair lies between the sell and the buy limit,
/// and is half their sum rounded down.
pub proof fn lemma_midpoint_between_limits(b: EncOrder, s: EncOrder)
    ensures
        2 * mid_spec(b, s) <= b.price + s.price <= 2 * mid_spec(b, s) + 1,
        s.price <= b.price ==> s.price <= mid_spec(b, s) <= b.price,
{
}

/// The result is zero or the midpoint of a crossing pair, and no crossing pair
/// has a higher midpoint.
pub open spec fn best_midpoint(buys: Seq<EncOrder>, sells: Seq<EncOrder>, best: u64) -> bool {
    &&& forall|i: int, j: int|
        0 <= i < buys.len() && 0 <= j < sells.len() && crosses(buys[i], sells[j]) ==> mid_spec(buys[i], sells[j])
            <= best
    &&& best == 0 || exists|i: int, j: int|
        0 <= i < buys.len() && 0 <= j < sells.len() && crosses(buys[i], sells[j]) && mid_spec(buys[i], sells[j])
            == best
}

/// The highest midpoint over the crossing pairs of a fixed-size batch, or
/// zero when no pair crosses.
pub fn calculate_batch_midpoint(buy_orders: &[EncOrder; 8], sell_orders: &[EncOrder; 8]) -> (r: u64)
    ensures
        best_midpoint(buy_orders@, sell_orders@, r),
{
    let buys = buy_orders;
    let sells = sell_orders;
    let mut best_price = 0u64;
    let mut i: usize = 0;
    while i < BUY_BATCH
        invariant
            0 <= i <= 8,
            buys@.len() == 8,
            sells@.len() == 8,
            forall|a: int, b: int|
                0 <= a < i && 0 <= b < 8 && crosses(buys@[a], sells@[b]) ==> mid_spec(buys@[a], sells@[b])
                    <= best_price,
            best_price == 0 || exists|a: int, b: int|
                0 <= a < 8 && 0 <= b < 8 && crosses(buys@[a], sells@[b]) && mid_spec(buys@[a], sells@[b])
                    == best_price,
        decreases 8 - i,
    {
        let buy = buys[i];
        let mut j: usize = 0;
        while j < SELL_BATCH
            invariant
                0 <= i < 8,
                0 <= j <= 8,
                buys@.len() == 8,
                sells@.len() == 8,
                buy == buys@[i as int],
                forall|a: int, b: int|
                    ((0 <= a < i && 0 <= b < 8) || (a == i && 0 <= b < j)) && crosses(buys@[a], sells@[b])
                        ==> mid_spec(buys@[a], sells@[b]) <= best_price,
                best_price == 0 || exists|a: int, b: int|
                    0 <= a < 8 && 0 <= b < 8 && crosses(buys@[a], sells@[b]) && mid_spec(buys@[a], sells@[b])
                        == best_price,
            decreases 8 - j,
        {
            let sell = sells[j];
            let crosses_now = buy.price >= sell.price;
            let mid = midpoint(buy.price, sell.price);
            let take = crosses_now && mid > best_price;
            if crosses_now {
                assert(crosses(buys@[i as int], sells@[j as int]));
            }
            best_price = if take {
                mid
            } else {
                best_price
            };
            j = j + 1;
        }
        i = i + 1;
    }
    best_price
}

} // verus!

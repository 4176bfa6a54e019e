//! The confidential instructions that the MPC cluster evaluates for the
//! orderbook and the yield vault: order matching, validation, VWAP, yield
//! routing, yield accrual, risk checks, settlement legs and batch matching.
//!
//! Each function takes and returns the plaintext values that the cluster sees
//! once the ciphertexts are opened; sealing the results to their owners is the
//! cluster's business.
use vstd::prelude::*;
use crate::arith::{fee_of, fee_spec, lemma_fee_le_amount, min_spec, min_u64, sat_add, sat_add_spec, sat_mul, sat_mul_spec, sat_sub, sat_sub_spec};

verus! {

/// Matching fee, in basis points.
pub const MATCH_FEE_BPS: u64 = 10;
/// Yield routing fee, in basis points.
pub const ROUTE_FEE_BPS: u64 = 10;
/// Rebalancing fee, in basis points.
pub const REBALANCE_FEE_BPS: u64 = 5;
/// Highest protocol index: 0 Raydium, 1 Drift, 2 Solend, 3 dark pool.
pub const MAX_PROTOCOL: u8 = 3;

/// A limit order.
#[derive(Clone, Copy, Debug)]
pub struct EncOrder {
    pub is_buy: bool,
    pub price: u64,
    pub size: u64,
    pub owner: [u8; 32],
    pub timestamp: u64,
    pub order_nonce: u64,
}

/// The escrow that backs a trader's orders.
#[derive(Clone, Copy, Debug)]
pub struct EncEscrow {
    pub balance: u64,
    pub fee_reserve: u64,
    pub owner: [u8; 32],
    pub last_epoch: u64,
}

/// A yield position.
#[derive(Clone, Copy, Debug)]
pub struct EncPosition {
    pub amount: u64,
    pub protocol: u8,
    pub min_apy_bps: u64,
    pub max_drawdown_bps: u64,
    pub auto_compound: bool,
    pub owner: [u8; 32],
    pub open_epoch: u64,
}

/// Yield accrued by a position.
#[derive(Clone, Copy, Debug)]
pub struct EncAccruedYield {
    pub epoch_yield: u64,
    pub lifetime_yield: u64,
    pub last_updated_epoch: u64,
    pub owner: [u8; 32],
}

/// Result of a match_orders computation.
#[derive(Clone, Copy, Debug)]
pub struct MatchResult {
    pub matched: bool,
    pub execution_price: u64,
    pub execution_size: u64,
    pub fee_bps: u64,
    pub order1_is_maker: bool,
}

/// Result of a yield routing computation.
#[derive(Clone, Copy, Debug)]
pub struct RouteResult {
    pub success: bool,
    pub deposit_amount: u64,
    pub target_protocol: u8,
    pub yield_rate_bps: u64,
    pub fee_amount: u64,
}

/// Margin / health-factor check result.
#[derive(Clone, Copy, Debug)]
pub struct RiskCheckResult {
    pub healthy: bool,
    pub health_factor_bps: u64,
    pub available_collateral: u64,
    pub should_liquidate: bool,
}

/// Summary produced after batch matching a set of orders.
#[derive(Clone, Copy, Debug)]
pub struct BatchMatchSummary {
    pub matched_pairs: u64,
    pub total_volume: u64,
    pub vwap: u64,
    pub total_fees: u64,
}

/// Oracle price feed used as a plaintext public input.
#[derive(Clone, Copy, Debug)]
pub struct OraclePrice {
    pub mark_price: u64,
    pub confidence: u64,
    pub publish_slot: u64,
}

// ---------------------------------------------------------------------------
// Pairwise matching
// ---------------------------------------------------------------------------

/// One order buys and the other sells, and the buyer's limit is at least the
/// seller's.
pub open spec fn prices_cross(o1: EncOrder, o2: EncOrder) -> bool {
    &&& o1.is_buy != o2.is_buy
    &&& if o1.is_buy {
        o1.price >= o2.price
    } else {
        o2.price >= o1.price
    }
}

/// The seller's limit price when the orders cross, else zero.
pub open spec fn execution_price_spec(o1: EncOrder, o2: EncOrder) -> u64 {
    if prices_cross(o1, o2) {
        if o1.is_buy {
            o2.price
        } else {
            o1.price
        }
    } else {
        0
    }
}

/// The smaller of the two sizes when the orders cross, else zero.
pub open spec fn gross_size_spec(o1: EncOrder, o2: EncOrder) -> u64 {
    if prices_cross(o1, o2) {
        min_spec(o1.size, o2.size)
    } else {
        0
    }
}

/// The matching fee on the gross size.
pub open spec fn match_fee_spec(o1: EncOrder, o2: EncOrder) -> u64 {
    fee_spec(gross_size_spec(o1, o2), MATCH_FEE_BPS)
}

/// The gross size less the fee.
pub open spec fn net_size_spec(o1: EncOrder, o2: EncOrder) -> u64 {
    sat_sub_spec(gross_size_spec(o1, o2), match_fee_spec(o1, o2))
}

/// The orders cross, the buyer's escrow covers the net size and the seller's
/// escrow covers the gross size.
pub open spec fn matched_spec(o1: EncOrder, o2: EncOrder, e1: EncEscrow, e2: EncEscrow) -> bool {
    let buyer = if o1.is_buy { e1 } else { e2 };
    let seller = if o1.is_buy { e2 } else { e1 };
    &&& prices_cross(o1, o2)
    &&& buyer.balance >= net_size_spec(o1, o2)
    &&& seller.balance >= gross_size_spec(o1, o2)
}

/// The buyer's escrow after a match: it pays the net size and banks the fee.
pub open spec fn buyer_after(e: EncEscrow, net: u64, fee: u64) -> EncEscrow {
    EncEscrow {
        balance: sat_sub_spec(e.balance, net),
        fee_reserve: sat_add_spec(e.fee_reserve, fee),
        owner: e.owner,
        last_epoch: e.last_epoch,
    }
}

/// The seller's escrow after a match: it gives up the gross size and gets the
/// net size back.
pub open spec fn seller_after(e: EncEscrow, gross: u64, net: u64) -> EncEscrow {
    EncEscrow {
        balance: sat_add_spec(sat_sub_spec(e.balance, gross), net),
        fee_reserve: e.fee_reserve,
        owner: e.owner,
        last_epoch: e.last_epoch,
    }
}

/// What match_orders computes: the public result and both escrows afterwards.
pub open spec fn match_orders_spec(o1: EncOrder, o2: EncOrder, e1: EncEscrow, e2: EncEscrow) -> (
    MatchResult,
    EncEscrow,
    EncEscrow,
) {
    let matched = matched_spec(o1, o2, e1, e2);
    let gross = gross_size_spec(o1, o2);
    let fee = match_fee_spec(o1, o2);
    let net = net_size_spec(o1, o2);
    let result = MatchResult {
        matched,
        execution_price: execution_price_spec(o1, o2),
        execution_size: if matched { net } else { 0 },
        fee_bps: MATCH_FEE_BPS,
        order1_is_maker: o1.timestamp <= o2.timestamp,
    };
    if !matched {
        (result, e1, e2)
    } else if o1.is_buy {
        (result, buyer_after(e1, net, fee), seller_after(e2, gross, net))
    } else {
        (result, seller_after(e1, gross, net), buyer_after(e2, net, fee))
    }
}

/// Match two limit orders against their escrows.
pub fn match_orders(order1: EncOrder, order2: EncOrder, escrow1: EncEscrow, escrow2: EncEscrow) -> (r: (
    MatchResult,
    EncEscrow,
    EncEscrow,
))
    ensures
        r == match_orders_spec(order1, order2, escrow1, escrow2),
        // no escrow balance ever grows, no fee reserve ever shrinks
        r.1.balance <= escrow1.balance,
        r.2.balance <= escrow2.balance,
        r.1.fee_reserve >= escrow1.fee_reserve,
        r.2.fee_reserve >= escrow2.fee_reserve,
        r.1.owner == escrow1.owner,
        r.2.owner == escrow2.owner,
        !r.0.matched ==> r.1 == escrow1 && r.2 == escrow2,
        r.0.matched ==> r.0.execution_size <= order1.size && r.0.execution_size <= order2.size,
        match_respects_limits(order1, order2, escrow1, escrow2, r),
{
    let o1 = order1;
    let o2 = order2;
    let e1 = escrow1;
    let e2 = escrow2;
    let sides_cross = o1.is_buy != o2.is_buy;
    let prices_cross = sides_cross && {
        if o1.is_buy {
            o1.price >= o2.price
        } else {
            o2.price >= o1.price
        }
    };
    let execution_price = if prices_cross {
        if o1.is_buy {
            o2.price
        } else {
            o1.price
        }
    } else {
        0u64
    };
    let execution_size = if prices_cross {
        min_u64(o1.size, o2.size)
    } else {
        0u64
    };
    let fee = if prices_cross {
        fee_of(execution_size, MATCH_FEE_BPS)
    } else {
        0u64
    };
    proof {
        lemma_fee_le_amount(execution_size, MATCH_FEE_BPS);
    }
    let net_size = sat_sub(execution_size, fee);
    let (buyer_balance, seller_balance) = if o1.is_buy {
        (e1.balance, e2.balance)
    } else {
        (e2.balance, e1.balance)
    };
    let buyer_ok = prices_cross && buyer_balance >= net_size;
    let seller_ok = prices_cross && seller_balance >= execution_size;
    let final_matched = prices_cross && buyer_ok && seller_ok;
    let order1_is_maker = o1.timestamp <= o2.timestamp;
    let result = MatchResult {
        matched: final_matched,
        execution_price,
        execution_size: if final_matched {
            net_size
        } else {
            0
        },
        fee_bps: MATCH_FEE_BPS,
        order1_is_maker,
    };
    let (new_e1, new_e2) = if final_matched {
        if o1.is_buy {
            let updated_buyer = EncEscrow {
                balance: sat_sub(e1.balance, net_size),
                fee_reserve: sat_add(e1.fee_reserve, fee),
                owner: e1.owner,
                last_epoch: e1.last_epoch,
            };
            let updated_seller = EncEscrow {
                balance: sat_add(sat_sub(e2.balance, execution_size), net_size),
                fee_reserve: e2.fee_reserve,
                owner: e2.owner,
                last_epoch: e2.last_epoch,
            };
            (updated_buyer, updated_seller)
        } else {
            let updated_seller = EncEscrow {
                balance: sat_add(sat_sub(e1.balance, execution_size), net_size),
                fee_reserve: e1.fee_reserve,
                owner: e1.owner,
                last_epoch: e1.last_epoch,
            };
            let updated_buyer = EncEscrow {
                balance: sat_sub(e2.balance, net_size),
                fee_reserve: sat_add(e2.fee_reserve, fee),
                owner: e2.owner,
                last_epoch: e2.last_epoch,
            };
            (updated_seller, updated_buyer)
        }
    } else {
        (e1, e2)
    };
    (result, new_e1, new_e2)
}

/// Matching does not depend on which order is passed first: swapping the two
/// orders together with their escrows gives the same match, price and size,
/// and the same escrows, swapped.
pub proof fn lemma_match_orders_symmetric(o1: EncOrder, o2: EncOrder, e1: EncEscrow, e2: EncEscrow)
    ensures
        ({
            let a = match_orders_spec(o1, o2, e1, e2);
            let b = match_orders_spec(o2, o1, e2, e1);
            &&& a.0.matched == b.0.matched
            &&& a.0.execution_price == b.0.execution_price
            &&& a.0.execution_size == b.0.execution_size
            &&& a.0.fee_bps == b.0.fee_bps
            &&& a.1 == b.2
            &&& a.2 == b.1
        }),
{
}


/// What any answer of match_orders must satisfy: a trade happens only between
/// a buy and a sell whose limits cross, at the seller's limit; the gross size
/// is the smaller of the two sizes, the buyer's escrow pays the executed (net)
/// size and the seller's escrow gives up the gross size and gets the net size
/// back, each covering its part; crossing orders whose escrows cover their
/// parts always trade; without a trade both escrows come back unchanged.
pub open spec fn match_respects_limits(o1: EncOrder, o2: EncOrder, e1: EncEscrow, e2: EncEscrow, r: (
    MatchResult,
    EncEscrow,
    EncEscrow,
)) -> bool {
    let (buy, sell) = if o1.is_buy {
        (o1, o2)
    } else {
        (o2, o1)
    };
    let (buyer_before, seller_before) = if o1.is_buy {
        (e1, e2)
    } else {
        (e2, e1)
    };
    let (buyer_after, seller_after) = if o1.is_buy {
        (r.1, r.2)
    } else {
        (r.2, r.1)
    };
    let gross = if o1.size <= o2.size {
        o1.size
    } else {
        o2.size
    };
    let net = r.0.execution_size;
    let crossing = o1.is_buy != o2.is_buy && buy.price >= sell.price;
    &&& r.0.matched ==> crossing && r.0.execution_price == sell.price
    &&& r.0.matched ==> net <= gross && buyer_before.balance >= net && seller_before.balance >= gross
    &&& r.0.matched ==> buyer_after.balance == buyer_before.balance - net
    &&& r.0.matched ==> seller_after.balance == seller_before.balance - gross + net
    &&& r.0.matched ==> seller_after.fee_reserve == seller_before.fee_reserve
        && buyer_after.fee_reserve >= buyer_before.fee_reserve
    &&& r.0.matched && gross * 10 <= u64::MAX ==> net == gross - gross * 10 / 10_000
        && buyer_after.fee_reserve == if buyer_before.fee_reserve + (gross - net) <= u64::MAX {
            buyer_before.fee_reserve + (gross - net)
        } else {
            u64::MAX as int
        }
    &&& crossing && gross * 10 <= u64::MAX && buyer_before.balance >= gross - gross * 10 / 10_000
        && seller_before.balance >= gross ==> r.0.matched
    &&& r.1.owner == e1.owner && r.2.owner == e2.owner
    &&& r.1.last_epoch == e1.last_epoch && r.2.last_epoch == e2.last_epoch
    &&& !r.0.matched ==> r.1 == e1 && r.2 == e2 && r.0.execution_size == 0
}

/// A match never trades through a limit: orders trade only when one buys, the
/// other sells and the buy limit reaches the sell limit, at the seller's
/// price, for the smaller size less a 10 bps fee that the buyer's escrow
/// banks; crossing orders whose escrows can pay always trade.
pub proof fn lemma_match_respects_limits(o1: EncOrder, o2: EncOrder, e1: EncEscrow, e2: EncEscrow)
    ensures
        match_respects_limits(o1, o2, e1, e2, match_orders_spec(o1, o2, e1, e2)),
{
    let gross = min_spec(o1.size, o2.size);
    lemma_fee_le_amount(gross, MATCH_FEE_BPS);
}

// ---------------------------------------------------------------------------
// Order validation
// ---------------------------------------------------------------------------

/// The order's price and size lie within the permitted bounds, its owner key
/// is not all zero and its nonce is not zero.
pub open spec fn order_valid_spec(o: EncOrder, min_price: u64, max_price: u64, min_size: u64, max_size: u64) -> bool {
    &&& min_price <= o.price <= max_price
    &&& min_size <= o.size <= max_size
    &&& !crate::keys::all_zero(o.owner@)
    &&& o.order_nonce != 0
}

/// An accepted order lies within every bound, has an owner and a nonce, and
/// nothing else is accepted.
pub proof fn lemma_valid_orders_within_bounds(o: EncOrder, min_price: u64, max_price: u64, min_size: u64, max_size: u64)
    ensures
        order_valid_spec(o, min_price, max_price, min_size, max_size) <==> min_price <= o.price && o.price
            <= max_price && min_size <= o.size && o.size <= max_size && o.order_nonce != 0 && exists|i: int|
            0 <= i < 32 && o.owner[i] != 0,
{
}

/// Validate an order's parameters against the orderbook's permitted bounds.
pub fn validate_order(order: EncOrder, min_price: u64, max_price: u64, min_size: u64, max_size: u64) -> (r: bool)
    ensures
        r == order_valid_spec(order, min_price, max_price, min_size, max_size),
        r <==> min_price <= order.price && order.price <= max_price && min_size <= order.size && order.size
            <= max_size && order.order_nonce != 0 && exists|i: int| 0 <= i < 32 && order.owner[i] != 0,
{
    let o = order;
    let price_ok = o.price >= min_price && o.price <= max_price;
    let size_ok = o.size >= min_size && o.size <= max_size;
    let owner_ok = !crate::keys::is_zero_key(&o.owner);
    let nonce_ok = o.order_nonce != 0;
    price_ok && size_ok && owner_ok && nonce_ok
}

// ---------------------------------------------------------------------------
// Volume-weighted average price over every crossing (buy, sell) pair
// ---------------------------------------------------------------------------

/// Add one (buy, sell) pair to the running (price-weighted volume, volume)
/// sums when the pair crosses; it trades the smaller size at the sell price.
pub open spec fn vwap_pair(acc: (u64, u64), b: EncOrder, s: EncOrder) -> (u64, u64) {
    if b.price >= s.price {
        let size = min_spec(b.size, s.size);
        (sat_add_spec(acc.0, sat_mul_spec(s.price, size)), sat_add_spec(acc.1, size))
    } else {
        acc
    }
}

/// The sums after pairing `b` with the first `j` sell orders.
pub open spec fn vwap_row(acc: (u64, u64), b: EncOrder, sells: Seq<EncOrder>, j: nat) -> (u64, u64)
    decreases j,
{
    if j == 0 {
        acc
    } else {
        vwap_pair(vwap_row(acc, b, sells, (j - 1) as nat), b, sells[j - 1])
    }
}

/// The sums after pairing the first `i` buy orders with every sell order.
pub open spec fn vwap_grid(buys: Seq<EncOrder>, sells: Seq<EncOrder>, i: nat) -> (u64, u64)
    decreases i,
{
    if i == 0 {
        (0, 0)
    } else {
        vwap_row(vwap_grid(buys, sells, (i - 1) as nat), buys[i - 1], sells, sells.len())
    }
}

/// Weighted sum divided by volume, or zero when nothing crosses.
pub open spec fn vwap_spec(buys: Seq<EncOrder>, sells: Seq<EncOrder>) -> u64 {
    let sums = vwap_grid(buys, sells, buys.len());
    if sums.1 > 0 {
        sums.0 / sums.1
    } else {
        0
    }
}

/// The volume that a buy and a sell order trade: the smaller of their sizes
/// when the buy limit reaches the sell limit, else nothing.
pub open spec fn pair_volume(b: EncOrder, s: EncOrder) -> int {
    if b.price >= s.price {
        if b.size <= s.size {
            b.size as int
        } else {
            s.size as int
        }
    } else {
        0
    }
}

/// Total volume that `b` trades with the first `j` sell orders.
pub open spec fn row_volume(b: EncOrder, sells: Seq<EncOrder>, j: nat) -> int
    decreases j,
{
    if j == 0 {
        0
    } else {
        row_volume(b, sells, (j - 1) as nat) + pair_volume(b, sells[j - 1])
    }
}

/// Total value, at the sell prices, that `b` trades with the first `j` sell
/// orders.
pub open spec fn row_value(b: EncOrder, sells: Seq<EncOrder>, j: nat) -> int
    decreases j,
{
    if j == 0 {
        0
    } else {
        row_value(b, sells, (j - 1) as nat) + sells[j - 1].price * pair_volume(b, sells[j - 1])
    }
}

/// Total volume over every crossing pair of the first `i` buy orders.
pub open spec fn crossing_volume(buys: Seq<EncOrder>, sells: Seq<EncOrder>, i: nat) -> int
    decreases i,
{
    if i == 0 {
        0
    } else {
        crossing_volume(buys, sells, (i - 1) as nat) + row_volume(buys[i - 1], sells, sells.len())
    }
}

/// Total value over every crossing pair of the first `i` buy orders.
pub open spec fn crossing_value(buys: Seq<EncOrder>, sells: Seq<EncOrder>, i: nat) -> int
    decreases i,
{
    if i == 0 {
        0
    } else {
        crossing_value(buys, sells, (i - 1) as nat) + row_value(buys[i - 1], sells, sells.len())
    }
}

proof fn lemma_row_sums_nonneg(b: EncOrder, sells: Seq<EncOrder>, j: nat)
    ensures
        row_volume(b, sells, j) >= 0,
        row_value(b, sells, j) >= 0,
    decreases j,
{
    if j > 0 {
        lemma_row_sums_nonneg(b, sells, (j - 1) as nat);
        let p = sells[j - 1].price as int;
        let v = pair_volume(b, sells[j - 1]);
        assert(p * v >= 0) by (nonlinear_arith)
            requires
                p >= 0,
                v >= 0,
        ;
    }
}

proof fn lemma_row_sums(acc: (u64, u64), b: EncOrder, sells: Seq<EncOrder>, j: nat)
    requires
        j <= sells.len(),
        acc.0 + row_value(b, sells, j) <= u64::MAX,
        acc.1 + row_volume(b, sells, j) <= u64::MAX,
    ensures
        vwap_row(acc, b, sells, j).0 == acc.0 + row_value(b, sells, j),
        vwap_row(acc, b, sells, j).1 == acc.1 + row_volume(b, sells, j),
    decreases j,
{
    if j > 0 {
        let jj = (j - 1) as nat;
        lemma_row_sums_nonneg(b, sells, jj);
        let p = sells[jj as int].price as int;
        let v = pair_volume(b, sells[jj as int]);
        assert(p * v >= 0) by (nonlinear_arith)
            requires
                p >= 0,
                v >= 0,
        ;
        lemma_row_sums(acc, b, sells, jj);
    }
}

proof fn lemma_grid_sums(buys: Seq<EncOrder>, sells: Seq<EncOrder>, i: nat)
    requires
        i <= buys.len(),
        crossing_value(buys, sells, i) <= u64::MAX,
        crossing_volume(buys, sells, i) <= u64::MAX,
    ensures
        vwap_grid(buys, sells, i).0 == crossing_value(buys, sells, i),
        vwap_grid(buys, sells, i).1 == crossing_volume(buys, sells, i),
    decreases i,
{
    if i > 0 {
        let ii = (i - 1) as nat;
        lemma_row_sums_nonneg(buys[ii as int], sells, sells.len());
        lemma_grid_sums(buys, sells, ii);
        lemma_row_sums(vwap_grid(buys, sells, ii), buys[ii as int], sells, sells.len());
    }
}

/// Where neither total overflows, the VWAP is the value of every crossing
/// (buy, sell) pair, each trading the smaller of its two sizes at the sell
/// price, divided by their total volume, or zero when nothing crosses.
pub proof fn lemma_vwap_is_volume_weighted(buys: Seq<EncOrder>, sells: Seq<EncOrder>)
    requires
        crossing_value(buys, sells, buys.len()) <= u64::MAX,
        crossing_volume(buys, sells, buys.len()) <= u64::MAX,
    ensures
        vwap_spec(buys, sells) == if crossing_volume(buys, sells, buys.len()) > 0 {
            crossing_value(buys, sells, buys.len()) / crossing_volume(buys, sells, buys.len())
        } else {
            0
        },
{
    lemma_grid_sums(buys, sells, buys.len());
}

/// Volume-weighted average execution price over all crossing pairs.
pub fn calculate_vwap(buy_orders: &Vec<EncOrder>, sell_orders: &Vec<EncOrder>) -> (r: u64)
    ensures
        r == vwap_spec(buy_orders@, sell_orders@),
        crossing_value(buy_orders@, sell_orders@, buy_orders.len() as nat) <= u64::MAX && crossing_volume(
            buy_orders@,
            sell_orders@,
            buy_orders.len() as nat,
        ) <= u64::MAX ==> r == if crossing_volume(buy_orders@, sell_orders@, buy_orders.len() as nat) > 0 {
            crossing_value(buy_orders@, sell_orders@, buy_orders.len() as nat) / crossing_volume(
                buy_orders@,
                sell_orders@,
                buy_orders.len() as nat,
            )
        } else {
            0
        },
{
    let mut total_volume: u64 = 0;
    let mut weighted_price_sum: u64 = 0;
    let mut i: usize = 0;
    while i < buy_orders.len()
        invariant
            0 <= i <= buy_orders.len(),
            (weighted_price_sum, total_volume) == vwap_grid(buy_orders@, sell_orders@, i as nat),
        decreases buy_orders.len() - i,
    {
        let buy = buy_orders[i];
        let ghost start = (weighted_price_sum, total_volume);
        let mut j: usize = 0;
        while j < sell_orders.len()
            invariant
                0 <= i < buy_orders.len(),
                0 <= j <= sell_orders.len(),
                buy == buy_orders@[i as int],
                start == vwap_grid(buy_orders@, sell_orders@, i as nat),
                (weighted_price_sum, total_volume) == vwap_row(start, buy, sell_orders@, j as nat),
            decreases sell_orders.len() - j,
        {
            let sell = sell_orders[j];
            if buy.price >= sell.price {
                let exec_price = sell.price;
                let exec_size = min_u64(buy.size, sell.size);
                weighted_price_sum = sat_add(weighted_price_sum, sat_mul(exec_price, exec_size));
                total_volume = sat_add(total_volume, exec_size);
            }
            j = j + 1;
        }
        i = i + 1;
    }
    proof {
        if crossing_value(buy_orders@, sell_orders@, buy_orders.len() as nat) <= u64::MAX && crossing_volume(
            buy_orders@,
            sell_orders@,
            buy_orders.len() as nat,
        ) <= u64::MAX {
            lemma_vwap_is_volume_weighted(buy_orders@, sell_orders@);
        }
    }
    if total_volume > 0 {
        weighted_price_sum / total_volume
    } else {
        0u64
    }
}

// ---------------------------------------------------------------------------
// Yield routing
// ---------------------------------------------------------------------------

/// The protocol APY table, indexed by protocol number.
pub open spec fn apy_table_spec(raydium: u64, drift: u64, solend: u64, dark_pool: u64) -> Seq<u64> {
    seq![raydium, drift, solend, dark_pool]
}

/// The (protocol, APY) pair kept after scanning the first `k` entries of
/// `table` from (`start_p`, `start_apy`): an entry replaces the pair when it is
/// strictly above the kept APY and at least `min_apy`.
pub open spec fn scan_best(table: Seq<u64>, min_apy: u64, start_p: u8, start_apy: u64, k: nat) -> (u8, u64)
    decreases k,
{
    if k == 0 {
        (start_p, start_apy)
    } else {
        let prev = scan_best(table, min_apy, start_p, start_apy, (k - 1) as nat);
        let x = table[k - 1];
        if x > prev.1 && x >= min_apy {
            ((k - 1) as u8, x)
        } else {
            prev
        }
    }
}

/// The kept APY is the largest of the start APY and every scanned entry that
/// reaches `min_apy`; it is the start pair or a scanned entry that reaches
/// `min_apy`.
pub proof fn lemma_scan_best(table: Seq<u64>, min_apy: u64, start_p: u8, start_apy: u64, k: nat)
    requires
        k <= table.len(),
        k <= 256,
    ensures
        ({
            let r = scan_best(table, min_apy, start_p, start_apy, k);
            &&& r.1 >= start_apy
            &&& forall|i: int| 0 <= i < k && table[i] >= min_apy ==> r.1 >= table[i]
            &&& (r == (start_p, start_apy)) || (r.0 < k && table[r.0 as int] == r.1
                && r.1 >= min_apy && r.1 > start_apy)
        }),
    decreases k,
{
    if k > 0 {
        lemma_scan_best(table, min_apy, start_p, start_apy, (k - 1) as nat);
    }
}

/// The preferred protocol, clamped to the last protocol.
pub open spec fn preferred_protocol(p: u8) -> u8 {
    if p <= MAX_PROTOCOL {
        p
    } else {
        MAX_PROTOCOL
    }
}

/// The (protocol, APY) pair chosen for `pos`: the preferred protocol's APY
/// when it reaches the minimum, then any strictly better qualifying APY.
pub open spec fn route_choice(pos: EncPosition, table: Seq<u64>) -> (u8, u64) {
    let pref = preferred_protocol(pos.protocol);
    let start_apy = if table[pref as int] >= pos.min_apy_bps {
        table[pref as int]
    } else {
        0
    };
    scan_best(table, pos.min_apy_bps, pref, start_apy, 4)
}

/// What route_yield returns for `pos` with the given APY table.
pub open spec fn route_spec(pos: EncPosition, table: Seq<u64>) -> RouteResult {
    let fee = fee_spec(pos.amount, ROUTE_FEE_BPS);
    let net = sat_sub_spec(pos.amount, fee);
    let choice = route_choice(pos, table);
    let success = choice.1 >= pos.min_apy_bps && net > 0;
    RouteResult {
        success,
        deposit_amount: if success { net } else { 0 },
        target_protocol: if success { choice.0 } else { pos.protocol },
        yield_rate_bps: choice.1,
        fee_amount: fee,
    }
}

/// Properties of a routing decision: the fee is 10 bps of the amount, and the
/// fee and the deposit make up the amount; the route succeeds exactly when
/// some protocol reaches the minimum APY and something is left after the fee;
/// the rate then reaches the minimum and beats every qualifying protocol, and
/// the target is a real protocol offering that rate; a failed route deposits
/// nothing and keeps the position's protocol.
pub open spec fn route_well_formed(pos: EncPosition, table: Seq<u64>, r: RouteResult) -> bool {
    &&& r.fee_amount <= pos.amount
    &&& r.success ==> r.deposit_amount + r.fee_amount == pos.amount
    &&& r.success ==> r.yield_rate_bps >= pos.min_apy_bps
    &&& r.success ==> r.target_protocol <= MAX_PROTOCOL
        && table[r.target_protocol as int] == r.yield_rate_bps
    &&& forall|i: int| 0 <= i < 4 && table[i] >= pos.min_apy_bps ==> r.yield_rate_bps >= table[i]
    &&& r.success <==> (exists|i: int| 0 <= i < 4 && table[i] >= pos.min_apy_bps) && r.fee_amount < pos.amount
    &&& pos.amount * 10 <= u64::MAX ==> r.fee_amount == pos.amount * 10 / 10_000
    &&& !r.success ==> r.deposit_amount == 0 && r.target_protocol == pos.protocol
}

/// Routing decisions are well formed.
pub proof fn lemma_route_well_formed(pos: EncPosition, table: Seq<u64>)
    requires
        table.len() == 4,
    ensures
        route_well_formed(pos, table, route_spec(pos, table)),
{
    let pref = preferred_protocol(pos.protocol);
    let start_apy = if table[pref as int] >= pos.min_apy_bps {
        table[pref as int]
    } else {
        0
    };
    lemma_scan_best(table, pos.min_apy_bps, pref, start_apy, 4);
    lemma_fee_le_amount(pos.amount, ROUTE_FEE_BPS);
}

/// Scan `table` from (`start_p`, `start_apy`), as `scan_best` states.
pub(crate) fn scan_table(table: &[u64; 4], min_apy: u64, start_p: u8, start_apy: u64) -> (r: (u8, u64))
    ensures
        r == scan_best(table@, min_apy, start_p, start_apy, 4),
{
    let mut best_protocol = start_p;
    let mut best_apy = start_apy;
    let mut i: usize = 0;
    while i < 4
        invariant
            0 <= i <= 4,
            table@.len() == 4,
            (best_protocol, best_apy) == scan_best(table@, min_apy, start_p, start_apy, i as nat),
        decreases 4 - i,
    {
        let apy = table[i];
        if apy > best_apy && apy >= min_apy {
            best_apy = apy;
            best_protocol = i as u8;
        }
        i = i + 1;
    }
    (best_protocol, best_apy)
}

/// Route a yield position to the best protocol whose APY reaches the
/// position's minimum, after a 10 bps fee.
pub fn route_yield(
    position: EncPosition,
    raydium_apy_bps: u64,
    drift_apy_bps: u64,
    solend_apy_bps: u64,
    dark_pool_apy_bps: u64,
) -> (r: RouteResult)
    ensures
        r == route_spec(position, apy_table_spec(raydium_apy_bps, drift_apy_bps, solend_apy_bps, dark_pool_apy_bps)),
        route_well_formed(position, apy_table_spec(raydium_apy_bps, drift_apy_bps, solend_apy_bps, dark_pool_apy_bps), r),
{
    let pos = position;
    let fee_amount = fee_of(pos.amount, ROUTE_FEE_BPS);
    let net_deposit = sat_sub(pos.amount, fee_amount);
    let apy_table: [u64; 4] = [raydium_apy_bps, drift_apy_bps, solend_apy_bps, dark_pool_apy_bps];
    let ghost table = apy_table_spec(raydium_apy_bps, drift_apy_bps, solend_apy_bps, dark_pool_apy_bps);
    assert(apy_table@ =~= table);
    let preferred: u8 = if pos.protocol <= MAX_PROTOCOL {
        pos.protocol
    } else {
        MAX_PROTOCOL
    };
    let start_apy = if apy_table[preferred as usize] >= pos.min_apy_bps {
        apy_table[preferred as usize]
    } else {
        0u64
    };
    let (best_protocol, best_apy) = scan_table(&apy_table, pos.min_apy_bps, preferred, start_apy);
    let success = best_apy >= pos.min_apy_bps && net_deposit > 0;
    proof {
        lemma_route_well_formed(pos, table);
    }
    RouteResult {
        success,
        deposit_amount: if success {
            net_deposit
        } else {
            0
        },
        target_protocol: if success {
            best_protocol
        } else {
            pos.protocol
        },
        yield_rate_bps: best_apy,
        fee_amount,
    }
}

/// What rebalance_position computes for `pos`: the position moved to the
/// protocol it ends on, less a 5 bps fee, and the route taken.
pub open spec fn rebalance_spec(pos: EncPosition, table: Seq<u64>) -> (EncPosition, RouteResult) {
    let current_apy = table[pos.protocol as int];
    let needs_rebalance = current_apy < pos.min_apy_bps;
    let choice = if needs_rebalance {
        scan_best(table, 0, pos.protocol, 0, 4)
    } else {
        (pos.protocol, current_apy)
    };
    let fee = fee_spec(pos.amount, REBALANCE_FEE_BPS);
    let net = sat_sub_spec(pos.amount, fee);
    (
        EncPosition { amount: net, protocol: choice.0, ..pos },
        RouteResult {
            success: needs_rebalance,
            deposit_amount: net,
            target_protocol: choice.0,
            yield_rate_bps: choice.1,
            fee_amount: fee,
        },
    )
}

/// Among the first `k` entries, none before the chosen one offers as much as
/// it, unless the scan kept its start.
proof fn lemma_scan_first(table: Seq<u64>, min_apy: u64, start_p: u8, start_apy: u64, k: nat)
    requires
        k <= table.len(),
        k <= 256,
    ensures
        ({
            let r = scan_best(table, min_apy, start_p, start_apy, k);
            r != (start_p, start_apy) ==> forall|i: int| 0 <= i < r.0 && table[i] >= min_apy ==> table[i] < r.1
        }),
    decreases k,
{
    if k > 0 {
        lemma_scan_first(table, min_apy, start_p, start_apy, (k - 1) as nat);
        lemma_scan_best(table, min_apy, start_p, start_apy, (k - 1) as nat);
    }
}

/// What a rebalance must do: it moves the position exactly when its current
/// protocol pays less than its minimum APY, and then to the first protocol
/// paying the highest APY of all four (staying put when every APY is zero);
/// otherwise it stays at the current protocol and rate. Either way a 5 bps fee
/// leaves the position and the rest is deposited, and nothing else about the
/// position changes.
pub open spec fn rebalance_moves_to_best(pos: EncPosition, table: Seq<u64>, r: (EncPosition, RouteResult)) -> bool {
    let current = table[pos.protocol as int];
    let below = current < pos.min_apy_bps;
    &&& r.1.success <==> below
    &&& r.1.target_protocol == r.0.protocol
    &&& r.0.protocol <= 3
    &&& below ==> table[r.0.protocol as int] == r.1.yield_rate_bps
    &&& below ==> forall|i: int| 0 <= i < 4 ==> table[i] <= r.1.yield_rate_bps
    &&& below && r.1.yield_rate_bps > 0 ==> forall|i: int| 0 <= i < r.0.protocol ==> table[i] < r.1.yield_rate_bps
    &&& below && r.1.yield_rate_bps == 0 ==> r.0.protocol == pos.protocol
    &&& !below ==> r.0.protocol == pos.protocol && r.1.yield_rate_bps == current
    &&& r.0.amount + r.1.fee_amount == pos.amount
    &&& r.1.deposit_amount == r.0.amount
    &&& pos.amount * 5 <= u64::MAX ==> r.1.fee_amount == pos.amount * 5 / 10_000
    &&& r.0.min_apy_bps == pos.min_apy_bps && r.0.max_drawdown_bps == pos.max_drawdown_bps
    &&& r.0.auto_compound == pos.auto_compound && r.0.owner == pos.owner && r.0.open_epoch == pos.open_epoch
}

/// A rebalance moves a position exactly when its protocol pays below the
/// position's minimum, and then to the best-paying protocol, as
/// `rebalance_moves_to_best` states.
pub proof fn lemma_rebalance_moves_to_best(pos: EncPosition, table: Seq<u64>)
    requires
        table.len() == 4,
        pos.protocol <= MAX_PROTOCOL,
    ensures
        rebalance_moves_to_best(pos, table, rebalance_spec(pos, table)),
{
    lemma_scan_best(table, 0, pos.protocol, 0, 4);
    lemma_scan_first(table, 0, pos.protocol, 0, 4);
    lemma_fee_le_amount(pos.amount, REBALANCE_FEE_BPS);
}

/// Move a position whose current protocol pays less than its minimum APY to
/// the highest-paying protocol, charging a 5 bps fee either way.
pub fn rebalance_position(
    position: EncPosition,
    raydium_apy_bps: u64,
    drift_apy_bps: u64,
    solend_apy_bps: u64,
    dark_pool_apy_bps: u64,
) -> (r: (EncPosition, RouteResult))
    requires
        position.protocol <= MAX_PROTOCOL,
    ensures
        r == rebalance_spec(position, apy_table_spec(raydium_apy_bps, drift_apy_bps, solend_apy_bps, dark_pool_apy_bps)),
        r.0.amount + r.1.fee_amount == position.amount,
        r.0.protocol <= MAX_PROTOCOL,
        r.1.success ==> forall|i: int| 0 <= i < 4
            ==> r.1.yield_rate_bps >= #[trigger] apy_table_spec(raydium_apy_bps, drift_apy_bps, solend_apy_bps, dark_pool_apy_bps)[i],
        rebalance_moves_to_best(position, apy_table_spec(raydium_apy_bps, drift_apy_bps, solend_apy_bps, dark_pool_apy_bps), r),
{
    let pos = position;
    let apy_table: [u64; 4] = [raydium_apy_bps, drift_apy_bps, solend_apy_bps, dark_pool_apy_bps];
    let ghost table = apy_table_spec(raydium_apy_bps, drift_apy_bps, solend_apy_bps, dark_pool_apy_bps);
    assert(apy_table@ =~= table);
    let current_apy = apy_table[pos.protocol as usize];
    let needs_rebalance = current_apy < pos.min_apy_bps;
    let (new_protocol, new_apy) = if needs_rebalance {
        scan_table(&apy_table, 0, pos.protocol, 0)
    } else {
        (pos.protocol, current_apy)
    };
    proof {
        lemma_scan_best(table, 0, pos.protocol, 0, 4);
        lemma_fee_le_amount(pos.amount, REBALANCE_FEE_BPS);
        lemma_rebalance_moves_to_best(pos, table);
    }
    let fee = fee_of(pos.amount, REBALANCE_FEE_BPS);
    let net_amount = sat_sub(pos.amount, fee);
    let new_pos = EncPosition {
        amount: net_amount,
        protocol: new_protocol,
        min_apy_bps: pos.min_apy_bps,
        max_drawdown_bps: pos.max_drawdown_bps,
        auto_compound: pos.auto_compound,
        owner: pos.owner,
        open_epoch: pos.open_epoch,
    };
    let route_result = RouteResult {
        success: needs_rebalance,
        deposit_amount: net_amount,
        target_protocol: new_protocol,
        yield_rate_bps: new_apy,
        fee_amount: fee,
    };
    (new_pos, route_result)
}


/// What batch_route_yield returns: each position routed on its own.
pub open spec fn batch_route_spec(positions: Seq<EncPosition>, table: Seq<u64>) -> Seq<RouteResult> {
    positions.map_values(|p: EncPosition| route_spec(p, table))
}

/// Route every position of a batch against the same APY table.
pub fn batch_route_yield(
    positions: &Vec<EncPosition>,
    raydium_apy_bps: u64,
    drift_apy_bps: u64,
    solend_apy_bps: u64,
    dark_pool_apy_bps: u64,
) -> (r: Vec<RouteResult>)
    ensures
        r@ == batch_route_spec(positions@, apy_table_spec(raydium_apy_bps, drift_apy_bps, solend_apy_bps, dark_pool_apy_bps)),
{
    let ghost table = apy_table_spec(raydium_apy_bps, drift_apy_bps, solend_apy_bps, dark_pool_apy_bps);
    let mut results: Vec<RouteResult> = Vec::new();
    let mut i: usize = 0;
    while i < positions.len()
        invariant
            0 <= i <= positions.len(),
            results@.len() == i,
            table == apy_table_spec(raydium_apy_bps, drift_apy_bps, solend_apy_bps, dark_pool_apy_bps),
            forall|k: int| 0 <= k < i ==> results@[k] == route_spec(positions@[k], table),
        decreases positions.len() - i,
    {
        let r = route_yield(positions[i], raydium_apy_bps, drift_apy_bps, solend_apy_bps, dark_pool_apy_bps);
        results.push(r);
        i = i + 1;
    }
    assert(results@ =~= batch_route_spec(positions@, table));
    results
}

/// Routing a batch gives, position by position, what routing each position on
/// its own gives.
pub proof fn lemma_batch_route_is_pointwise(positions: Seq<EncPosition>, table: Seq<u64>, i: int)
    requires
        0 <= i < positions.len(),
    ensures
        batch_route_spec(positions, table).len() == positions.len(),
        batch_route_spec(positions, table)[i] == route_spec(positions[i], table),
{
}

// ---------------------------------------------------------------------------
// Yield accrual
// ---------------------------------------------------------------------------

/// What compound_yield computes.
pub open spec fn compound_spec(pos: EncPosition, y: EncAccruedYield, current_epoch: u64) -> (EncPosition, EncAccruedYield) {
    let should_compound = pos.auto_compound && y.epoch_yield > 0;
    let new_amount = if should_compound { sat_add_spec(pos.amount, y.epoch_yield) } else { pos.amount };
    let new_lifetime = if should_compound {
        sat_add_spec(y.lifetime_yield, y.epoch_yield)
    } else {
        y.lifetime_yield
    };
    (
        EncPosition { amount: new_amount, ..pos },
        EncAccruedYield { epoch_yield: 0, lifetime_yield: new_lifetime, last_updated_epoch: current_epoch, owner: y.owner },
    )
}

/// Re-deposit the epoch's yield into an auto-compounding position and reset
/// the epoch's yield.
pub fn compound_yield(position: EncPosition, accrued_yield: EncAccruedYield, current_epoch: u64) -> (r: (
    EncPosition,
    EncAccruedYield,
))
    ensures
        r == compound_spec(position, accrued_yield, current_epoch),
        r.0 == (EncPosition { amount: r.0.amount, ..position }),
        r.1 == (EncAccruedYield { epoch_yield: 0, lifetime_yield: r.1.lifetime_yield, last_updated_epoch: current_epoch, owner: accrued_yield.owner }),
        !position.auto_compound ==> r.0.amount == position.amount && r.1.lifetime_yield == accrued_yield.lifetime_yield,
        position.auto_compound && position.amount + accrued_yield.epoch_yield <= u64::MAX ==> r.0.amount
            == position.amount + accrued_yield.epoch_yield,
        position.auto_compound && accrued_yield.lifetime_yield + accrued_yield.epoch_yield <= u64::MAX
            ==> r.1.lifetime_yield == accrued_yield.lifetime_yield + accrued_yield.epoch_yield,
        r.0.amount >= position.amount,
        r.1.lifetime_yield >= accrued_yield.lifetime_yield,
        r.1.epoch_yield == 0,
{
    let mut pos = position;
    let yield_ = accrued_yield;
    let should_compound = pos.auto_compound && yield_.epoch_yield > 0;
    let (new_amount, new_lifetime) = if should_compound {
        (sat_add(pos.amount, yield_.epoch_yield), sat_add(yield_.lifetime_yield, yield_.epoch_yield))
    } else {
        (pos.amount, yield_.lifetime_yield)
    };
    pos.amount = new_amount;
    let reset_yield = EncAccruedYield {
        epoch_yield: 0,
        lifetime_yield: new_lifetime,
        last_updated_epoch: current_epoch,
        owner: yield_.owner,
    };
    (pos, reset_yield)
}

/// What accrue_epoch_yield computes.
pub open spec fn accrue_spec(pos: EncPosition, y: EncAccruedYield, epoch_yield_bps: u64, current_epoch: u64) -> EncAccruedYield {
    let accrued = fee_spec(pos.amount, epoch_yield_bps);
    EncAccruedYield {
        epoch_yield: sat_add_spec(y.epoch_yield, accrued),
        lifetime_yield: sat_add_spec(y.lifetime_yield, accrued),
        last_updated_epoch: current_epoch,
        owner: y.owner,
    }
}

/// Accrue one epoch's yield of `epoch_yield_bps` basis points on the position.
pub fn accrue_epoch_yield(
    position: EncPosition,
    accrued_yield: EncAccruedYield,
    epoch_yield_bps: u64,
    current_epoch: u64,
) -> (r: EncAccruedYield)
    ensures
        r == accrue_spec(position, accrued_yield, epoch_yield_bps, current_epoch),
        r.last_updated_epoch == current_epoch && r.owner == accrued_yield.owner,
        ({
            let share = position.amount * epoch_yield_bps / 10_000;
            position.amount * epoch_yield_bps <= u64::MAX ==> {
                &&& accrued_yield.epoch_yield + share <= u64::MAX ==> r.epoch_yield == accrued_yield.epoch_yield + share
                &&& accrued_yield.lifetime_yield + share <= u64::MAX ==> r.lifetime_yield
                    == accrued_yield.lifetime_yield + share
            }
        }),
        r.epoch_yield >= accrued_yield.epoch_yield,
        r.lifetime_yield >= accrued_yield.lifetime_yield,
{
    let pos = position;
    let yield_ = accrued_yield;
    let new_epoch_yield = fee_of(pos.amount, epoch_yield_bps);
    EncAccruedYield {
        epoch_yield: sat_add(yield_.epoch_yield, new_epoch_yield),
        lifetime_yield: sat_add(yield_.lifetime_yield, new_epoch_yield),
        last_updated_epoch: current_epoch,
        owner: yield_.owner,
    }
}

/// Pay out the epoch's yield and reset it; the lifetime total is kept.
pub fn withdraw_yield(position: EncPosition, accrued_yield: EncAccruedYield, current_epoch: u64) -> (r: (
    u64,
    EncAccruedYield,
))
    ensures
        r.0 == accrued_yield.epoch_yield,
        r.1 == (EncAccruedYield {
            epoch_yield: 0,
            lifetime_yield: accrued_yield.lifetime_yield,
            last_updated_epoch: current_epoch,
            owner: accrued_yield.owner,
        }),
{
    let yield_ = accrued_yield;
    let withdrawal_amount = yield_.epoch_yield;
    let zeroed = EncAccruedYield {
        epoch_yield: 0,
        lifetime_yield: yield_.lifetime_yield,
        last_updated_epoch: current_epoch,
        owner: yield_.owner,
    };
    (withdrawal_amount, zeroed)
}

/// The payout for closing a position: its amount plus the epoch's yield.
pub open spec fn payout_spec(pos: EncPosition, y: EncAccruedYield) -> u64 {
    sat_add_spec(pos.amount, y.epoch_yield)
}

/// The total paid out when a position is closed.
pub fn close_position(position: EncPosition, accrued_yield: EncAccruedYield) -> (r: u64)
    ensures
        r == payout_spec(position, accrued_yield),
        r == if position.amount + accrued_yield.epoch_yield <= u64::MAX {
            position.amount + accrued_yield.epoch_yield
        } else {
            u64::MAX as int
        },
{
    sat_add(position.amount, accrued_yield.epoch_yield)
}

/// The yield settlement amount for a position.
pub fn produce_yield_settlement(position: EncPosition, accrued_yield: EncAccruedYield) -> (r: u64)
    ensures
        r == payout_spec(position, accrued_yield),
        r == if position.amount + accrued_yield.epoch_yield <= u64::MAX {
            position.amount + accrued_yield.epoch_yield
        } else {
            u64::MAX as int
        },
{
    sat_add(position.amount, accrued_yield.epoch_yield)
}

/// Closing a position pays what its yield settlement pays, and once the
/// epoch's yield has been withdrawn, closing pays the position's amount alone.
pub proof fn lemma_close_matches_settlement(pos: EncPosition, y: EncAccruedYield, epoch: u64)
    ensures
        payout_spec(pos, y) == sat_add_spec(pos.amount, y.epoch_yield),
        payout_spec(pos, EncAccruedYield { epoch_yield: 0, lifetime_yield: y.lifetime_yield, last_updated_epoch: epoch, owner: y.owner })
            == pos.amount,
        payout_spec(pos, compound_spec(pos, y, epoch).1) == pos.amount,
{
}

/// After an accrual on an empty epoch, the epoch's yield (what a withdrawal
/// then pays out) is exactly the accrued share, and the lifetime total has
/// grown by it.
pub proof fn lemma_accrue_then_withdraw(pos: EncPosition, y: EncAccruedYield, bps: u64, epoch: u64)
    requires
        y.epoch_yield == 0,
    ensures
        accrue_spec(pos, y, bps, epoch).epoch_yield == fee_spec(pos.amount, bps),
        accrue_spec(pos, y, bps, epoch).lifetime_yield == sat_add_spec(y.lifetime_yield, fee_spec(pos.amount, bps)),
{
}

/// Compounding twice in a row is compounding once: the first call empties the
/// epoch's yield, so the second changes neither the position's amount nor the
/// lifetime total.
pub proof fn lemma_compound_idempotent(pos: EncPosition, y: EncAccruedYield, epoch: u64, later: u64)
    ensures
        ({
            let once = compound_spec(pos, y, epoch);
            let twice = compound_spec(once.0, once.1, later);
            &&& twice.0 == once.0
            &&& twice.1.lifetime_yield == once.1.lifetime_yield
            &&& twice.1.epoch_yield == 0
        }),
{
}

// ---------------------------------------------------------------------------
// Risk checks
// ---------------------------------------------------------------------------

/// Scale of an oracle mark price: nine decimals.
pub const PRICE_SCALE: u64 = 1_000_000_000;

/// The value of the escrow at the oracle's mark price.
pub open spec fn collateral_value_spec(escrow: EncEscrow, oracle: OraclePrice) -> u64 {
    (sat_mul_spec(escrow.balance, oracle.mark_price) / 1_000_000_000) as u64
}

/// `amount * factor / leverage`, with the product saturating, or `u64::MAX`
/// when the leverage is zero.
pub open spec fn required_spec(amount: u64, factor: u64, leverage: u64) -> u64 {
    if leverage == 0 {
        u64::MAX
    } else {
        (sat_mul_spec(amount, factor) / leverage) as u64
    }
}

/// What check_position_health computes.
pub open spec fn health_spec(pos: EncPosition, escrow: EncEscrow, oracle: OraclePrice, leverage: u64) -> RiskCheckResult {
    let cv = collateral_value_spec(escrow, oracle);
    let required = required_spec(pos.amount, 10_000, leverage);
    let hf = if required > 0 {
        (sat_mul_spec(cv, 10_000) / required) as u64
    } else {
        10_000
    };
    RiskCheckResult {
        healthy: hf >= 10_000,
        health_factor_bps: hf,
        available_collateral: sat_sub_spec(cv, required),
        should_liquidate: hf < 10_500,
    }
}

/// Compute a position's health factor against its escrowed collateral.
pub fn check_position_health(position: EncPosition, escrow: EncEscrow, oracle: OraclePrice, leverage: u64) -> (r: RiskCheckResult)
    ensures
        r == health_spec(position, escrow, oracle, leverage),
        !r.healthy ==> r.should_liquidate,
        health_measures_value(position, escrow, oracle, leverage, r),
{
    proof {
        lemma_health_factor(position, escrow, oracle, leverage);
    }
    let collateral_value = sat_mul(escrow.balance, oracle.mark_price) / PRICE_SCALE;
    let required_collateral = sat_mul(position.amount, 10_000).checked_div(leverage).unwrap_or(u64::MAX);
    let health_factor_bps = if required_collateral > 0 {
        sat_mul(collateral_value, 10_000).checked_div(required_collateral).unwrap_or(0)
    } else {
        10_000
    };
    let available_collateral = sat_sub(collateral_value, required_collateral);
    let should_liquidate = health_factor_bps < 10_500;
    RiskCheckResult {
        healthy: health_factor_bps >= 10_000,
        health_factor_bps,
        available_collateral,
        should_liquidate,
    }
}

/// `x / d` reaches `k` exactly when `x` reaches `k * d`.
proof fn lemma_div_at_least(x: int, d: int, k: int)
    requires
        x >= 0,
        d > 0,
        k >= 0,
    ensures
        x / d >= k <==> x >= k * d,
{
    assert(x / d >= k ==> x >= k * d) by (nonlinear_arith)
        requires
            x >= 0,
            d > 0,
            k >= 0,
    ;
    assert(x >= k * d ==> x / d >= k) by (nonlinear_arith)
        requires
            x >= 0,
            d > 0,
            k >= 0,
    ;
}

/// What a risk check must report: the health factor is the collateral's value
/// at the mark price (`balance * mark_price / 10^9`) in basis points of the
/// required collateral (`amount * 10_000 / leverage`); the position is healthy
/// exactly when that value covers the requirement, is to be liquidated exactly
/// when it is below 105% of it, and the available collateral is what the value
/// exceeds it by. Without leverage nothing counts as covered. Stated where
/// neither product overflows; a healthy position covers its requirement even
/// where the health factor's own product would.
pub open spec fn health_measures_value(pos: EncPosition, escrow: EncEscrow, oracle: OraclePrice, leverage: u64, r: RiskCheckResult) -> bool {
    let value = escrow.balance * oracle.mark_price / 1_000_000_000;
    let required = if leverage > 0 {
        pos.amount * 10_000 / (leverage as int)
    } else {
        u64::MAX as int
    };
    escrow.balance * oracle.mark_price <= u64::MAX && pos.amount * 10_000 <= u64::MAX ==> {
        &&& required > 0 && value * 10_000 <= u64::MAX ==> r.health_factor_bps == value * 10_000 / required
        &&& required > 0 && value * 10_000 <= u64::MAX ==> (r.healthy <==> value >= required)
        &&& required > 0 && value * 10_000 <= u64::MAX ==> (r.should_liquidate <==> value * 10_000 < required
            * 10_500)
        &&& required > 0 ==> (r.healthy ==> value >= required)
        &&& required == 0 ==> r.health_factor_bps == 10_000 && r.healthy
        &&& r.available_collateral == if value > required {
            value - required
        } else {
            0
        }
    }
}

/// A risk check measures the collateral's value at the mark price against the
/// collateral that the position's amount and leverage require, as
/// `health_measures_value` states.
pub proof fn lemma_health_factor(pos: EncPosition, escrow: EncEscrow, oracle: OraclePrice, leverage: u64)
    ensures
        health_measures_value(pos, escrow, oracle, leverage, health_spec(pos, escrow, oracle, leverage)),
{
    if escrow.balance * oracle.mark_price > u64::MAX || pos.amount * 10_000 > u64::MAX {
        return;
    }
    let value = escrow.balance * oracle.mark_price / 1_000_000_000;
    let cv = collateral_value_spec(escrow, oracle);
    assert(cv == value);
    let required = required_spec(pos.amount, 10_000, leverage);
    if leverage > 0 {
        assert(sat_mul_spec(pos.amount, 10_000) == pos.amount * 10_000);
        assert(pos.amount * 10_000 / (leverage as int) <= u64::MAX) by (nonlinear_arith)
            requires
                pos.amount * 10_000 <= u64::MAX,
                leverage > 0,
        ;
        assert(required == pos.amount * 10_000 / (leverage as int));
    }
    if required > 0 {
        let x = sat_mul_spec(cv, 10_000) as int;
        lemma_div_at_least(x, required as int, 10_000);
        lemma_div_at_least(x, required as int, 10_500);
        assert(x <= cv * 10_000);
        if cv * 10_000 <= u64::MAX {
            assert(x == cv * 10_000);
        }
        assert(x >= 10_000 * required ==> cv >= required) by (nonlinear_arith)
            requires
                x <= cv * 10_000,
        ;
        assert(cv >= required ==> cv * 10_000 >= 10_000 * required) by (nonlinear_arith);
    }
}

/// A lower mark price never gives a higher health factor, and a position
/// healthy at the lower price is healthy at the higher one.
pub proof fn lemma_health_monotone_in_price(
    pos: EncPosition,
    escrow: EncEscrow,
    low: OraclePrice,
    high: OraclePrice,
    leverage: u64,
)
    requires
        low.mark_price <= high.mark_price,
    ensures
        health_spec(pos, escrow, low, leverage).health_factor_bps <= health_spec(pos, escrow, high, leverage).health_factor_bps,
        health_spec(pos, escrow, low, leverage).healthy ==> health_spec(pos, escrow, high, leverage).healthy,
        collateral_value_spec(escrow, low) <= collateral_value_spec(escrow, high),
{
    let b = escrow.balance as int;
    assert(b * low.mark_price <= b * high.mark_price) by (nonlinear_arith)
        requires
            b >= 0,
            low.mark_price <= high.mark_price,
    ;
    let pl = sat_mul_spec(escrow.balance, low.mark_price) as int;
    let ph = sat_mul_spec(escrow.balance, high.mark_price) as int;
    assert(pl <= ph);
    assert(pl / 1_000_000_000 <= ph / 1_000_000_000) by (nonlinear_arith)
        requires
            0 <= pl <= ph,
    ;
    let cl = collateral_value_spec(escrow, low);
    let ch = collateral_value_spec(escrow, high);
    assert(cl * 10_000 <= ch * 10_000) by (nonlinear_arith)
        requires
            cl <= ch,
    ;
    let xl = sat_mul_spec(cl, 10_000) as int;
    let xh = sat_mul_spec(ch, 10_000) as int;
    assert(xl <= xh);
    let required = required_spec(pos.amount, 10_000, leverage) as int;
    if required > 0 {
        assert(xl / required <= xh / required) by (nonlinear_arith)
            requires
                0 <= xl <= xh,
                required > 0,
        ;
    }
}

/// What max_safe_withdrawal computes.
pub open spec fn max_safe_spec(pos: EncPosition, escrow: EncEscrow, oracle: OraclePrice, leverage: u64, buffer_bps: u64) -> u64 {
    let cv = collateral_value_spec(escrow, oracle);
    let min_required = required_spec(pos.amount, (10_000 + buffer_bps) as u64, leverage);
    if cv > min_required {
        (cv - min_required) as u64
    } else {
        0
    }
}

/// The most collateral that can be withdrawn while keeping `buffer_bps` of
/// margin above the requirement.
pub fn max_safe_withdrawal(position: EncPosition, escrow: EncEscrow, oracle: OraclePrice, leverage: u64, buffer_bps: u64) -> (r: u64)
    requires
        buffer_bps <= u64::MAX - 10_000,
    ensures
        r == max_safe_spec(position, escrow, oracle, leverage, buffer_bps),
        r <= collateral_value_spec(escrow, oracle),
        ({
            let value = escrow.balance * oracle.mark_price / 1_000_000_000;
            let required = if leverage > 0 {
                position.amount * (10_000 + buffer_bps) / (leverage as int)
            } else {
                u64::MAX as int
            };
            escrow.balance * oracle.mark_price <= u64::MAX && position.amount * (10_000 + buffer_bps) <= u64::MAX
                ==> r == if value > required {
                value - required
            } else {
                0
            }
        }),
{
    let collateral_value = sat_mul(escrow.balance, oracle.mark_price) / PRICE_SCALE;
    let min_required = sat_mul(position.amount, 10_000 + buffer_bps).checked_div(leverage).unwrap_or(u64::MAX);
    if collateral_value > min_required {
        sat_sub(collateral_value, min_required)
    } else {
        0u64
    }
}

/// With no buffer, the safe withdrawal is exactly the collateral that the
/// health check reports as available.
pub proof fn lemma_safe_withdrawal_without_buffer(pos: EncPosition, escrow: EncEscrow, oracle: OraclePrice, leverage: u64)
    ensures
        max_safe_spec(pos, escrow, oracle, leverage, 0) == health_spec(pos, escrow, oracle, leverage).available_collateral,
{
}

// ---------------------------------------------------------------------------
// Settlement legs
// ---------------------------------------------------------------------------

/// The token amounts that move from order 1's owner to order 2's and back:
/// after a match the buyer's side carries the executed size.
pub open spec fn settlement_spec(o1: EncOrder, result: MatchResult) -> (u64, u64) {
    if result.matched {
        if o1.is_buy {
            (result.execution_size, 0)
        } else {
            (0, result.execution_size)
        }
    } else {
        (0, 0)
    }
}

/// Turn a match result into the two settlement legs.
pub fn produce_settlement(order1: EncOrder, order2: EncOrder, match_result: MatchResult) -> (r: (u64, u64))
    ensures
        r == settlement_spec(order1, match_result),
        r.0 == 0 || r.1 == 0,
        !match_result.matched ==> r == (0u64, 0u64),
        match_result.matched && order1.is_buy ==> r == (match_result.execution_size, 0u64),
        match_result.matched && !order1.is_buy ==> r == (0u64, match_result.execution_size),
{
    let result = match_result;
    if result.matched {
        if order1.is_buy {
            (result.execution_size, 0u64)
        } else {
            (0u64, result.execution_size)
        }
    } else {
        (0u64, 0u64)
    }
}


// ---------------------------------------------------------------------------
// Batch matching
// ---------------------------------------------------------------------------

/// Running state of a batch match: buy escrows, sell escrows, matched pairs,
/// net volume, fees, and price-weighted net volume.
pub type BatchState = (Seq<EncEscrow>, Seq<EncEscrow>, u64, u64, u64, u64);

/// Try to match buy order `b` (escrow `bi`) with sell order `s` (escrow `si`):
/// both escrows must be non-empty and the prices must cross; the trade size is
/// capped by both order sizes and both escrow balances.
pub open spec fn batch_pair(st: BatchState, bi: int, si: int, b: EncOrder, s: EncOrder) -> BatchState {
    let be = st.0;
    let se = st.1;
    if be[bi].balance == 0 || se[si].balance == 0 {
        st
    } else if b.price >= s.price {
        let size = min_spec(min_spec(min_spec(b.size, s.size), be[bi].balance), se[si].balance);
        let fee = fee_spec(size, MATCH_FEE_BPS);
        let net = sat_sub_spec(size, fee);
        (
            be.update(bi, buyer_after(be[bi], net, fee)),
            se.update(si, seller_after(se[si], size, net)),
            sat_add_spec(st.2, 1),
            sat_add_spec(st.3, net),
            sat_add_spec(st.4, fee),
            sat_add_spec(st.5, sat_mul_spec(s.price, net)),
        )
    } else {
        st
    }
}

/// The state after trying buy order `bi` against the first `j` sell orders.
pub open spec fn batch_row(st: BatchState, bi: int, b: EncOrder, sells: Seq<EncOrder>, j: nat) -> BatchState
    decreases j,
{
    if j == 0 {
        st
    } else {
        batch_pair(batch_row(st, bi, b, sells, (j - 1) as nat), bi, j - 1, b, sells[j - 1])
    }
}

/// The state after trying the first `i` buy orders against every sell order.
pub open spec fn batch_grid(
    buys: Seq<EncOrder>,
    sells: Seq<EncOrder>,
    buy_escrows: Seq<EncEscrow>,
    sell_escrows: Seq<EncEscrow>,
    i: nat,
) -> BatchState
    decreases i,
{
    if i == 0 {
        (buy_escrows, sell_escrows, 0, 0, 0, 0)
    } else {
        batch_row(batch_grid(buys, sells, buy_escrows, sell_escrows, (i - 1) as nat), i - 1, buys[i - 1], sells, sells.len())
    }
}

/// The summary of a final batch state.
pub open spec fn batch_summary(st: BatchState) -> BatchMatchSummary {
    BatchMatchSummary {
        matched_pairs: st.2,
        total_volume: st.3,
        vwap: if st.3 > 0 { (st.5 / st.3) as u64 } else { 0 },
        total_fees: st.4,
    }
}

/// Escrow `after` is escrow `before` with possibly less balance and possibly
/// more fee reserve.
pub open spec fn escrow_drained(before: EncEscrow, after: EncEscrow) -> bool {
    &&& after.balance <= before.balance
    &&& after.fee_reserve >= before.fee_reserve
    &&& after.owner == before.owner
    &&& after.last_epoch == before.last_epoch
}

/// Every escrow of `after` relates to the escrow at the same index of `before`
/// as `escrow_drained` says.
pub open spec fn escrows_drained(before: Seq<EncEscrow>, after: Seq<EncEscrow>) -> bool {
    &&& after.len() == before.len()
    &&& forall|k: int| 0 <= k < before.len() ==> escrow_drained(#[trigger] before[k], after[k])
}

/// The sum of the balances of a list of escrows.
pub open spec fn total_balance(escrows: Seq<EncEscrow>) -> int
    decreases escrows.len(),
{
    if escrows.len() == 0 {
        0
    } else {
        total_balance(escrows.drop_last()) + escrows.last().balance
    }
}

/// Each balance is part of the total.
proof fn lemma_total_balance_bounds(escrows: Seq<EncEscrow>, i: int)
    requires
        0 <= i < escrows.len(),
    ensures
        0 <= escrows[i].balance <= total_balance(escrows),
    decreases escrows.len(),
{
    lemma_total_balance_nonneg(escrows.drop_last());
    if i < escrows.len() - 1 {
        lemma_total_balance_bounds(escrows.drop_last(), i);
    }
}

/// A total of balances is never negative.
proof fn lemma_total_balance_nonneg(escrows: Seq<EncEscrow>)
    ensures
        total_balance(escrows) >= 0,
    decreases escrows.len(),
{
    if escrows.len() > 0 {
        lemma_total_balance_nonneg(escrows.drop_last());
    }
}

/// Replacing one escrow changes the total by the change of its balance.
proof fn lemma_total_balance_update(escrows: Seq<EncEscrow>, i: int, e: EncEscrow)
    requires
        0 <= i < escrows.len(),
    ensures
        total_balance(escrows.update(i, e)) == total_balance(escrows) - escrows[i].balance + e.balance,
    decreases escrows.len(),
{
    let u = escrows.update(i, e);
    if i == escrows.len() - 1 {
        assert(u.drop_last() =~= escrows.drop_last());
    } else {
        lemma_total_balance_update(escrows.drop_last(), i, e);
        assert(u.drop_last() =~= escrows.drop_last().update(i, e));
    }
}

/// Trying one buy order against the first `j` sell orders touches only its
/// own escrow and the escrows of sell orders whose limit it reaches; against
/// sell orders that it reaches none of, it changes nothing.
proof fn lemma_batch_row_frame(st: BatchState, bi: int, b: EncOrder, sells: Seq<EncOrder>, j: nat)
    requires
        j <= sells.len(),
        j == 0 || (0 <= bi < st.0.len() && sells.len() <= st.1.len()),
    ensures
        ({
            let r = batch_row(st, bi, b, sells, j);
            &&& r.0.len() == st.0.len()
            &&& r.1.len() == st.1.len()
            &&& forall|k: int| 0 <= k < st.0.len() && k != bi ==> r.0[k] == st.0[k]
            &&& forall|m: int| 0 <= m < st.1.len() && !(m < j && b.price >= sells[m].price) ==> r.1[m] == st.1[m]
            &&& (forall|m: int| 0 <= m < j ==> b.price < sells[m].price) ==> r == st
        }),
    decreases j,
{
    if j > 0 {
        lemma_batch_row_frame(st, bi, b, sells, (j - 1) as nat);
    }
}

/// Trying the first `i` buy orders leaves alone every buy escrow past them or
/// whose order reaches no sell limit, and every sell escrow past the sell
/// orders or whose order no tried buy limit reaches; when no tried buy order
/// reaches any sell limit the state is the initial one.
proof fn lemma_batch_grid_frame(
    buys: Seq<EncOrder>,
    sells: Seq<EncOrder>,
    buy_escrows: Seq<EncEscrow>,
    sell_escrows: Seq<EncEscrow>,
    i: nat,
)
    requires
        i <= buys.len(),
        buys.len() == 0 || sells.len() == 0 || (buy_escrows.len() >= buys.len() && sell_escrows.len() >= sells.len()),
    ensures
        ({
            let r = batch_grid(buys, sells, buy_escrows, sell_escrows, i);
            &&& r.0.len() == buy_escrows.len()
            &&& r.1.len() == sell_escrows.len()
            &&& forall|k: int|
                0 <= k < buy_escrows.len() && (k >= i || forall|m: int| 0 <= m < sells.len() ==> buys[k].price
                    < sells[m].price) ==> r.0[k] == buy_escrows[k]
            &&& forall|m: int|
                0 <= m < sell_escrows.len() && (m >= sells.len() || forall|k: int| 0 <= k < i ==> buys[k].price
                    < sells[m].price) ==> r.1[m] == sell_escrows[m]
            &&& (forall|k: int, m: int| 0 <= k < i && 0 <= m < sells.len() ==> buys[k].price < sells[m].price) ==> r
                == (buy_escrows, sell_escrows, 0u64, 0u64, 0u64, 0u64)
        }),
    decreases i,
{
    if i > 0 {
        let ii = (i - 1) as nat;
        lemma_batch_grid_frame(buys, sells, buy_escrows, sell_escrows, ii);
        let prev = batch_grid(buys, sells, buy_escrows, sell_escrows, ii);
        lemma_batch_row_frame(prev, ii as int, buys[ii as int], sells, sells.len());
        let r = batch_grid(buys, sells, buy_escrows, sell_escrows, i);
        assert forall|k: int|
            0 <= k < buy_escrows.len() && (k >= i || forall|m: int| 0 <= m < sells.len() ==> buys[k].price
                < sells[m].price) implies r.0[k] == buy_escrows[k] by {
            if k == ii {
                if sells.len() > 0 {
                    assert(r == prev);
                }
            }
        }
        if forall|k: int, m: int| 0 <= k < i && 0 <= m < sells.len() ==> buys[k].price < sells[m].price {
            assert(forall|m: int| 0 <= m < sells.len() ==> buys[ii as int].price < sells[m].price);
        }
    }
}

/// A batch match trades only between crossing orders: a buy order whose
/// limit is below every sell limit keeps its escrow untouched, as does a sell
/// order whose limit is above every buy limit, and so do escrows that back no
/// order; when no buy limit reaches any sell limit nothing trades at all.
pub proof fn lemma_batch_trades_only_crossing_orders(
    buys: Seq<EncOrder>,
    sells: Seq<EncOrder>,
    buy_escrows: Seq<EncEscrow>,
    sell_escrows: Seq<EncEscrow>,
)
    requires
        buys.len() == 0 || sells.len() == 0 || (buy_escrows.len() >= buys.len() && sell_escrows.len() >= sells.len()),
    ensures
        batch_touches_only_crossing(buys, sells, buy_escrows, sell_escrows, batch_grid(buys, sells, buy_escrows, sell_escrows, buys.len())),
{
    lemma_batch_grid_frame(buys, sells, buy_escrows, sell_escrows, buys.len());
}

/// What a batch match must leave alone: see
/// `lemma_batch_trades_only_crossing_orders`.
pub open spec fn batch_touches_only_crossing(
    buys: Seq<EncOrder>,
    sells: Seq<EncOrder>,
    buy_escrows: Seq<EncEscrow>,
    sell_escrows: Seq<EncEscrow>,
    r: BatchState,
) -> bool {
    &&& forall|k: int|
        0 <= k < buy_escrows.len() && (k >= buys.len() || forall|m: int| 0 <= m < sells.len() ==> buys[k].price
            < sells[m].price) ==> r.0[k] == buy_escrows[k]
    &&& forall|m: int|
        0 <= m < sell_escrows.len() && (m >= sells.len() || forall|k: int| 0 <= k < buys.len() ==> buys[k].price
            < sells[m].price) ==> r.1[m] == sell_escrows[m]
    &&& (forall|k: int, m: int| 0 <= k < buys.len() && 0 <= m < sells.len() ==> buys[k].price < sells[m].price)
        ==> r.2 == 0 && r.3 == 0 && r.4 == 0 && r.5 == 0
}

/// Match every buy order against every sell order in turn, buy escrow `i`
/// backing buy order `i` and sell escrow `j` backing sell order `j`.
pub fn batch_match_orders(
    buy_orders: &Vec<EncOrder>,
    sell_orders: &Vec<EncOrder>,
    buy_escrows: Vec<EncEscrow>,
    sell_escrows: Vec<EncEscrow>,
) -> (r: (BatchMatchSummary, Vec<EncEscrow>, Vec<EncEscrow>))
    requires
        buy_orders.len() == 0 || sell_orders.len() == 0 || (buy_escrows.len() >= buy_orders.len()
            && sell_escrows.len() >= sell_orders.len()),
    ensures
        ({
            let st = batch_grid(buy_orders@, sell_orders@, buy_escrows@, sell_escrows@, buy_orders.len() as nat);
            &&& r.0 == batch_summary(st)
            &&& r.1@ == st.0
            &&& r.2@ == st.1
        }),
        escrows_drained(buy_escrows@, r.1@),
        escrows_drained(sell_escrows@, r.2@),
        batch_touches_only_crossing(
            buy_orders@,
            sell_orders@,
            buy_escrows@,
            sell_escrows@,
            (r.1@, r.2@, r.0.matched_pairs, r.0.total_volume, r.0.total_fees, 0u64),
        ),
        // what the buy escrows pay is the net volume, what the sell escrows
        // lose is the fees, as long as neither side's total fits in a u64
        total_balance(buy_escrows@) <= u64::MAX ==> total_balance(buy_escrows@) - total_balance(r.1@)
            == r.0.total_volume,
        total_balance(sell_escrows@) <= u64::MAX ==> total_balance(sell_escrows@) - total_balance(r.2@)
            == r.0.total_fees,
{
    let mut be = buy_escrows;
    let mut se = sell_escrows;
    let mut matched_pairs: u64 = 0;
    let mut total_volume: u64 = 0;
    let mut total_fees: u64 = 0;
    let mut weighted_sum: u64 = 0;
    let mut bi: usize = 0;
    while bi < buy_orders.len()
        invariant
            0 <= bi <= buy_orders.len(),
            buy_orders.len() == 0 || sell_orders.len() == 0 || (be.len() >= buy_orders.len()
                && se.len() >= sell_orders.len()),
            (be@, se@, matched_pairs, total_volume, total_fees, weighted_sum) == batch_grid(
                buy_orders@,
                sell_orders@,
                buy_escrows@,
                sell_escrows@,
                bi as nat,
            ),
            escrows_drained(buy_escrows@, be@),
            escrows_drained(sell_escrows@, se@),
            total_balance(buy_escrows@) <= u64::MAX ==> total_balance(buy_escrows@) - total_balance(be@)
                == total_volume,
            total_balance(sell_escrows@) <= u64::MAX ==> total_balance(sell_escrows@) - total_balance(se@)
                == total_fees,
        decreases buy_orders.len() - bi,
    {
        let buy = buy_orders[bi];
        let ghost start: BatchState = (be@, se@, matched_pairs, total_volume, total_fees, weighted_sum);
        let mut si: usize = 0;
        while si < sell_orders.len()
            invariant
                0 <= bi < buy_orders.len(),
                0 <= si <= sell_orders.len(),
                sell_orders.len() == 0 || (be.len() >= buy_orders.len() && se.len() >= sell_orders.len()),
                buy == buy_orders@[bi as int],
                start == batch_grid(buy_orders@, sell_orders@, buy_escrows@, sell_escrows@, bi as nat),
                (be@, se@, matched_pairs, total_volume, total_fees, weighted_sum) == batch_row(
                    start,
                    bi as int,
                    buy,
                    sell_orders@,
                    si as nat,
                ),
                escrows_drained(buy_escrows@, be@),
                escrows_drained(sell_escrows@, se@),
                total_balance(buy_escrows@) <= u64::MAX ==> total_balance(buy_escrows@) - total_balance(be@)
                    == total_volume,
                total_balance(sell_escrows@) <= u64::MAX ==> total_balance(sell_escrows@) - total_balance(se@)
                    == total_fees,
            decreases sell_orders.len() - si,
        {
            let sell = sell_orders[si];
            let b_esc = be[bi];
            let s_esc = se[si];
            if b_esc.balance == 0 || s_esc.balance == 0 {
            } else if buy.price >= sell.price {
                let exec_price = sell.price;
                let exec_size = min_u64(min_u64(min_u64(buy.size, sell.size), b_esc.balance), s_esc.balance);
                let fee = fee_of(exec_size, MATCH_FEE_BPS);
                let net = sat_sub(exec_size, fee);
                let new_b = EncEscrow {
                    balance: sat_sub(b_esc.balance, net),
                    fee_reserve: sat_add(b_esc.fee_reserve, fee),
                    owner: b_esc.owner,
                    last_epoch: b_esc.last_epoch,
                };
                let new_s = EncEscrow {
                    balance: sat_add(sat_sub(s_esc.balance, exec_size), net),
                    fee_reserve: s_esc.fee_reserve,
                    owner: s_esc.owner,
                    last_epoch: s_esc.last_epoch,
                };
                proof {
                    lemma_fee_le_amount(exec_size, MATCH_FEE_BPS);
                    lemma_total_balance_bounds(be@, bi as int);
                    lemma_total_balance_bounds(se@, si as int);
                    lemma_total_balance_update(be@, bi as int, new_b);
                    lemma_total_balance_update(se@, si as int, new_s);
                }
                be.set(bi, new_b);
                se.set(si, new_s);
                matched_pairs = sat_add(matched_pairs, 1);
                total_volume = sat_add(total_volume, net);
                total_fees = sat_add(total_fees, fee);
                weighted_sum = sat_add(weighted_sum, sat_mul(exec_price, net));
            }
            si = si + 1;
        }
        bi = bi + 1;
    }
    let vwap = if total_volume > 0 {
        weighted_sum / total_volume
    } else {
        0
    };
    let summary = BatchMatchSummary { matched_pairs, total_volume, vwap, total_fees };
    proof {
        lemma_batch_trades_only_crossing_orders(buy_orders@, sell_orders@, buy_escrows@, sell_escrows@);
    }
    (summary, be, se)
}

} // verus!

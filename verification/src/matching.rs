//! The first matching circuit: orders carry their side as a byte (1 = buy),
//! the buyer's escrow alone is checked and debited, and a batch is priced at
//! the best crossing midpoint.
use vstd::prelude::*;
use crate::arith::min_spec;

verus! {

/// A limit order; `is_buy` is 1 for a buy order.
#[derive(Clone, Copy, Debug)]
pub struct Order {
    pub is_buy: u8,
    pub price: u64,
    pub size: u64,
    pub owner: [u8; 32],
}

/// An escrow balance.
#[derive(Clone, Copy, Debug)]
pub struct EscrowState {
    pub balance: u64,
    pub owner: [u8; 32],
}

/// The public part of a match; `matched` is 1 when the orders traded.
#[derive(Clone, Copy, Debug)]
pub struct MatchResult {
    pub matched: u8,
    pub execution_price: u64,
    pub execution_size: u64,
}

/// A match result together with both escrows afterwards.
#[derive(Clone, Copy, Debug)]
pub struct MatchOutput {
    pub result: MatchResult,
    pub new_escrow1: EscrowState,
    pub new_escrow2: EscrowState,
}

/// The sides differ and the prices cross, reading order 1 as the buyer when
/// its side byte is 1.
pub open spec fn is_matched_spec(o1: Order, o2: Order) -> bool {
    &&& o1.is_buy != o2.is_buy
    &&& if o1.is_buy == 1 {
        o1.price >= o2.price
    } else {
        o2.price >= o1.price
    }
}

/// What match_orders computes.
pub open spec fn match_orders_spec(o1: Order, o2: Order, e1: EscrowState, e2: EscrowState) -> MatchOutput {
    let is_matched = is_matched_spec(o1, o2);
    let execution_price: u64 = if is_matched {
        if o1.is_buy == 1 {
            o2.price
        } else {
            o1.price
        }
    } else {
        0
    };
    let execution_size: u64 = if is_matched {
        min_spec(o1.size, o2.size)
    } else {
        0
    };
    let sufficient = is_matched && if o1.is_buy == 1 {
        e1.balance >= execution_size
    } else {
        e2.balance >= execution_size
    };
    let final_matched = is_matched && sufficient;
    MatchOutput {
        result: MatchResult { matched: if final_matched { 1 } else { 0 }, execution_price, execution_size },
        new_escrow1: if final_matched && o1.is_buy == 1 {
            EscrowState { balance: (e1.balance - execution_size) as u64, owner: e1.owner }
        } else {
            e1
        },
        new_escrow2: if final_matched && o2.is_buy == 1 {
            EscrowState { balance: (e2.balance - execution_size) as u64, owner: e2.owner }
        } else {
            e2
        },
    }
}

/// Match two orders, debiting the buyer's escrow by the executed size.
pub fn match_orders(order1: Order, order2: Order, escrow1: EscrowState, escrow2: EscrowState) -> (r: MatchOutput)
    ensures
        r == match_orders_spec(order1, order2, escrow1, escrow2),
        r.new_escrow1.balance <= escrow1.balance,
        r.new_escrow2.balance <= escrow2.balance,
        r.result.matched == 0 || r.result.matched == 1,
        match_respects_limits(order1, order2, escrow1, escrow2, r),
        crossing_orders_trade(order1, order2, escrow1, escrow2, r),
{
    let o1 = order1;
    let o2 = order2;
    let e1 = escrow1;
    let e2 = escrow2;
    let opposite_sides: u8 = if o1.is_buy != o2.is_buy {
        1
    } else {
        0
    };
    let price_match: u8 = if o1.is_buy == 1 {
        if o1.price >= o2.price {
            1
        } else {
            0
        }
    } else {
        if o2.price >= o1.price {
            1
        } else {
            0
        }
    };
    let is_matched: u8 = opposite_sides * price_match;
    let execution_price: u64 = if is_matched == 1 {
        if o1.is_buy == 1 {
            o2.price
        } else {
            o1.price
        }
    } else {
        0
    };
    let execution_size: u64 = if is_matched == 1 {
        if o1.size < o2.size {
            o1.size
        } else {
            o2.size
        }
    } else {
        0
    };
    let sufficient_balance: u8 = if is_matched == 1 {
        if o1.is_buy == 1 {
            if e1.balance >= execution_size {
                1
            } else {
                0
            }
        } else {
            if e2.balance >= execution_size {
                1
            } else {
                0
            }
        }
    } else {
        0
    };
    let final_matched: u8 = is_matched * sufficient_balance;
    let new_e1 = if final_matched == 1 {
        if o1.is_buy == 1 {
            EscrowState { balance: e1.balance - execution_size, owner: e1.owner }
        } else {
            EscrowState { balance: e1.balance, owner: e1.owner }
        }
    } else {
        e1
    };
    let new_e2 = if final_matched == 1 {
        if o2.is_buy == 1 {
            EscrowState { balance: e2.balance - execution_size, owner: e2.owner }
        } else {
            EscrowState { balance: e2.balance, owner: e2.owner }
        }
    } else {
        e2
    };
    MatchOutput {
        result: MatchResult { matched: final_matched, execution_price, execution_size },
        new_escrow1: new_e1,
        new_escrow2: new_e2,
    }
}

/// With sides written as 0 or 1, matching does not depend on which order is
/// passed first: swapping the orders together with their escrows gives the
/// same result and the same escrows, swapped.
pub proof fn lemma_match_orders_symmetric(o1: Order, o2: Order, e1: EscrowState, e2: EscrowState)
    requires
        o1.is_buy <= 1,
        o2.is_buy <= 1,
    ensures
        ({
            let a = match_orders_spec(o1, o2, e1, e2);
            let b = match_orders_spec(o2, o1, e2, e1);
            &&& a.result == b.result
            &&& a.new_escrow1 == b.new_escrow2
            &&& a.new_escrow2 == b.new_escrow1
        }),
{
}

/// What any answer of match_orders must satisfy: a trade happens only
/// between a buy and a sell whose limits cross, at the seller's limit, for the
/// smaller size, debiting the buying side's escrow by that size when it covers
/// it; without a trade both escrows come back unchanged.
pub open spec fn match_respects_limits(o1: Order, o2: Order, e1: EscrowState, e2: EscrowState, r: MatchOutput) -> bool {
    let size = if o1.size <= o2.size {
        o1.size
    } else {
        o2.size
    };
    &&& r.result.matched == 0 || r.result.matched == 1
    &&& r.result.matched == 1 ==> o1.is_buy != o2.is_buy
    &&& r.result.matched == 1 && o1.is_buy == 1 ==> o1.price >= o2.price && r.result.execution_price == o2.price
        && e1.balance >= size
    &&& r.result.matched == 1 && o1.is_buy != 1 ==> o2.price >= o1.price && r.result.execution_price == o1.price
        && e2.balance >= size
    &&& r.result.matched == 1 ==> r.result.execution_size == size
    &&& r.result.matched == 1 && o1.is_buy == 1 ==> r.new_escrow1.balance == e1.balance - size
    &&& r.result.matched == 1 && o2.is_buy == 1 ==> r.new_escrow2.balance == e2.balance - size
    &&& r.result.matched == 1 && o1.is_buy != 1 ==> r.new_escrow1 == e1
    &&& r.result.matched == 1 && o2.is_buy != 1 ==> r.new_escrow2 == e2
    &&& r.new_escrow1.owner == e1.owner
    &&& r.new_escrow2.owner == e2.owner
    &&& r.result.matched == 0 ==> r.new_escrow1 == e1 && r.new_escrow2 == e2
}

/// A buy order (side 1) and a sell order (side 0) whose limits cross trade
/// whenever the buyer's escrow covers the smaller size, in either argument
/// order.
pub open spec fn crossing_orders_trade(o1: Order, o2: Order, e1: EscrowState, e2: EscrowState, r: MatchOutput) -> bool {
    let size = if o1.size <= o2.size {
        o1.size
    } else {
        o2.size
    };
    &&& o1.is_buy == 1 && o2.is_buy == 0 && o1.price >= o2.price && e1.balance >= size ==> r.result.matched == 1
    &&& o1.is_buy == 0 && o2.is_buy == 1 && o2.price >= o1.price && e2.balance >= size ==> r.result.matched == 1
}

/// A match never trades through a limit: orders trade only when one buys, the
/// other sells and the buy limit reaches the sell limit; they then trade the
/// smaller size at the seller's price, the buyer's escrow pays exactly that
/// size, and nothing else changes. Crossing orders whose buyer can pay always
/// trade.
pub proof fn lemma_match_respects_limits(o1: Order, o2: Order, e1: EscrowState, e2: EscrowState)
    ensures
        match_respects_limits(o1, o2, e1, e2, match_orders_spec(o1, o2, e1, e2)),
        crossing_orders_trade(o1, o2, e1, e2, match_orders_spec(o1, o2, e1, e2)),
{
}

/// The order's price and size lie within the bounds and its owner key is not
/// all zero.
pub open spec fn order_valid_spec(o: Order, min_price: u64, max_price: u64, min_size: u64, max_size: u64) -> bool {
    &&& min_price <= o.price <= max_price
    &&& min_size <= o.size <= max_size
    &&& !crate::keys::all_zero(o.owner@)
}

/// An accepted order lies within every bound and has an owner, and nothing
/// else is accepted.
pub proof fn lemma_valid_orders_within_bounds(o: Order, min_price: u64, max_price: u64, min_size: u64, max_size: u64)
    ensures
        order_valid_spec(o, min_price, max_price, min_size, max_size) <==> min_price <= o.price && o.price
            <= max_price && min_size <= o.size && o.size <= max_size && exists|i: int| 0 <= i < 32 && o.owner[i] != 0,
{
}

/// Evaluate and validate order parameters: 1 when valid, else 0.
pub fn validate_order(order: Order, min_price: u64, max_price: u64, min_size: u64, max_size: u64) -> (r: u8)
    ensures
        r == (if order_valid_spec(order, min_price, max_price, min_size, max_size) { 1u8 } else { 0u8 }),
        r == 1 <==> min_price <= order.price && order.price <= max_price && min_size <= order.size && order.size
            <= max_size && exists|i: int| 0 <= i < 32 && order.owner[i] != 0,
        r == 0 || r == 1,
{
    let o = order;
    let valid_price: u8 = if o.price >= min_price && o.price <= max_price {
        1
    } else {
        0
    };
    let valid_size: u8 = if o.size >= min_size && o.size <= max_size {
        1
    } else {
        0
    };
    let valid_owner: u8 = if !crate::keys::is_zero_key(&o.owner) {
        1
    } else {
        0
    };
    valid_price * valid_size * valid_owner
}

/// Both orders are live (non-zero size) and the buy limit reaches the sell
/// limit.
pub open spec fn active_cross(b: Order, s: Order) -> bool {
    b.size > 0 && s.size > 0 && b.price >= s.price
}

/// The midpoint of two crossing prices.
pub open spec fn mid_spec(b: Order, s: Order) -> int {
    (b.price + s.price) / 2
}

/// The midpoint of a crossing pair lies between the sell and the buy limit,
/// and is half their sum rounded down.
pub proof fn lemma_midpoint_between_limits(b: Order, s: Order)
    ensures
        2 * mid_spec(b, s) <= b.price + s.price <= 2 * mid_spec(b, s) + 1,
        s.price <= b.price ==> s.price <= mid_spec(b, s) <= b.price,
{
}

/// The best execution price is zero or the midpoint of some active crossing
/// pair, and no active crossing pair has a higher midpoint.
pub open spec fn best_midpoint(buys: Seq<Order>, sells: Seq<Order>, best: u64) -> bool {
    &&& forall|i: int, j: int|
        0 <= i < buys.len() && 0 <= j < sells.len() && active_cross(buys[i], sells[j]) ==> mid_spec(
            buys[i],
            sells[j],
        ) <= best
    &&& best == 0 || exists|i: int, j: int|
        0 <= i < buys.len() && 0 <= j < sells.len() && active_cross(buys[i], sells[j]) && mid_spec(
            buys[i],
            sells[j],
        ) == best
}

/// The highest midpoint over all active crossing pairs of a fixed batch of
/// five buy and five sell orders, or zero.
pub fn calculate_execution_price(buy_orders: &[Order; 5], sell_orders: &[Order; 5]) -> (r: u64)
    requires
        forall|i: int, j: int|
            0 <= i < 5 && 0 <= j < 5 && active_cross(buy_orders@[i], sell_orders@[j]) ==> buy_orders@[i].price
                + sell_orders@[j].price <= u64::MAX,
    ensures
        best_midpoint(buy_orders@, sell_orders@, r),
{
    let buys = buy_orders;
    let sells = sell_orders;
    let mut best_price = 0u64;
    let mut i: usize = 0;
    while i < 5
        invariant
            0 <= i <= 5,
            buys@.len() == 5,
            sells@.len() == 5,
            forall|a: int, b: int|
                0 <= a < 5 && 0 <= b < 5 && active_cross(buys@[a], sells@[b]) ==> buys@[a].price + sells@[b].price
                    <= u64::MAX,
            forall|a: int, b: int|
                0 <= a < i && 0 <= b < 5 && active_cross(buys@[a], sells@[b]) ==> mid_spec(buys@[a], sells@[b])
                    <= best_price,
            best_price == 0 || exists|a: int, b: int|
                0 <= a < 5 && 0 <= b < 5 && active_cross(buys@[a], sells@[b]) && mid_spec(buys@[a], sells@[b])
                    == best_price,
        decreases 5 - i,
    {
        let mut j: usize = 0;
        while j < 5
            invariant
                0 <= i < 5,
                0 <= j <= 5,
                buys@.len() == 5,
                sells@.len() == 5,
                forall|a: int, b: int|
                    0 <= a < 5 && 0 <= b < 5 && active_cross(buys@[a], sells@[b]) ==> buys@[a].price
                        + sells@[b].price <= u64::MAX,
                forall|a: int, b: int|
                    ((0 <= a < i && 0 <= b < 5) || (a == i && 0 <= b < j)) && active_cross(buys@[a], sells@[b])
                        ==> mid_spec(buys@[a], sells@[b]) <= best_price,
                best_price == 0 || exists|a: int, b: int|
                    0 <= a < 5 && 0 <= b < 5 && active_cross(buys@[a], sells@[b]) && mid_spec(buys@[a], sells@[b])
                        == best_price,
            decreases 5 - j,
        {
            let buy_order = &buys[i];
            let sell_order = &sells[j];
            if buy_order.size > 0 && sell_order.size > 0 {
                if buy_order.price >= sell_order.price {
                    assert(active_cross(buys@[i as int], sells@[j as int]));
                    let mid_price = (buy_order.price + sell_order.price) / 2;
                    if mid_price > best_price {
                        best_price = mid_price;
                    }
                }
            }
            j = j + 1;
        }
        i = i + 1;
    }
    best_price
}

} // verus!

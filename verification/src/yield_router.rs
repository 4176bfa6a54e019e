//! Off-chain helpers for the yield router: choosing a protocol above a minimum
//! APY, blending APYs by weight, and splitting an allocation by risk.
use vstd::prelude::*;
use crate::state::Protocol;

verus! {

/// The current APY of each protocol, in basis points.
#[derive(Debug, Clone)]
pub struct ProtocolApy {
    pub raydium: u64,
    pub drift: u64,
    pub solend: u64,
    pub dark_pool: u64,
}

/// The protocol at position `i` of the APY table.
pub open spec fn protocol_at(i: int) -> Protocol {
    if i == 0 {
        Protocol::Raydium
    } else if i == 1 {
        Protocol::Drift
    } else if i == 2 {
        Protocol::Solend
    } else {
        Protocol::DarkPool
    }
}

impl ProtocolApy {
    /// The APYs in protocol order.
    pub open spec fn apys(self) -> Seq<u64> {
        seq![self.raydium, self.drift, self.solend, self.dark_pool]
    }

    /// The protocol with the highest APY that reaches `min_apy_bps`, the last
    /// one among equals, with its APY; `None` when no protocol reaches it.
    pub fn best_above(&self, min_apy_bps: u64) -> (r: Option<(Protocol, u64)>)
        ensures
            r == best_above_scan(self.apys(), min_apy_bps, 4),
            r is None <==> forall|i: int| 0 <= i < 4 ==> self.apys()[i] < min_apy_bps,
            r matches Some(best) ==> {
                &&& best.1 >= min_apy_bps
                &&& forall|i: int| 0 <= i < 4 && self.apys()[i] >= min_apy_bps ==> self.apys()[i] <= best.1
                &&& exists|k: int|
                    0 <= k < 4 && protocol_at(k) == best.0 && self.apys()[k] == best.1 && forall|j: int|
                        k < j < 4 ==> self.apys()[j] < best.1
            },
    {
        let candidates: [(Protocol, u64); 4] = [
            (Protocol::Raydium, self.raydium),
            (Protocol::Drift, self.drift),
            (Protocol::Solend, self.solend),
            (Protocol::DarkPool, self.dark_pool),
        ];
        let ghost apys = self.apys();
        let mut best: Option<(Protocol, u64)> = None;
        let mut i: usize = 0;
        while i < 4
            invariant
                0 <= i <= 4,
                apys == self.apys(),
                candidates@.len() == 4,
                forall|k: int| 0 <= k < 4 ==> #[trigger] candidates@[k] == (protocol_at(k), apys[k]),
                best == best_above_scan(apys, min_apy_bps, i as nat),
            decreases 4 - i,
        {
            let (p, a) = candidates[i];
            let take = a >= min_apy_bps && match best {
                None => true,
                Some(b) => a >= b.1,
            };
            if take {
                best = Some((p, a));
            }
            i = i + 1;
        }
        proof {
            lemma_best_above_scan(apys, min_apy_bps, 4);
        }
        best
    }

    /// The APYs averaged with the given weights, or zero when every weight is
    /// zero.
    pub fn blended(&self, weights: [u64; 4]) -> (r: u64)
        requires
            weights@[0] + weights@[1] + weights@[2] + weights@[3] <= u64::MAX,
            weighted_sum(self.apys(), weights@) <= u64::MAX,
        ensures
            r == blended_spec(self.apys(), weights@),
    {
        let total: u64 = weights[0] + weights[1] + weights[2] + weights[3];
        if total == 0 {
            return 0;
        }
        proof {
            lemma_weighted_terms(self.apys(), weights@);
        }
        let sum = self.raydium * weights[0] + self.drift * weights[1] + self.solend * weights[2] + self.dark_pool
            * weights[3];
        sum / total
    }
}

/// The result of scanning the first `k` protocols for the best APY reaching
/// `min_apy`, a later protocol replacing an equal one.
pub open spec fn best_above_scan(apys: Seq<u64>, min_apy: u64, k: nat) -> Option<(Protocol, u64)>
    decreases k,
{
    if k == 0 {
        None
    } else {
        let prev = best_above_scan(apys, min_apy, (k - 1) as nat);
        let x = apys[k - 1];
        let take = x >= min_apy && match prev {
            None => true,
            Some(b) => x >= b.1,
        };
        if take {
            Some((protocol_at(k - 1), x))
        } else {
            prev
        }
    }
}

/// What the scan keeps: nothing exactly when no scanned APY reaches the
/// minimum, else the highest such APY at its last position.
pub proof fn lemma_best_above_scan(apys: Seq<u64>, min_apy: u64, k: nat)
    requires
        k <= apys.len(),
    ensures
        best_above_scan(apys, min_apy, k) is None <==> forall|i: int| 0 <= i < k ==> apys[i] < min_apy,
        best_above_scan(apys, min_apy, k) matches Some(best) ==> {
            &&& best.1 >= min_apy
            &&& forall|i: int| 0 <= i < k && apys[i] >= min_apy ==> apys[i] <= best.1
            &&& exists|m: int|
                0 <= m < k && protocol_at(m) == best.0 && apys[m] == best.1 && forall|j: int| m < j < k ==> apys[j] < best.1
        },
    decreases k,
{
    if k > 0 {
        lemma_best_above_scan(apys, min_apy, (k - 1) as nat);
        let prev = best_above_scan(apys, min_apy, (k - 1) as nat);
        let x = apys[k - 1];
        let r = best_above_scan(apys, min_apy, k);
        let take = x >= min_apy && match prev {
            None => true,
            Some(b) => x >= b.1,
        };
        if let Some(best) = r {
            if !take {
                let m = choose|m: int|
                    0 <= m < k - 1 && protocol_at(m) == best.0 && apys[m] == best.1 && forall|j: int|
                        m < j < k - 1 ==> apys[j] < best.1;
                assert(forall|j: int| m < j < k ==> apys[j] < best.1);
            } else {
                assert(protocol_at(k - 1) == best.0 && apys[k - 1] == best.1);
            }
        }
    }
}

/// Sum of each APY times its weight.
pub open spec fn weighted_sum(apys: Seq<u64>, weights: Seq<u64>) -> int {
    apys[0] * weights[0] + apys[1] * weights[1] + apys[2] * weights[2] + apys[3] * weights[3]
}

/// The weighted average, or zero when the weights sum to zero.
pub open spec fn blended_spec(apys: Seq<u64>, weights: Seq<u64>) -> int {
    let total = weights[0] + weights[1] + weights[2] + weights[3];
    if total == 0 {
        0
    } else {
        weighted_sum(apys, weights) / total
    }
}

/// Every term of the weighted sum is non-negative.
proof fn lemma_weighted_terms(apys: Seq<u64>, weights: Seq<u64>)
    requires
        apys.len() == 4,
        weights.len() == 4,
    ensures
        apys[0] * weights[0] >= 0,
        apys[1] * weights[1] >= 0,
        apys[2] * weights[2] >= 0,
        apys[3] * weights[3] >= 0,
{
    let (a0, a1, a2, a3) = (apys[0], apys[1], apys[2], apys[3]);
    let (w0, w1, w2, w3) = (weights[0], weights[1], weights[2], weights[3]);
    assert(a0 * w0 >= 0 && a1 * w1 >= 0 && a2 * w2 >= 0 && a3 * w3 >= 0) by (nonlinear_arith)
        requires
            a0 >= 0,
            a1 >= 0,
            a2 >= 0,
            a3 >= 0,
            w0 >= 0,
            w1 >= 0,
            w2 >= 0,
            w3 >= 0,
    ;
}

/// Blending equal APYs with any non-zero weights gives that APY back.
pub proof fn lemma_blended_uniform(apy: u64, weights: Seq<u64>)
    requires
        weights.len() == 4,
        weights[0] + weights[1] + weights[2] + weights[3] > 0,
    ensures
        blended_spec(seq![apy, apy, apy, apy], weights) == apy,
{
    let t = weights[0] + weights[1] + weights[2] + weights[3];
    let s = seq![apy, apy, apy, apy];
    assert(weighted_sum(s, weights) == apy * t) by (nonlinear_arith)
        requires
            weighted_sum(s, weights) == apy * weights[0] + apy * weights[1] + apy * weights[2] + apy * weights[3],
            t == weights[0] + weights[1] + weights[2] + weights[3],
    ;
    assert((apy * t) / t == apy) by (nonlinear_arith)
        requires
            t > 0,
    ;
}

/// A blend never exceeds the highest APY blended.
pub proof fn lemma_blended_at_most_max(apys: Seq<u64>, weights: Seq<u64>, top: u64)
    requires
        apys.len() == 4,
        weights.len() == 4,
        forall|i: int| 0 <= i < 4 ==> apys[i] <= top,
    ensures
        blended_spec(apys, weights) <= top,
{
    let t = weights[0] + weights[1] + weights[2] + weights[3];
    if t > 0 {
        let (a0, a1, a2, a3) = (apys[0], apys[1], apys[2], apys[3]);
        let (w0, w1, w2, w3) = (weights[0], weights[1], weights[2], weights[3]);
        assert(a0 * w0 + a1 * w1 + a2 * w2 + a3 * w3 <= top * t) by (nonlinear_arith)
            requires
                a0 <= top,
                a1 <= top,
                a2 <= top,
                a3 <= top,
                w0 >= 0,
                w1 >= 0,
                w2 >= 0,
                w3 >= 0,
                t == w0 + w1 + w2 + w3,
        ;
        let ws = weighted_sum(apys, weights);
        assert(ws >= 0) by {
            lemma_weighted_terms(apys, weights);
        }
        assert(ws / t <= top) by (nonlinear_arith)
            requires
                ws <= top * t,
                ws >= 0,
                t > 0,
        ;
    }
}


/// The risk score of each protocol, in basis points: a protocol takes part
/// in an allocation only when its score is within the risk tolerance.
pub open spec fn risk_score(i: int) -> u64 {
    if i == 0 {
        5_000
    } else if i == 1 {
        7_500
    } else if i == 2 {
        2_500
    } else {
        9_000
    }
}

/// The weight of protocol `i` before normalisation: its APY when its risk is
/// tolerated, else zero.
pub open spec fn raw_weight(apy: ProtocolApy, risk_tolerance_bps: u64, i: int) -> u64 {
    if risk_score(i) <= risk_tolerance_bps {
        apy.apys()[i]
    } else {
        0
    }
}

/// The sum of the raw weights.
pub open spec fn raw_total(apy: ProtocolApy, risk_tolerance_bps: u64) -> int {
    raw_weight(apy, risk_tolerance_bps, 0) + raw_weight(apy, risk_tolerance_bps, 1) + raw_weight(apy, risk_tolerance_bps, 2)
        + raw_weight(apy, risk_tolerance_bps, 3)
}

/// Protocol `i`'s raw weight scaled to basis points of the total, rounded down.
pub open spec fn scaled_weight(apy: ProtocolApy, risk_tolerance_bps: u64, i: int) -> u64 {
    (raw_weight(apy, risk_tolerance_bps, i) * 10_000 / raw_total(apy, risk_tolerance_bps)) as u64
}

/// The index of the largest of the first `k` entries, the last one among
/// equals.
pub open spec fn last_max_index(s: Seq<u64>, k: nat) -> int
    decreases k,
{
    if k <= 1 {
        0
    } else {
        let prev = last_max_index(s, (k - 1) as nat);
        if s[k - 1] >= s[prev] {
            k - 1
        } else {
            prev
        }
    }
}

/// The sum of a four-entry allocation.
pub open spec fn sum4(s: Seq<u64>) -> int {
    s[0] + s[1] + s[2] + s[3]
}

/// What optimal_allocation returns: with no tolerated APY at all, everything
/// to Solend; else each tolerated protocol's APY as a share of 10 000 basis
/// points, rounded down, with what rounding left over given to the largest
/// share.
pub open spec fn allocation_spec(apy: ProtocolApy, risk_tolerance_bps: u64) -> Seq<u64> {
    if raw_total(apy, risk_tolerance_bps) == 0 {
        seq![0, 0, 10_000, 0]
    } else {
        let scaled = seq![
            scaled_weight(apy, risk_tolerance_bps, 0),
            scaled_weight(apy, risk_tolerance_bps, 1),
            scaled_weight(apy, risk_tolerance_bps, 2),
            scaled_weight(apy, risk_tolerance_bps, 3),
        ];
        let idx = last_max_index(scaled, 4);
        scaled.update(idx, (scaled[idx] + (10_000 - sum4(scaled))) as u64)
    }
}

/// Rounding each share down never hands out more than the whole.
proof fn lemma_scaled_sum(r0: int, r1: int, r2: int, r3: int)
    requires
        r0 >= 0,
        r1 >= 0,
        r2 >= 0,
        r3 >= 0,
        r0 + r1 + r2 + r3 > 0,
    ensures
        ({
            let t = r0 + r1 + r2 + r3;
            r0 * 10_000 / t + r1 * 10_000 / t + r2 * 10_000 / t + r3 * 10_000 / t <= 10_000
        }),
{
    let t = r0 + r1 + r2 + r3;
    let (q0, q1, q2, q3) = (r0 * 10_000 / t, r1 * 10_000 / t, r2 * 10_000 / t, r3 * 10_000 / t);
    vstd::arithmetic::div_mod::lemma_fundamental_div_mod(r0 * 10_000, t);
    vstd::arithmetic::div_mod::lemma_fundamental_div_mod(r1 * 10_000, t);
    vstd::arithmetic::div_mod::lemma_fundamental_div_mod(r2 * 10_000, t);
    vstd::arithmetic::div_mod::lemma_fundamental_div_mod(r3 * 10_000, t);
    vstd::arithmetic::div_mod::lemma_mod_pos_bound(r0 * 10_000, t);
    vstd::arithmetic::div_mod::lemma_mod_pos_bound(r1 * 10_000, t);
    vstd::arithmetic::div_mod::lemma_mod_pos_bound(r2 * 10_000, t);
    vstd::arithmetic::div_mod::lemma_mod_pos_bound(r3 * 10_000, t);
    assert(t * (q0 + q1 + q2 + q3) <= t * 10_000) by (nonlinear_arith)
        requires
            t * q0 <= r0 * 10_000,
            t * q1 <= r1 * 10_000,
            t * q2 <= r2 * 10_000,
            t * q3 <= r3 * 10_000,
            t == r0 + r1 + r2 + r3,
    ;
    assert(q0 + q1 + q2 + q3 <= 10_000) by (nonlinear_arith)
        requires
            t * (q0 + q1 + q2 + q3) <= t * 10_000,
            t > 0,
    ;
}

/// Split 10 000 basis points across the protocols whose risk is within the
/// tolerance, in proportion to their APYs.
pub fn optimal_allocation(apy: &ProtocolApy, risk_tolerance_bps: u64) -> (r: [u64; 4])
    requires
        raw_total(*apy, risk_tolerance_bps) <= u64::MAX,
        forall|i: int| 0 <= i < 4 ==> raw_weight(*apy, risk_tolerance_bps, i) * 10_000 <= u64::MAX,
    ensures
        r@ == allocation_spec(*apy, risk_tolerance_bps),
        sum4(r@) == 10_000,
{
    let protocol_risk: [u64; 4] = [5_000, 7_500, 2_500, 9_000];
    let mut weights: [u64; 4] = [0u64, 0u64, 0u64, 0u64];
    let apys: [u64; 4] = [apy.raydium, apy.drift, apy.solend, apy.dark_pool];
    let ghost a = *apy;
    let mut i: usize = 0;
    while i < 4
        invariant
            0 <= i <= 4,
            a == *apy,
            weights@.len() == 4,
            apys@ == a.apys(),
            forall|k: int| 0 <= k < 4 ==> protocol_risk@[k] == #[trigger] risk_score(k),
            forall|k: int| 0 <= k < i ==> weights@[k] == raw_weight(a, risk_tolerance_bps, k),
            forall|k: int| i <= k < 4 ==> weights@[k] == 0,
        decreases 4 - i,
    {
        if protocol_risk[i] <= risk_tolerance_bps {
            weights[i] = apys[i];
        }
        i = i + 1;
    }
    assert(weights@[0] + weights@[1] + weights@[2] + weights@[3] == raw_total(a, risk_tolerance_bps));
    let total: u64 = weights[0] + weights[1] + weights[2] + weights[3];
    if total == 0 {
        let fallback: [u64; 4] = [0, 0, 10_000, 0];
        assert(fallback@ =~= allocation_spec(a, risk_tolerance_bps));
        return fallback;
    }
    let mut j: usize = 0;
    while j < 4
        invariant
            0 <= j <= 4,
            a == *apy,
            weights@.len() == 4,
            total == raw_total(a, risk_tolerance_bps),
            total > 0,
            forall|k: int| 0 <= k < 4 ==> raw_weight(a, risk_tolerance_bps, k) * 10_000 <= u64::MAX,
            forall|k: int| 0 <= k < j ==> weights@[k] == scaled_weight(a, risk_tolerance_bps, k),
            forall|k: int| j <= k < 4 ==> weights@[k] == raw_weight(a, risk_tolerance_bps, k),
        decreases 4 - j,
    {
        let w = weights[j];
        weights[j] = (w * 10_000) / total;
        j = j + 1;
    }
    let ghost scaled = seq![
        scaled_weight(a, risk_tolerance_bps, 0),
        scaled_weight(a, risk_tolerance_bps, 1),
        scaled_weight(a, risk_tolerance_bps, 2),
        scaled_weight(a, risk_tolerance_bps, 3),
    ];
    assert(weights@ =~= scaled);
    proof {
        lemma_scaled_sum(
            raw_weight(a, risk_tolerance_bps, 0) as int,
            raw_weight(a, risk_tolerance_bps, 1) as int,
            raw_weight(a, risk_tolerance_bps, 2) as int,
            raw_weight(a, risk_tolerance_bps, 3) as int,
        );
    }
    let sum: u64 = weights[0] + weights[1] + weights[2] + weights[3];
    let remainder = 10_000u64.saturating_sub(sum);
    let mut max_idx: usize = 0;
    let mut m: usize = 1;
    while m < 4
        invariant
            1 <= m <= 4,
            weights@ == scaled,
            max_idx < 4,
            max_idx as int == last_max_index(scaled, m as nat),
        decreases 4 - m,
    {
        if weights[m] >= weights[max_idx] {
            max_idx = m;
        }
        m = m + 1;
    }
    let top = weights[max_idx];
    weights[max_idx] = top + remainder;
    assert(weights@ =~= allocation_spec(a, risk_tolerance_bps));
    weights
}

} // verus!

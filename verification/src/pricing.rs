use vstd::prelude::*;
use vstd::arithmetic::div_mod::{
    lemma_div_is_ordered, lemma_div_nonincreasing, lemma_div_pos_is_pos,
    lemma_fundamental_div_mod, lemma_fundamental_div_mod_converse,
    lemma_hoist_over_denominator, lemma_mod_bound,
};
use vstd::arithmetic::mul::lemma_mul_inequality;
use crate::errors::AmmError;
use crate::model::{Side, MAX_B_FP, MAX_PRICING_Q_FP, MIN_B_FP};
use crate::tables::{
    lemma_sigmoid_entry_props, lemma_softplus_entry_props, sigmoid_entry, sigmoid_entry_at,
    softplus_entry, softplus_entry_at, SIGMOID_LAST, SOFTPLUS_HALF, SOFTPLUS_LAST,
    SOFTPLUS_SCALE, SOFTPLUS_STEP_MAX,
};

verus! {

// The LMSR cost of the aggregate state (q_hit, q_miss) with liquidity b is
//
//     C = b * ln(e^(q_hit / b) + e^(q_miss / b))
//       = max(q_hit, q_miss) + b * ln(1 + e^(-|q_hit - q_miss| / b)),
//
// the second form being the numerically stable one: the softplus argument
// is never positive, so nothing can blow up however lopsided the book is.
// This module evaluates that second form in pure fixed-point integer
// arithmetic, interpolating the softplus (and, for prices, the logistic)
// linearly between the quarter-step samples of `crate::tables`. Everything
// a caller relies on is proved: the result is a function of the inputs,
// it never moves by more than one fixed-point unit per unit of quantity
// (the real curve's slope is a price, which is below one), and it never
// decreases when a side quantity grows.

/// The liquidity parameter is inside its validated range.
pub open spec fn valid_b_fp(b: int) -> bool {
    MIN_B_FP <= b <= MAX_B_FP
}

/// A quantity the pricing functions accept.
pub open spec fn in_pricing_range(q: int) -> bool {
    0 <= q <= MAX_PRICING_Q_FP
}

/// Numerator of the interpolated softplus value at `u = d / b`, scaled by
/// `b * SOFTPLUS_SCALE`, with half the divisor added so the division below
/// rounds to nearest. Writing the interpolation as a single fraction keeps
/// every rounding step in one place.
pub open spec fn softplus_num(b: int, d: int) -> int {
    let i = (4 * d) / b;
    let r = (4 * d) % b;
    if i >= SOFTPLUS_LAST as int {
        SOFTPLUS_HALF as int
    } else {
        b * softplus_entry(i) - (softplus_entry(i) - softplus_entry(i + 1)) * r
            + SOFTPLUS_HALF as int
    }
}

/// `b * ln(1 + e^(-d / b))` in fixed point, rounded to nearest.
pub open spec fn softplus_term(b: int, d: int) -> int {
    softplus_num(b, d) / (SOFTPLUS_SCALE as int)
}

/// The LMSR cost of an aggregate state, in fixed-point currency units.
pub open spec fn spec_cost(b: int, qh: int, qm: int) -> int {
    if qh >= qm {
        qh + softplus_term(b, qh - qm)
    } else {
        qm + softplus_term(b, qm - qh)
    }
}

/// The quantity on the chosen side.
pub open spec fn side_quantity(qh: int, qm: int, side: Side) -> int {
    match side {
        Side::Hit => qh,
        Side::Miss => qm,
    }
}

/// Cost of moving the chosen side by `dq` (negative for sells): the cost
/// of the new state minus the cost of the old one.
pub open spec fn spec_delta_cost(b: int, qh: int, qm: int, side: Side, dq: int) -> int {
    match side {
        Side::Hit => spec_cost(b, qh + dq, qm) - spec_cost(b, qh, qm),
        Side::Miss => spec_cost(b, qh, qm + dq) - spec_cost(b, qh, qm),
    }
}

/// The softplus numerator sits between its half-unit rounding offset and
/// `b` times the value at zero, so the term itself sits in `[0, b]`.
proof fn lemma_softplus_num_bounds(b: int, d: int)
    requires
        valid_b_fp(b),
        0 <= d,
    ensures
        SOFTPLUS_HALF as int <= softplus_num(b, d) <= b * 693_147_180_560 + SOFTPLUS_HALF as int,
        0 <= softplus_term(b, d) <= b,
{
    lemma_softplus_entry_props();
    let s = 4 * d;
    let i = s / b;
    let r = s % b;
    lemma_fundamental_div_mod(s, b);
    lemma_mod_bound(s, b);
    lemma_div_pos_is_pos(s, b);
    if i < SOFTPLUS_LAST as int {
        let hi = softplus_entry(i);
        let hn = softplus_entry(i + 1);
        assert(0 <= hn <= hi <= 693_147_180_560);
        assert((hi - hn) * r <= (hi - hn) * b) by {
            lemma_mul_inequality(r, b, hi - hn);
            lemma_mul_is_commutative_auto(hi - hn, r, b);
        }
        assert(b * hn <= b * hi <= b * 693_147_180_560) by (nonlinear_arith)
            requires
                0 <= hn <= hi <= 693_147_180_560,
                0 < b,
        ;
        assert((hi - hn) * b == b * hi - b * hn) by (nonlinear_arith);
        assert(0 <= (hi - hn) * r) by (nonlinear_arith)
            requires
                0 <= hi - hn,
                0 <= r,
        ;
    }
    // now the term bounds
    let n = softplus_num(b, d);
    assert(0 <= softplus_term(b, d)) by {
        lemma_div_pos_is_pos(n, SOFTPLUS_SCALE as int);
    }
    assert(n <= b * (SOFTPLUS_SCALE as int)) by (nonlinear_arith)
        requires
            n <= b * 693_147_180_560 + SOFTPLUS_HALF as int,
            MIN_B_FP <= b,
    ;
    assert(softplus_term(b, d) <= b) by {
        lemma_div_is_ordered(n, b * (SOFTPLUS_SCALE as int), SOFTPLUS_SCALE as int);
        lemma_div_by_multiple_local(b, SOFTPLUS_SCALE as int);
    }
}

/// `(x * d) / d == x` for a positive divisor.
proof fn lemma_div_by_multiple_local(x: int, d: int)
    requires
        0 < d,
    ensures
        (x * d) / d == x,
{
    lemma_fundamental_div_mod_converse(x * d, d, x, 0);
}

/// Commutativity of `x` with each of two factors, in one call.
proof fn lemma_mul_is_commutative_auto(x: int, y: int, z: int)
    ensures
        x * y == y * x,
        x * z == z * x,
{
    vstd::arithmetic::mul::lemma_mul_is_commutative(x, y);
    vstd::arithmetic::mul::lemma_mul_is_commutative(x, z);
}

/// Moving one fixed-point unit outwards lowers the softplus numerator, and
/// by at most four sample steps (one interpolation step per quarter unit).
proof fn lemma_softplus_num_step(b: int, d: int)
    requires
        valid_b_fp(b),
        0 <= d,
    ensures
        0 <= softplus_num(b, d) - softplus_num(b, d + 1) <= 4 * SOFTPLUS_STEP_MAX as int,
{
    lemma_softplus_entry_props();
    let s = 4 * d;
    let s2 = 4 * d + 4;
    let i = s / b;
    let r = s % b;
    lemma_fundamental_div_mod(s, b);
    lemma_mod_bound(s, b);
    lemma_div_pos_is_pos(s, b);
    let last = SOFTPLUS_LAST as int;
    let step = SOFTPLUS_STEP_MAX as int;
    let half = SOFTPLUS_HALF as int;
    if r + 4 < b {
        // same segment: the remainder advances by four
        lemma_fundamental_div_mod_converse(s2, b, i, r + 4);
        assert(s2 / b == i && s2 % b == r + 4);
        if i < last {
            let hi = softplus_entry(i);
            let hn = softplus_entry(i + 1);
            assert(0 <= hi - hn <= step);
            let e = hi - hn;
            assert(softplus_num(b, d) == b * hi - e * r + half);
            assert(softplus_num(b, d + 1) == b * hi - e * (r + 4) + half);
            assert(e * (r + 4) == e * r + e * 4) by (nonlinear_arith);
            assert(0 <= e * 4 <= 4 * step) by (nonlinear_arith)
                requires
                    0 <= e <= step,
            ;
        }
    } else {
        // the remainder wraps: we land at the start of the next segment
        assert((i + 1) * b == i * b + b) by (nonlinear_arith);
        lemma_fundamental_div_mod_converse(s2, b, i + 1, r + 4 - b);
        assert(s2 / b == i + 1 && s2 % b == r + 4 - b);
        let u = b - r;
        let v = r + 4 - b;
        assert(1 <= u <= 4 && 0 <= v <= 3 && u + v == 4);
        if i < last {
            let hi = softplus_entry(i);
            let hn = softplus_entry(i + 1);
            assert(0 <= hi - hn <= step);
            let e = hi - hn;
            assert(softplus_num(b, d) == b * hi - e * r + half);
            if i + 1 == last {
                // the next segment is the flat zero tail
                assert(softplus_entry(last) == 0);
                assert(hn == 0);
                assert(softplus_num(b, d + 1) == half);
                assert(b * hi - e * r == hi * u) by (nonlinear_arith)
                    requires
                        e == hi,
                        u == b - r,
                ;
                assert(0 <= hi * u <= 4 * step) by (nonlinear_arith)
                    requires
                        0 <= hi <= step,
                        1 <= u <= 4,
                ;
            } else {
                let hn2 = softplus_entry(i + 2);
                assert(0 <= hn - hn2 <= step);
                let e2 = hn - hn2;
                assert(softplus_num(b, d + 1) == b * hn - e2 * v + half);
                assert((b * hi - e * r + half) - (b * hn - e2 * v + half) == e * u + e2 * v)
                    by (nonlinear_arith)
                    requires
                        e == hi - hn,
                        u == b - r,
                        v == r + 4 - b,
                ;
                assert(0 <= e * u + e2 * v <= 4 * step) by (nonlinear_arith)
                    requires
                        0 <= e <= step,
                        0 <= e2 <= step,
                        1 <= u <= 4,
                        0 <= v <= 3,
                        u + v == 4,
                ;
            }
        }
    }
}

/// The rounded softplus term falls by at most one fixed-point unit per
/// unit of distance: four sample steps never exceed one scale.
proof fn lemma_softplus_term_step(b: int, d: int)
    requires
        valid_b_fp(b),
        0 <= d,
    ensures
        0 <= softplus_term(b, d) - softplus_term(b, d + 1) <= 1,
{
    lemma_softplus_num_step(b, d);
    let n1 = softplus_num(b, d);
    let n2 = softplus_num(b, d + 1);
    let sc = SOFTPLUS_SCALE as int;
    lemma_div_is_ordered(n2, n1, sc);
    lemma_div_is_ordered(n1, n2 + sc, sc);
    assert((n2 + 1 * sc) / sc == n2 / sc + 1) by {
        lemma_hoist_over_denominator(n2, 1, SOFTPLUS_SCALE as nat);
    }
}

/// One unit more on the hit side raises the cost by zero or one units:
/// the marginal price of a share never exceeds one.
proof fn lemma_cost_step(b: int, qh: int, qm: int)
    requires
        valid_b_fp(b),
        0 <= qh,
        0 <= qm,
    ensures
        0 <= spec_cost(b, qh + 1, qm) - spec_cost(b, qh, qm) <= 1,
{
    if qh >= qm {
        lemma_softplus_term_step(b, qh - qm);
    } else {
        lemma_softplus_term_step(b, qm - qh - 1);
    }
}

/// Growing the hit side from `qh1` to `qh2` raises the cost, and by no
/// more than the quantity added (proved one unit at a time).
pub proof fn lemma_cost_mono_hit(b: int, qh1: int, qh2: int, qm: int)
    requires
        valid_b_fp(b),
        0 <= qh1 <= qh2,
        0 <= qm,
    ensures
        0 <= spec_cost(b, qh2, qm) - spec_cost(b, qh1, qm) <= qh2 - qh1,
    decreases qh2 - qh1,
{
    if qh1 < qh2 {
        lemma_cost_mono_hit(b, qh1, qh2 - 1, qm);
        lemma_cost_step(b, qh2 - 1, qm);
    }
}

/// The cost function does not care which side is called hit.
pub proof fn lemma_cost_symmetric(b: int, qh: int, qm: int)
    ensures
        spec_cost(b, qh, qm) == spec_cost(b, qm, qh),
{
}

/// Bounds of a signed quantity change on one side: a buy of `dq` costs
/// between zero and `dq`; a sell refunds between zero and the size sold.
pub proof fn lemma_delta_cost_bounds(b: int, qh: int, qm: int, side: Side, dq: int)
    requires
        valid_b_fp(b),
        0 <= qh,
        0 <= qm,
        0 <= side_quantity(qh, qm, side) + dq,
    ensures
        dq >= 0 ==> 0 <= spec_delta_cost(b, qh, qm, side, dq) <= dq,
        dq <= 0 ==> dq <= spec_delta_cost(b, qh, qm, side, dq) <= 0,
{
    match side {
        Side::Hit => {
            if dq >= 0 {
                lemma_cost_mono_hit(b, qh, qh + dq, qm);
            } else {
                lemma_cost_mono_hit(b, qh + dq, qh, qm);
            }
        }
        Side::Miss => {
            lemma_cost_symmetric(b, qh, qm);
            lemma_cost_symmetric(b, qh, qm + dq);
            if dq >= 0 {
                lemma_cost_mono_hit(b, qm, qm + dq, qh);
            } else {
                lemma_cost_mono_hit(b, qm + dq, qm, qh);
            }
        }
    }
}

/// The cost of a quantity change never falls as the change grows: the
/// property the solver's bracketing and bisection rest on. (At fixed-point
/// granularity the growth is not strict: neighbouring quantities can round
/// to the same cost.)
pub proof fn lemma_delta_cost_monotone(
    b: int,
    qh: int,
    qm: int,
    side: Side,
    dq1: int,
    dq2: int,
)
    requires
        valid_b_fp(b),
        0 <= qh,
        0 <= qm,
        0 <= side_quantity(qh, qm, side) + dq1,
        dq1 <= dq2,
    ensures
        spec_delta_cost(b, qh, qm, side, dq1) <= spec_delta_cost(b, qh, qm, side, dq2),
{
    match side {
        Side::Hit => {
            lemma_cost_mono_hit(b, qh + dq1, qh + dq2, qm);
        }
        Side::Miss => {
            lemma_cost_symmetric(b, qh, qm + dq1);
            lemma_cost_symmetric(b, qh, qm + dq2);
            lemma_cost_mono_hit(b, qm + dq1, qm + dq2, qh);
        }
    }
}

/// Buying a quantity and selling it straight back moves the book there
/// and back, so with no fee the refund is exactly the payment: the cost
/// function is a function of state alone.
pub proof fn lemma_zero_fee_round_trip(b: int, qh: int, qm: int, side: Side, dq: int)
    requires
        valid_b_fp(b),
        0 <= qh,
        0 <= qm,
        0 <= dq,
    ensures
        spec_delta_cost(b, qh, qm, side, dq) == -spec_delta_cost(
            b,
            if side is Hit { qh + dq } else { qh },
            if side is Miss { qm + dq } else { qm },
            side,
            -dq,
        ),
{
}

/// Numerator of the interpolated logistic value at `u = d / b`, scaled by
/// `b`, with half the divisor added to round to nearest.
pub open spec fn sigmoid_num(b: int, d: int) -> int {
    let i = (4 * d) / b;
    let r = (4 * d) % b;
    b * sigmoid_entry(i) + (sigmoid_entry(i + 1) - sigmoid_entry(i)) * r + b / 2
}

/// `1 / (1 + e^(-d / b))` at the price scale, rounded to nearest and
/// saturating one unit below the scale.
pub open spec fn sigmoid_term(b: int, d: int) -> int {
    if (4 * d) / b >= SIGMOID_LAST as int {
        999_999
    } else {
        sigmoid_num(b, d) / b
    }
}

/// The instantaneous price of a Hit share, at scale one million.
pub open spec fn spec_price_hit(b: int, qh: int, qm: int) -> int {
    if qh >= qm {
        sigmoid_term(b, qh - qm)
    } else {
        1_000_000 - sigmoid_term(b, qm - qh)
    }
}

/// The price of a Miss share: the complement of the Hit price, by
/// construction.
pub open spec fn spec_price_miss(b: int, qh: int, qm: int) -> int {
    1_000_000 - spec_price_hit(b, qh, qm)
}

/// The interpolated logistic stays between one half (its value at a
/// balanced book, reached exactly) and one unit below the scale.
proof fn lemma_sigmoid_term_bounds(b: int, d: int)
    requires
        valid_b_fp(b),
        0 <= d,
    ensures
        500_000 <= sigmoid_term(b, d) <= 999_999,
        d == 0 ==> sigmoid_term(b, d) == 500_000,
{
    lemma_sigmoid_entry_props();
    let s = 4 * d;
    let i = s / b;
    let r = s % b;
    lemma_fundamental_div_mod(s, b);
    lemma_mod_bound(s, b);
    lemma_div_pos_is_pos(s, b);
    vstd::arithmetic::div_mod::lemma_basic_div(b / 2, b);
    if i < SIGMOID_LAST as int {
        let g = sigmoid_entry(i);
        let gn = sigmoid_entry(i + 1);
        assert(500_000 <= g <= gn <= 999_999);
        let e = gn - g;
        let num = sigmoid_num(b, d);
        assert(0 <= e * r) by (nonlinear_arith)
            requires
                0 <= e,
                0 <= r,
        ;
        assert(e * r <= e * b) by {
            lemma_mul_inequality(r, b, e);
            lemma_mul_is_commutative_auto(e, r, b);
        }
        assert(b * g + e * b == b * gn) by (nonlinear_arith)
            requires
                e == gn - g,
        ;
        // lower bound: num / b >= g
        assert((g * b) / b == g) by {
            lemma_div_by_multiple_local(g, b);
        }
        assert(g * b == b * g) by (nonlinear_arith);
        lemma_div_is_ordered(b * g, num, b);
        // upper bound: num / b <= gn
        lemma_div_is_ordered(num, b * gn + b / 2, b);
        assert((b / 2 + gn * b) / b == (b / 2) / b + gn) by {
            lemma_hoist_over_denominator(b / 2, gn, b as nat);
        }
        assert(gn * b == b * gn) by (nonlinear_arith);
        if d == 0 {
            lemma_fundamental_div_mod_converse(0, b, 0, 0);
            assert(e * r == 0) by (nonlinear_arith)
                requires
                    r == 0,
            ;
            assert(num == b * 500_000 + b / 2);
            assert((b / 2 + 500_000 * b) / b == (b / 2) / b + 500_000) by {
                lemma_hoist_over_denominator(b / 2, 500_000, b as nat);
            }
            assert(500_000 * b == b * 500_000) by (nonlinear_arith);
        }
    } else {
        assert(i >= 1);
        assert(s >= b) by {
            if s < b {
                vstd::arithmetic::div_mod::lemma_basic_div(s, b);
            }
        }
        assert(d != 0);
    }
}

/// The two instantaneous prices always add up to exactly one: the Miss
/// price is the Hit price's complement, and swapping the sides of the
/// book turns one into the other.
pub proof fn lemma_price_complement(b: int, qh: int, qm: int)
    requires
        valid_b_fp(b),
        0 <= qh,
        0 <= qm,
    ensures
        spec_price_hit(b, qh, qm) + spec_price_miss(b, qh, qm) == 1_000_000,
        spec_price_miss(b, qh, qm) == spec_price_hit(b, qm, qh),
        1 <= spec_price_hit(b, qh, qm) <= 999_999,
{
    if qh >= qm {
        lemma_sigmoid_term_bounds(b, qh - qm);
    } else {
        lemma_sigmoid_term_bounds(b, qm - qh);
    }
}

/// A balanced book prices both sides at exactly one half.
pub proof fn lemma_balanced_price(b: int, q: int)
    requires
        valid_b_fp(b),
        0 <= q,
    ensures
        spec_price_hit(b, q, q) == 500_000,
        spec_price_miss(b, q, q) == 500_000,
{
    lemma_sigmoid_term_bounds(b, 0);
}

/// Division of a non-negative dividend by a positive divisor, floored.
/// The unsigned detour is only there because the verifier defines `/` on
/// unsigned machine integers; the value is the mathematical quotient.
pub(crate) fn div_nn(a: i128, b: i128) -> (r: i128)
    requires
        0 <= a,
        0 < b,
    ensures
        r as int == a as int / b as int,
        0 <= r <= a,
{
    proof {
        lemma_div_pos_is_pos(a as int, b as int);
        lemma_div_nonincreasing(a as int, b as int);
    }
    ((a as u128) / (b as u128)) as i128
}

/// Remainder matching `div_nn`.
pub(crate) fn mod_nn(a: i128, b: i128) -> (r: i128)
    requires
        0 <= a,
        0 < b,
    ensures
        r as int == a as int % b as int,
        0 <= r < b,
{
    proof {
        lemma_mod_bound(a as int, b as int);
    }
    ((a as u128) % (b as u128)) as i128
}

/// Evaluates the rounded softplus term `b * ln(1 + e^(-d / b))`.
fn softplus_term_fp(b: i128, d: i128) -> (r: i128)
    requires
        valid_b_fp(b as int),
        0 <= d,
        d as int <= MAX_PRICING_Q_FP,
    ensures
        r as int == softplus_term(b as int, d as int),
        0 <= r <= b,
{
    proof {
        lemma_softplus_entry_props();
        lemma_softplus_num_bounds(b as int, d as int);
    }
    let s: i128 = 4 * d;
    let i = div_nn(s, b);
    let r = mod_nn(s, b);
    if i >= SOFTPLUS_LAST as i128 {
        proof {
            lemma_div_pos_is_pos(SOFTPLUS_HALF as int, SOFTPLUS_SCALE as int);
            lemma_div_nonincreasing(SOFTPLUS_HALF as int, SOFTPLUS_SCALE as int);
            assert(SOFTPLUS_HALF as int / SOFTPLUS_SCALE as int == 0) by {
                vstd::arithmetic::div_mod::lemma_basic_div(
                    SOFTPLUS_HALF as int,
                    SOFTPLUS_SCALE as int,
                );
            }
        }
        0
    } else {
        let hi = softplus_entry_at(i as u32);
        let hn = softplus_entry_at((i + 1) as u32);
        proof {
            assert(0 <= hn <= hi <= 693_147_180_560);
            assert(b * hi <= MAX_B_FP * 693_147_180_560) by (nonlinear_arith)
                requires
                    0 < b <= MAX_B_FP,
                    0 <= hi <= 693_147_180_560,
            ;
            assert(0 <= b * hi) by (nonlinear_arith)
                requires
                    0 < b,
                    0 <= hi,
            ;
            assert(0 <= (hi as int - hn as int) * r <= SOFTPLUS_STEP_MAX * MAX_B_FP)
                by (nonlinear_arith)
                requires
                    0 <= hi as int - hn as int <= SOFTPLUS_STEP_MAX as int,
                    0 <= r < b <= MAX_B_FP,
            ;
        }
        let num: i128 = b * hi - (hi - hn) * r + SOFTPLUS_HALF;
        div_nn(num, SOFTPLUS_SCALE)
    }
}

/// The LMSR cost `C(q_hit, q_miss)` in fixed-point currency units,
/// rounded to nearest. Total: for every state in range the cost is a
/// value between the larger side and the larger side plus `b`.
pub fn lmsr_cost(b_fp: i128, q_hit_fp: i128, q_miss_fp: i128) -> (r: i128)
    requires
        valid_b_fp(b_fp as int),
        in_pricing_range(q_hit_fp as int),
        in_pricing_range(q_miss_fp as int),
    ensures
        r as int == spec_cost(b_fp as int, q_hit_fp as int, q_miss_fp as int),
        q_hit_fp <= r,
        q_miss_fp <= r,
        r as int <= (if q_hit_fp >= q_miss_fp { q_hit_fp } else { q_miss_fp }) + b_fp,
{
    if q_hit_fp >= q_miss_fp {
        let t = softplus_term_fp(b_fp, q_hit_fp - q_miss_fp);
        q_hit_fp + t
    } else {
        let t = softplus_term_fp(b_fp, q_miss_fp - q_hit_fp);
        q_miss_fp + t
    }
}

/// Cost of changing the chosen side by `delta_q_fp` (negative to unwind):
/// `C(new) - C(old)`. Fails with an arithmetic error exactly when the new
/// side quantity would leave the valid range.
pub fn lmsr_delta_cost(
    b_fp: i128,
    q_hit_fp: i128,
    q_miss_fp: i128,
    side: Side,
    delta_q_fp: i128,
) -> (r: Result<i128, AmmError>)
    requires
        valid_b_fp(b_fp as int),
        in_pricing_range(q_hit_fp as int),
        in_pricing_range(q_miss_fp as int),
        -MAX_PRICING_Q_FP <= delta_q_fp as int <= MAX_PRICING_Q_FP,
    ensures
        match r {
            Ok(v) => {
                &&& in_pricing_range(
                    side_quantity(q_hit_fp as int, q_miss_fp as int, side) + delta_q_fp as int,
                )
                &&& v as int == spec_delta_cost(
                    b_fp as int,
                    q_hit_fp as int,
                    q_miss_fp as int,
                    side,
                    delta_q_fp as int,
                )
                &&& delta_q_fp >= 0 ==> 0 <= v <= delta_q_fp
                &&& delta_q_fp <= 0 ==> delta_q_fp <= v <= 0
            },
            Err(e) => {
                &&& e == AmmError::MathOverflow
                &&& !in_pricing_range(
                    side_quantity(q_hit_fp as int, q_miss_fp as int, side) + delta_q_fp as int,
                )
            },
        },
{
    let q_side = match side {
        Side::Hit => q_hit_fp,
        Side::Miss => q_miss_fp,
    };
    if delta_q_fp > MAX_PRICING_Q_FP - q_side || q_side + delta_q_fp < 0 {
        return Err(AmmError::MathOverflow);
    }
    Ok(delta_cost_in_range(b_fp, q_hit_fp, q_miss_fp, side, delta_q_fp))
}

/// `lmsr_delta_cost` for a change already known to stay in range.
pub(crate) fn delta_cost_in_range(
    b_fp: i128,
    q_hit_fp: i128,
    q_miss_fp: i128,
    side: Side,
    delta_q_fp: i128,
) -> (r: i128)
    requires
        valid_b_fp(b_fp as int),
        in_pricing_range(q_hit_fp as int),
        in_pricing_range(q_miss_fp as int),
        in_pricing_range(
            side_quantity(q_hit_fp as int, q_miss_fp as int, side) + delta_q_fp as int,
        ),
    ensures
        r as int == spec_delta_cost(
            b_fp as int,
            q_hit_fp as int,
            q_miss_fp as int,
            side,
            delta_q_fp as int,
        ),
        delta_q_fp >= 0 ==> 0 <= r <= delta_q_fp,
        delta_q_fp <= 0 ==> delta_q_fp <= r <= 0,
{
    let (qh1, qm1) = match side {
        Side::Hit => (q_hit_fp + delta_q_fp, q_miss_fp),
        Side::Miss => (q_hit_fp, q_miss_fp + delta_q_fp),
    };
    proof {
        lemma_delta_cost_bounds(
            b_fp as int,
            q_hit_fp as int,
            q_miss_fp as int,
            side,
            delta_q_fp as int,
        );
    }
    let c0 = lmsr_cost(b_fp, q_hit_fp, q_miss_fp);
    let c1 = lmsr_cost(b_fp, qh1, qm1);
    c1 - c0
}

/// Evaluates the rounded, saturating logistic term.
fn sigmoid_term_fp(b: i128, d: i128) -> (r: i128)
    requires
        valid_b_fp(b as int),
        0 <= d,
        d as int <= MAX_PRICING_Q_FP,
    ensures
        r as int == sigmoid_term(b as int, d as int),
        500_000 <= r <= 999_999,
{
    proof {
        lemma_sigmoid_entry_props();
        lemma_sigmoid_term_bounds(b as int, d as int);
    }
    let s: i128 = 4 * d;
    let i = div_nn(s, b);
    let rr = mod_nn(s, b);
    if i >= SIGMOID_LAST as i128 {
        999_999
    } else {
        let g = sigmoid_entry_at(i as u32);
        let gn = sigmoid_entry_at((i + 1) as u32);
        proof {
            assert(0 <= b * g <= MAX_B_FP * 999_999) by (nonlinear_arith)
                requires
                    0 < b <= MAX_B_FP,
                    0 <= g <= 999_999,
            ;
            assert(0 <= (gn as int - g as int) * rr <= 999_999 * MAX_B_FP) by (nonlinear_arith)
                requires
                    0 <= gn as int - g as int <= 999_999,
                    0 <= rr < b <= MAX_B_FP,
            ;
        }
        let half_b = div_nn(b, 2);
        let num: i128 = b * g + (gn - g) * rr + half_b;
        div_nn(num, b)
    }
}

/// The instantaneous price of a Hit share at scale one million: always
/// strictly between zero and one, exactly one half on a balanced book,
/// and the Miss price is its complement.
pub fn lmsr_price_hit(b_fp: i128, q_hit_fp: i128, q_miss_fp: i128) -> (r: i128)
    requires
        valid_b_fp(b_fp as int),
        in_pricing_range(q_hit_fp as int),
        in_pricing_range(q_miss_fp as int),
    ensures
        r as int == spec_price_hit(b_fp as int, q_hit_fp as int, q_miss_fp as int),
        1 <= r <= 999_999,
{
    if q_hit_fp >= q_miss_fp {
        sigmoid_term_fp(b_fp, q_hit_fp - q_miss_fp)
    } else {
        1_000_000 - sigmoid_term_fp(b_fp, q_miss_fp - q_hit_fp)
    }
}

} // verus!

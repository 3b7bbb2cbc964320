use vstd::prelude::*;
use crate::errors::AmmError;
use crate::model::{Side, MAX_Q_FP};
use crate::pricing::{
    delta_cost_in_range, lemma_delta_cost_monotone, spec_delta_cost, valid_b_fp,
};

verus! {

// Inverting the cost function: given a target payment, find the share
// quantity whose delta-cost reaches it. There is no closed form, so the
// solver brackets the answer by doubling an upper candidate (at most
// twenty times, capped by the position headroom) and then bisects the
// bracket for at most sixty iterations, keeping the smallest quantity
// seen whose cost reaches the target. Both loops are mirrored one-to-one
// by spec functions, so the result is pinned exactly: it is the least
// quantity in the bracket that reaches the target, or the bracket itself
// when nothing in it does.

/// A candidate quantity is enough when its cost reaches the target.
pub open spec fn hits_target(b: int, qh: int, qm: int, side: Side, target: int, x: int) -> bool {
    spec_delta_cost(b, qh, qm, side, x) >= target
}

/// What the doubling phase settles on, starting from candidate `hi` with
/// `fuel` doublings left: the first candidate that reaches the target, or
/// the headroom cap if doubling hits it first, or wherever the fuel runs
/// out.
pub open spec fn bracket_phase(
    b: int,
    qh: int,
    qm: int,
    side: Side,
    target: int,
    cap: int,
    hi: int,
    fuel: nat,
) -> int
    decreases fuel,
{
    if fuel == 0 {
        hi
    } else if hits_target(b, qh, qm, side, target, hi) {
        hi
    } else {
        let h2 = if 2 * hi >= cap {
            cap
        } else {
            2 * hi
        };
        if h2 == cap {
            cap
        } else {
            bracket_phase(b, qh, qm, side, target, cap, h2, (fuel - 1) as nat)
        }
    }
}

/// The upper bracket the solver searches under: twenty doublings from
/// the smaller of the headroom and a thousand times the target.
pub open spec fn solver_bracket(
    b: int,
    qh: int,
    qm: int,
    side: Side,
    target: int,
    cap: int,
) -> int {
    let hi0 = if cap <= 1000 * target {
        cap
    } else {
        1000 * target
    };
    bracket_phase(b, qh, qm, side, target, cap, hi0, 20)
}

/// The bracket stays within the starting candidate's bounds.
proof fn lemma_bracket_bounds(
    b: int,
    qh: int,
    qm: int,
    side: Side,
    target: int,
    cap: int,
    hi: int,
    fuel: nat,
)
    requires
        1 <= hi <= cap,
    ensures
        1 <= bracket_phase(b, qh, qm, side, target, cap, hi, fuel) <= cap,
    decreases fuel,
{
    if fuel > 0 && !hits_target(b, qh, qm, side, target, hi) {
        let h2 = if 2 * hi >= cap {
            cap
        } else {
            2 * hi
        };
        if h2 != cap {
            lemma_bracket_bounds(b, qh, qm, side, target, cap, h2, (fuel - 1) as nat);
        }
    }
}

/// Strictly positive powers of two, counted as halvings left: the width
/// budget of the bisection.
pub open spec fn bisect_span(n: nat) -> int
    decreases n,
{
    if n == 0 {
        1
    } else {
        2 * bisect_span((n - 1) as nat)
    }
}

proof fn lemma_bisect_span_pos(n: nat)
    ensures
        1 <= bisect_span(n),
    decreases n,
{
    if n > 0 {
        lemma_bisect_span_pos((n - 1) as nat);
    }
}

/// Sixty halvings cover any bracket below `2^60`.
pub proof fn lemma_bisect_span_value()
    ensures
        bisect_span(60) == 1_152_921_504_606_846_976,
{
    reveal_with_fuel(bisect_span, 61);
}

/// Complete characterisation of the solver's answer for a positive
/// target: it lies in the bracket, it reaches the target unless it is the
/// bracket itself, and — whenever the bracket is narrow enough for sixty
/// halvings to collapse it, which covers every realistic configuration —
/// no smaller quantity reaches the target.
pub open spec fn solves(
    b: int,
    qh: int,
    qm: int,
    side: Side,
    target: int,
    cap: int,
    dq: int,
) -> bool {
    let a = solver_bracket(b, qh, qm, side, target, cap);
    &&& 0 <= dq <= a
    &&& a <= cap
    &&& (hits_target(b, qh, qm, side, target, dq) || dq == a)
    &&& (a < bisect_span(60) ==> forall|y: int|
        0 <= y < dq ==> !hits_target(b, qh, qm, side, target, y))
}

/// Finds the quantity a payment of `target_fp` buys on the chosen side,
/// capped by the position headroom `max_pos_fp - current_pos_fp`. A zero
/// target resolves to zero shares; a negative target is an arithmetic
/// error; exhausted headroom is a capacity error. The answer can cost
/// less than the target when the cap binds first, so the caller must
/// re-derive the exact cost from the realised quantity.
pub fn solve_delta_q_bisect(
    b_fp: i128,
    q_hit_fp: i128,
    q_miss_fp: i128,
    side: Side,
    target_fp: i128,
    max_pos_fp: i128,
    current_pos_fp: i128,
) -> (r: Result<i128, AmmError>)
    requires
        valid_b_fp(b_fp as int),
        0 <= q_hit_fp as int <= MAX_Q_FP,
        0 <= q_miss_fp as int <= MAX_Q_FP,
        0 <= max_pos_fp as int <= u64::MAX,
        0 <= current_pos_fp as int <= u64::MAX,
        target_fp as int <= u64::MAX,
    ensures
        r is Err <==> (target_fp < 0 || (target_fp > 0 && max_pos_fp - current_pos_fp <= 0)),
        match r {
            Ok(dq) => {
                &&& 0 <= target_fp
                &&& (target_fp == 0 ==> dq == 0)
                &&& (target_fp > 0 ==> {
                    &&& 0 <= dq <= max_pos_fp - current_pos_fp
                    &&& solves(
                        b_fp as int,
                        q_hit_fp as int,
                        q_miss_fp as int,
                        side,
                        target_fp as int,
                        max_pos_fp - current_pos_fp,
                        dq as int,
                    )
                })
            },
            Err(e) => (e == AmmError::MathOverflow && target_fp < 0) || (e
                == AmmError::PositionTooLarge && target_fp > 0 && max_pos_fp - current_pos_fp
                <= 0),
        },
{
    let b = b_fp;
    let qh = q_hit_fp;
    let qm = q_miss_fp;
    if target_fp < 0 {
        return Err(AmmError::MathOverflow);
    }
    if target_fp == 0 {
        return Ok(0);
    }
    let cap = max_pos_fp - current_pos_fp;
    if cap <= 0 {
        return Err(AmmError::PositionTooLarge);
    }
    let ghost gb = b as int;
    let ghost gqh = qh as int;
    let ghost gqm = qm as int;
    let ghost gt = target_fp as int;
    let ghost gcap = cap as int;
    let ghost a = solver_bracket(gb, gqh, gqm, side, gt, gcap);

    // doubling phase: find an upper bracket
    let mut hi: i128 = if cap <= 1000 * target_fp {
        cap
    } else {
        1000 * target_fp
    };
    proof {
        lemma_bracket_bounds(gb, gqh, gqm, side, gt, gcap, hi as int, 20);
    }
    let mut k: u32 = 0;
    while k < 20
        invariant_except_break
            k <= 20,
            1 <= hi <= cap,
            valid_b_fp(gb),
            0 <= gqh <= MAX_Q_FP,
            0 <= gqm <= MAX_Q_FP,
            1 <= gcap <= u64::MAX,
            b == gb && qh == gqh && qm == gqm && target_fp == gt && cap == gcap,
            a == bracket_phase(gb, gqh, gqm, side, gt, gcap, hi as int, (20 - k) as nat),
            1 <= a <= gcap,
        ensures
            1 <= hi <= cap,
            hi as int == a,
            b == gb && qh == gqh && qm == gqm && target_fp == gt && cap == gcap,
        decreases 20 - k,
    {
        let dc = delta_cost_in_range(b, qh, qm, side, hi);
        if dc >= target_fp {
            break ;
        }
        let mut h2 = 2 * hi;
        if h2 > cap {
            h2 = cap;
        }
        hi = h2;
        k = k + 1;
        if hi == cap {
            break ;
        }
    }

    // bisection phase: shrink to the least sufficient quantity
    let mut lo: i128 = 0;
    let mut res: i128 = hi;
    let mut it: u32 = 0;
    proof {
        if a < bisect_span(60) {
            lemma_bisect_span_pos(60);
        }
    }
    while it < 60
        invariant_except_break
            it <= 60,
            0 <= lo < hi,
            hi as int <= a,
            0 <= res as int <= a,
            valid_b_fp(gb),
            0 <= gqh <= MAX_Q_FP,
            0 <= gqm <= MAX_Q_FP,
            1 <= gcap <= u64::MAX,
            a <= gcap,
            b == gb && qh == gqh && qm == gqm && target_fp == gt,
            hits_target(gb, gqh, gqm, side, gt, res as int) || res as int == a,
            hits_target(gb, gqh, gqm, side, gt, hi as int) || hi as int == a,
            forall|y: int| 0 <= y < lo as int ==> !hits_target(gb, gqh, gqm, side, gt, y),
            a < bisect_span(60) ==> hi - lo <= bisect_span((60 - it) as nat) - 1,
        ensures
            0 <= res as int <= a,
            hits_target(gb, gqh, gqm, side, gt, res as int) || res as int == a,
            a < bisect_span(60) ==> forall|y: int|
                0 <= y < res as int ==> !hits_target(gb, gqh, gqm, side, gt, y),
        decreases 60 - it,
    {
        let ghost w0 = hi - lo;
        let ghost n = (60 - it) as nat;
        let w = ((hi - lo) as u128 / 2) as i128;
        proof {
            assert(w as int == w0 as int / 2);
        }
        let mid = lo + w;
        let dc = delta_cost_in_range(b, qh, qm, side, mid);
        if dc >= target_fp {
            res = mid;
            hi = mid;
        } else {
            proof {
                assert forall|y: int| 0 <= y < mid as int + 1 implies !hits_target(
                    gb,
                    gqh,
                    gqm,
                    side,
                    gt,
                    y,
                ) by {
                    if lo as int <= y {
                        lemma_delta_cost_monotone(gb, gqh, gqm, side, y, mid as int);
                    }
                }
            }
            lo = mid + 1;
        }
        it = it + 1;
        if hi <= lo {
            res = hi;
            break ;
        }
        proof {
            if a < bisect_span(60) {
                let h = bisect_span((n - 1) as nat);
                lemma_bisect_span_pos((n - 1) as nat);
                assert(bisect_span(n) == 2 * h);
                assert(w0 <= 2 * h - 1);
                assert(w0 as int / 2 <= h - 1 && w0 - w0 as int / 2 <= h) by {
                    vstd::arithmetic::div_mod::lemma_fundamental_div_mod(w0 as int, 2);
                    vstd::arithmetic::div_mod::lemma_mod_bound(w0 as int, 2);
                    vstd::arithmetic::div_mod::lemma_div_is_ordered(w0 as int, 2 * h - 1, 2);
                    vstd::arithmetic::div_mod::lemma_fundamental_div_mod_converse(
                        2 * h - 1,
                        2,
                        h - 1,
                        1,
                    );
                }
            }
        }
    }
    Ok(res)
}

} // verus!

use vstd::prelude::*;
use vstd::arithmetic::div_mod::{lemma_div_is_ordered, lemma_fundamental_div_mod_converse};
use crate::errors::AmmError;
use crate::model::{
    market_wf, position_wf, Market, Outcome, Position, Side, Trade, TradeEvent, MAX_Q_FP,
};
use crate::pricing::{
    delta_cost_in_range, div_nn, lmsr_price_hit, side_quantity, spec_delta_cost, spec_price_hit,
    valid_b_fp,
};
use crate::solver::{solve_delta_q_bisect, solves};

verus! {

// The trade processor. Each entry point is one indivisible operation: it
// validates everything against a snapshot of the records, computes the
// fund movements the host must perform, and only then commits the new
// aggregate and position values. A failed operation returns the error and
// leaves both records untouched, so the host never has to unwind a
// partial mutation.

/// The shares a position holds on the chosen side.
pub open spec fn spec_position_side(p: Position, side: Side) -> int {
    match side {
        Side::Hit => p.hit_shares_fp as int,
        Side::Miss => p.miss_shares_fp as int,
    }
}

/// The shares a position holds on the chosen side.
pub fn position_side_shares(pos: &Position, side: Side) -> (r: i128)
    ensures
        r as int == spec_position_side(*pos, side),
{
    match side {
        Side::Hit => pos.hit_shares_fp,
        Side::Miss => pos.miss_shares_fp,
    }
}

/// A freshly allocated position that no trade has claimed yet.
pub open spec fn position_unclaimed(p: Position) -> bool {
    p.owner.id == 0
}

/// Trading fee on a realised cost: basis points of it, floored.
pub open spec fn spec_fee(dcost: int, fee_bps: int) -> int {
    dcost * fee_bps / 10_000
}

/// Net-of-fee estimate of the cost a payment can carry: the true fee is
/// charged on the realised cost, so this only sizes the solver's target.
pub open spec fn spec_net_in(usdc_in: int, fee_bps: int) -> int {
    usdc_in * 10_000 / (10_000 + fee_bps)
}

/// The quantity the solver resolves for a buy: zero for a zero target,
/// otherwise the characterised bracket search result.
pub open spec fn resolved_quantity(
    b: int,
    qh: int,
    qm: int,
    side: Side,
    target: int,
    cap: int,
    dq: int,
) -> bool {
    if target == 0 {
        dq == 0
    } else {
        solves(b, qh, qm, side, target, cap, dq)
    }
}

/// The shares a buy credits start from zero when the position is fresh.
pub open spec fn spec_current_side(p: Position, side: Side) -> int {
    if position_unclaimed(p) {
        0
    } else {
        spec_position_side(p, side)
    }
}

/// The other side of the book.
pub open spec fn opposite(side: Side) -> Side {
    match side {
        Side::Hit => Side::Miss,
        Side::Miss => Side::Hit,
    }
}

/// The first reason a trade is turned away before any quantity work, if
/// there is one: gate flags, the per-trade size cap (buys only, signalled
/// by `check_size`), the caller's token account, and the position's
/// binding to caller and market (`allow_fresh` lets a buy claim an
/// untouched position).
pub open spec fn trade_gate_error(
    m: Market,
    p: Position,
    accs: Trade,
    now: int,
    check_size: bool,
    usdc_in: int,
    allow_fresh: bool,
) -> Option<AmmError> {
    if m.paused {
        Some(AmmError::Paused)
    } else if m.outcome != Outcome::Unresolved {
        Some(AmmError::AlreadySettled)
    } else if now >= m.deadline_ts {
        Some(AmmError::AfterDeadline)
    } else if check_size && usdc_in > m.max_trade_usdc_fp {
        Some(AmmError::TradeTooLarge)
    } else if accs.user_usdc_owner != accs.user {
        Some(AmmError::InvalidOwner)
    } else if accs.user_usdc_mint != m.usdc_mint {
        Some(AmmError::WrongMint)
    } else if accs.vault_usdc != m.vault_usdc {
        Some(AmmError::WrongVault)
    } else if (!allow_fresh || !position_unclaimed(p)) && p.owner != accs.user {
        Some(AmmError::Unauthorized)
    } else if (!allow_fresh || !position_unclaimed(p)) && p.market != accs.market_key {
        Some(AmmError::WrongMarket)
    } else {
        None
    }
}

/// Which error a buy that got past the gates and resolved `dq` shares
/// fails with, if any: the checks run in this order.
pub open spec fn buy_tail_error(
    m: Market,
    side: Side,
    usdc_in: int,
    min_shares_out: int,
    current: int,
    dq: int,
) -> Option<AmmError> {
    let dcost = spec_delta_cost(m.b_fp as int, m.q_hit_fp as int, m.q_miss_fp as int, side, dq);
    let fee = spec_fee(dcost, m.fee_bps as int);
    if dq < min_shares_out {
        Some(AmmError::Slippage)
    } else if usdc_in < dcost + fee {
        Some(AmmError::InsufficientPayment)
    } else if side_quantity(m.q_hit_fp as int, m.q_miss_fp as int, side) + dq > MAX_Q_FP {
        Some(AmmError::MathOverflow)
    } else if current + dq > m.max_position_shares_fp {
        Some(AmmError::PositionTooLarge)
    } else {
        None
    }
}

/// Everything a failed buy promises about its error: the first gate that
/// failed names it, and past the gates it is named by the tail check
/// chain evaluated at the quantity the solver resolved.
pub open spec fn buy_error_spec(
    m0: Market,
    p0: Position,
    accs: Trade,
    side: Side,
    usdc_in: int,
    min_shares_out: int,
    now: int,
    e: AmmError,
) -> bool {
    let current = spec_current_side(p0, side);
    let net = spec_net_in(usdc_in, m0.fee_bps as int);
    let cap = m0.max_position_shares_fp as int - current;
    match trade_gate_error(m0, p0, accs, now, true, usdc_in, true) {
        Some(g) => e == g,
        None => {
            ||| (e == AmmError::PositionTooLarge && net > 0 && cap <= 0)
            ||| (exists|dq: int|
                resolved_quantity(
                    m0.b_fp as int,
                    m0.q_hit_fp as int,
                    m0.q_miss_fp as int,
                    side,
                    net,
                    cap,
                    dq,
                ) && Some(e) == buy_tail_error(m0, side, usdc_in, min_shares_out, current, dq))
        },
    }
}

/// Everything a successful buy promises about the effects and the new
/// records.
pub open spec fn buy_ok_spec(
    m0: Market,
    p0: Position,
    accs: Trade,
    side: Side,
    usdc_in: int,
    min_shares_out: int,
    now: int,
    fx: TradeEffects,
    m1: Market,
    p1: Position,
) -> bool {
    let b = m0.b_fp as int;
    let qh0 = m0.q_hit_fp as int;
    let qm0 = m0.q_miss_fp as int;
    let current = spec_current_side(p0, side);
    let net = spec_net_in(usdc_in, m0.fee_bps as int);
    let dq = fx.record.shares_fp as int;
    let dcost = spec_delta_cost(b, qh0, qm0, side, dq);
    let fee = spec_fee(dcost, m0.fee_bps as int);
    &&& trade_gate_error(m0, p0, accs, now, true, usdc_in, true) is None
    &&& resolved_quantity(b, qh0, qm0, side, net, m0.max_position_shares_fp as int - current, dq)
    &&& buy_tail_error(m0, side, usdc_in, min_shares_out, current, dq) is None
    &&& min_shares_out <= dq
    &&& usdc_in >= dcost + fee
    &&& fx.record.usdc_fp as int == dcost
    &&& fx.record.fee_fp as int == fee
    &&& fx.record.market == accs.market_key
    &&& fx.record.user == accs.user
    &&& fx.record.side == side
    &&& fx.record.is_buy
    &&& fx.collect_usdc_fp as int == usdc_in
    &&& fx.payout_usdc_fp == 0
    &&& fx.fee_to_treasury_fp as int == (if m0.treasury is Some && fee > 0 {
        fee
    } else {
        0int
    })
    &&& m1.q_hit_fp as int == qh0 + (if side is Hit {
        dq
    } else {
        0int
    })
    &&& m1.q_miss_fp as int == qm0 + (if side is Miss {
        dq
    } else {
        0int
    })
    &&& m1 == (Market { q_hit_fp: m1.q_hit_fp, q_miss_fp: m1.q_miss_fp, ..m0 })
    &&& p1.owner == accs.user
    &&& p1.market == accs.market_key
    &&& spec_position_side(p1, side) == current + dq
    &&& spec_position_side(p1, opposite(side)) == spec_current_side(p0, opposite(side))
    &&& current + dq <= m0.max_position_shares_fp as int
    &&& fx.record.p_hit_milli as int == spec_price_hit(b, m1.q_hit_fp as int, m1.q_miss_fp as int)
        / 1000
}

/// Fund movements and the record of one executed trade, for the host to
/// perform: the payment to collect into the vault before anything else
/// (zero for sells), the fee to route on to the treasury, and the
/// proceeds to pay out (zero for buys).
#[derive(Clone, Copy, Debug, PartialEq, Eq, Structural)]
pub struct TradeEffects {
    pub collect_usdc_fp: u64,
    pub fee_to_treasury_fp: u64,
    pub payout_usdc_fp: u64,
    pub record: TradeEvent,
}

/// `dcost * fee_bps / 10_000`, with the proof that the fee never exceeds
/// the cost it is charged on.
fn fee_on(dcost: i128, fee_bps: u16) -> (r: i128)
    requires
        0 <= dcost <= u64::MAX,
        fee_bps <= 10_000,
    ensures
        r as int == spec_fee(dcost as int, fee_bps as int),
        0 <= r <= dcost,
{
    proof {
        let d = dcost as int;
        let f = fee_bps as int;
        assert(0 <= d * f <= d * 10_000) by (nonlinear_arith)
            requires
                0 <= d,
                0 <= f <= 10_000,
        ;
        lemma_div_is_ordered(d * f, d * 10_000, 10_000);
        lemma_fundamental_div_mod_converse(d * 10_000, 10_000, d, 0);
    }
    div_nn(dcost * (fee_bps as i128), 10_000)
}

/// Buys shares on one side for `usdc_in_fp`: the net-of-fee part of the
/// payment is resolved into a share quantity on the snapshot curve,
/// capped by the position headroom; the exact cost and fee are then
/// recomputed from the realised quantity. On success the host must
/// collect `usdc_in_fp` into the vault before anything else (any surplus
/// over cost plus fee stays in the vault) and route the returned fee to
/// the treasury.
#[verifier::rlimit(100)]
#[verifier::spinoff_prover]
pub fn buy(
    m: &mut Market,
    pos: &mut Position,
    accs: &Trade,
    side: Side,
    usdc_in_fp: u64,
    min_shares_out_fp: u64,
    now: i64,
) -> (r: Result<TradeEffects, AmmError>)
    requires
        market_wf(*old(m)),
        position_wf(*old(pos)),
    ensures
        market_wf(*final(m)),
        position_wf(*final(pos)),
        r is Err ==> *final(m) == *old(m) && *final(pos) == *old(pos),
        match r {
            Ok(fx) => buy_ok_spec(
                *old(m),
                *old(pos),
                *accs,
                side,
                usdc_in_fp as int,
                min_shares_out_fp as int,
                now as int,
                fx,
                *final(m),
                *final(pos),
            ),
            Err(e) => buy_error_spec(
                *old(m),
                *old(pos),
                *accs,
                side,
                usdc_in_fp as int,
                min_shares_out_fp as int,
                now as int,
                e,
            ),
        },
{
    // gate checks on the snapshot
    if m.paused {
        return Err(AmmError::Paused);
    }
    if m.outcome != Outcome::Unresolved {
        return Err(AmmError::AlreadySettled);
    }
    if now >= m.deadline_ts {
        return Err(AmmError::AfterDeadline);
    }
    if usdc_in_fp as i128 > m.max_trade_usdc_fp {
        return Err(AmmError::TradeTooLarge);
    }
    if accs.user_usdc_owner != accs.user {
        return Err(AmmError::InvalidOwner);
    }
    if accs.user_usdc_mint != m.usdc_mint {
        return Err(AmmError::WrongMint);
    }
    if accs.vault_usdc != m.vault_usdc {
        return Err(AmmError::WrongVault);
    }
    // claim or validate the position
    let claimed = pos.owner.id != 0;
    if claimed && pos.owner != accs.user {
        return Err(AmmError::Unauthorized);
    }
    if claimed && pos.market != accs.market_key {
        return Err(AmmError::WrongMarket);
    }
    let cur_hit: i128 = if claimed {
        pos.hit_shares_fp
    } else {
        0
    };
    let cur_miss: i128 = if claimed {
        pos.miss_shares_fp
    } else {
        0
    };
    let current = match side {
        Side::Hit => cur_hit,
        Side::Miss => cur_miss,
    };
    // net-of-fee spendable estimate
    let fee_bps = m.fee_bps;
    let net_u: u128 = (usdc_in_fp as u128) * 10_000 / (10_000 + fee_bps as u128);
    proof {
        let ui = usdc_in_fp as int;
        let fm = 10_000 + fee_bps as int;
        assert(ui * 10_000 <= ui * fm) by (nonlinear_arith)
            requires
                0 <= ui,
                10_000 <= fm,
        ;
        lemma_div_is_ordered(ui * 10_000, ui * fm, fm);
        lemma_fundamental_div_mod_converse(ui * fm, fm, ui, 0);
    }
    let net: i128 = net_u as i128;
    // resolve the share quantity against the snapshot curve
    let dq = match solve_delta_q_bisect(
        m.b_fp,
        m.q_hit_fp,
        m.q_miss_fp,
        side,
        net,
        m.max_position_shares_fp,
        current,
    ) {
        Ok(v) => v,
        Err(e) => {
            proof {
                assert(buy_error_spec(
                    *old(m),
                    *old(pos),
                    *accs,
                    side,
                    usdc_in_fp as int,
                    min_shares_out_fp as int,
                    now as int,
                    e,
                ));
            }
            return Err(e);
        },
    };
    proof {
        assert(resolved_quantity(
            old(m).b_fp as int,
            old(m).q_hit_fp as int,
            old(m).q_miss_fp as int,
            side,
            net as int,
            old(m).max_position_shares_fp as int - spec_current_side(*old(pos), side),
            dq as int,
        ));
    }
    if dq < min_shares_out_fp as i128 {
        proof {
            witness_buy_tail(*old(m), *old(pos), *accs, side, usdc_in_fp as int,
                min_shares_out_fp as int, now as int, net as int, dq as int, AmmError::Slippage);
        }
        return Err(AmmError::Slippage);
    }
    // exact cost and fee on the same snapshot
    let dcost = delta_cost_in_range(m.b_fp, m.q_hit_fp, m.q_miss_fp, side, dq);
    let fee = fee_on(dcost, fee_bps);
    let total_due = dcost + fee;
    if (usdc_in_fp as i128) < total_due {
        proof {
            witness_buy_tail(*old(m), *old(pos), *accs, side, usdc_in_fp as int,
                min_shares_out_fp as int, now as int, net as int, dq as int,
                AmmError::InsufficientPayment);
        }
        return Err(AmmError::InsufficientPayment);
    }
    // commit bounds
    let q_side0 = match side {
        Side::Hit => m.q_hit_fp,
        Side::Miss => m.q_miss_fp,
    };
    if dq > MAX_Q_FP - q_side0 {
        proof {
            witness_buy_tail(*old(m), *old(pos), *accs, side, usdc_in_fp as int,
                min_shares_out_fp as int, now as int, net as int, dq as int,
                AmmError::MathOverflow);
        }
        return Err(AmmError::MathOverflow);
    }
    let new_pos_side = current + dq;
    if new_pos_side > m.max_position_shares_fp {
        proof {
            witness_buy_tail(*old(m), *old(pos), *accs, side, usdc_in_fp as int,
                min_shares_out_fp as int, now as int, net as int, dq as int,
                AmmError::PositionTooLarge);
        }
        return Err(AmmError::PositionTooLarge);
    }
    // post-trade state and record
    let (qh1, qm1) = match side {
        Side::Hit => (m.q_hit_fp + dq, m.q_miss_fp),
        Side::Miss => (m.q_hit_fp, m.q_miss_fp + dq),
    };
    let p_hit = lmsr_price_hit(m.b_fp, qh1, qm1);
    let p_milli = div_nn(p_hit, 1000);
    let fee_out: u64 = if m.treasury.is_some() && fee > 0 {
        fee as u64
    } else {
        0
    };
    let record = TradeEvent {
        market: accs.market_key,
        user: accs.user,
        side,
        is_buy: true,
        usdc_fp: dcost as u64,
        shares_fp: dq as u64,
        fee_fp: fee as u64,
        p_hit_milli: p_milli as i64,
    };
    // commit
    m.q_hit_fp = qh1;
    m.q_miss_fp = qm1;
    pos.owner = accs.user;
    pos.market = accs.market_key;
    pos.hit_shares_fp = if matches!(side, Side::Hit) {
        new_pos_side
    } else {
        cur_hit
    };
    pos.miss_shares_fp = if matches!(side, Side::Miss) {
        new_pos_side
    } else {
        cur_miss
    };
    Ok(
        TradeEffects {
            collect_usdc_fp: usdc_in_fp,
            fee_to_treasury_fp: fee_out,
            payout_usdc_fp: 0,
            record,
        },
    )
}

/// The solver's answer witnesses a failed buy's tail error clause.
proof fn witness_buy_tail(
    m0: Market,
    p0: Position,
    accs: Trade,
    side: Side,
    usdc_in: int,
    min_shares_out: int,
    now: int,
    net: int,
    dq: int,
    e: AmmError,
)
    requires
        net == spec_net_in(usdc_in, m0.fee_bps as int),
        trade_gate_error(m0, p0, accs, now, true, usdc_in, true) is None,
        resolved_quantity(
            m0.b_fp as int,
            m0.q_hit_fp as int,
            m0.q_miss_fp as int,
            side,
            net,
            m0.max_position_shares_fp as int - spec_current_side(p0, side),
            dq,
        ),
        Some(e) == buy_tail_error(m0, side, usdc_in, min_shares_out, spec_current_side(p0, side), dq),
    ensures
        buy_error_spec(m0, p0, accs, side, usdc_in, min_shares_out, now, e),
{
}

/// Which error a sell that got past the gates fails with, if any: the
/// checks run in this order, `gross` being the cost decrease the sale
/// realises.
pub open spec fn sell_tail_error(
    m: Market,
    p: Position,
    side: Side,
    shares_in: int,
    min_usdc_out: int,
) -> Option<AmmError> {
    let gross = -spec_delta_cost(
        m.b_fp as int,
        m.q_hit_fp as int,
        m.q_miss_fp as int,
        side,
        -shares_in,
    );
    let fee = spec_fee(gross, m.fee_bps as int);
    if shares_in == 0 {
        Some(AmmError::InvalidAmount)
    } else if spec_position_side(p, side) < shares_in {
        Some(AmmError::InsufficientBalance)
    } else if side_quantity(m.q_hit_fp as int, m.q_miss_fp as int, side) < shares_in {
        Some(AmmError::MathOverflow)
    } else if gross - fee < min_usdc_out {
        Some(AmmError::Slippage)
    } else {
        None
    }
}

/// Everything a failed sell promises about its error — and since the
/// tail chain ends in no other case, a sell fails exactly when one of
/// these conditions holds.
pub open spec fn sell_error_spec(
    m0: Market,
    p0: Position,
    accs: Trade,
    side: Side,
    shares_in: int,
    min_usdc_out: int,
    now: int,
    e: AmmError,
) -> bool {
    match trade_gate_error(m0, p0, accs, now, false, 0, false) {
        Some(g) => e == g,
        None => Some(e) == sell_tail_error(m0, p0, side, shares_in, min_usdc_out),
    }
}

/// Everything a successful sell promises about the effects and the new
/// records.
pub open spec fn sell_ok_spec(
    m0: Market,
    p0: Position,
    accs: Trade,
    side: Side,
    shares_in: int,
    min_usdc_out: int,
    now: int,
    fx: TradeEffects,
    m1: Market,
    p1: Position,
) -> bool {
    let b = m0.b_fp as int;
    let qh0 = m0.q_hit_fp as int;
    let qm0 = m0.q_miss_fp as int;
    let gross = -spec_delta_cost(b, qh0, qm0, side, -shares_in);
    let fee = spec_fee(gross, m0.fee_bps as int);
    &&& trade_gate_error(m0, p0, accs, now, false, 0, false) is None
    &&& sell_tail_error(m0, p0, side, shares_in, min_usdc_out) is None
    &&& 0 < shares_in <= spec_position_side(p0, side)
    &&& min_usdc_out <= gross - fee
    &&& fx.record.usdc_fp as int == gross
    &&& fx.record.fee_fp as int == fee
    &&& fx.record.shares_fp as int == shares_in
    &&& fx.record.market == accs.market_key
    &&& fx.record.user == accs.user
    &&& fx.record.side == side
    &&& !fx.record.is_buy
    &&& fx.collect_usdc_fp == 0
    &&& fx.payout_usdc_fp as int == gross - fee
    &&& fx.fee_to_treasury_fp as int == (if m0.treasury is Some && fee > 0 {
        fee
    } else {
        0int
    })
    &&& m1.q_hit_fp as int == qh0 - (if side is Hit {
        shares_in
    } else {
        0int
    })
    &&& m1.q_miss_fp as int == qm0 - (if side is Miss {
        shares_in
    } else {
        0int
    })
    &&& m1 == (Market { q_hit_fp: m1.q_hit_fp, q_miss_fp: m1.q_miss_fp, ..m0 })
    &&& p1 == (Position {
        hit_shares_fp: p1.hit_shares_fp,
        miss_shares_fp: p1.miss_shares_fp,
        ..p0
    })
    &&& spec_position_side(p1, side) == spec_position_side(p0, side) - shares_in
    &&& spec_position_side(p1, opposite(side)) == spec_position_side(p0, opposite(side))
    &&& fx.record.p_hit_milli as int == spec_price_hit(b, m1.q_hit_fp as int, m1.q_miss_fp as int)
        / 1000
}

/// Sells shares back to the pool: the payout is the cost decrease the
/// sale realises on the snapshot curve, minus the fee. On success the
/// host must pay `payout_usdc_fp` from the vault to the user and route
/// the returned fee to the treasury.
#[verifier::rlimit(100)]
#[verifier::spinoff_prover]
pub fn sell(
    m: &mut Market,
    pos: &mut Position,
    accs: &Trade,
    side: Side,
    shares_in_fp: u64,
    min_usdc_out_fp: u64,
    now: i64,
) -> (r: Result<TradeEffects, AmmError>)
    requires
        market_wf(*old(m)),
        position_wf(*old(pos)),
    ensures
        market_wf(*final(m)),
        position_wf(*final(pos)),
        r is Err ==> *final(m) == *old(m) && *final(pos) == *old(pos),
        match r {
            Ok(fx) => sell_ok_spec(
                *old(m),
                *old(pos),
                *accs,
                side,
                shares_in_fp as int,
                min_usdc_out_fp as int,
                now as int,
                fx,
                *final(m),
                *final(pos),
            ),
            Err(e) => sell_error_spec(
                *old(m),
                *old(pos),
                *accs,
                side,
                shares_in_fp as int,
                min_usdc_out_fp as int,
                now as int,
                e,
            ),
        },
{
    // gate checks on the snapshot
    if m.paused {
        return Err(AmmError::Paused);
    }
    if m.outcome != Outcome::Unresolved {
        return Err(AmmError::AlreadySettled);
    }
    if now >= m.deadline_ts {
        return Err(AmmError::AfterDeadline);
    }
    if accs.user_usdc_owner != accs.user {
        return Err(AmmError::InvalidOwner);
    }
    if accs.user_usdc_mint != m.usdc_mint {
        return Err(AmmError::WrongMint);
    }
    if accs.vault_usdc != m.vault_usdc {
        return Err(AmmError::WrongVault);
    }
    if pos.owner != accs.user {
        return Err(AmmError::Unauthorized);
    }
    if pos.market != accs.market_key {
        return Err(AmmError::WrongMarket);
    }
    let s: i128 = shares_in_fp as i128;
    if s == 0 {
        return Err(AmmError::InvalidAmount);
    }
    let held = match side {
        Side::Hit => pos.hit_shares_fp,
        Side::Miss => pos.miss_shares_fp,
    };
    if held < s {
        return Err(AmmError::InsufficientBalance);
    }
    let q_side0 = match side {
        Side::Hit => m.q_hit_fp,
        Side::Miss => m.q_miss_fp,
    };
    if q_side0 < s {
        return Err(AmmError::MathOverflow);
    }
    // cost decrease realised by the sale, on the snapshot curve
    let gross = -delta_cost_in_range(m.b_fp, m.q_hit_fp, m.q_miss_fp, side, -s);
    let fee = fee_on(gross, m.fee_bps);
    let payout = gross - fee;
    if payout < min_usdc_out_fp as i128 {
        return Err(AmmError::Slippage);
    }
    // post-trade state and record
    let (qh1, qm1) = match side {
        Side::Hit => (m.q_hit_fp - s, m.q_miss_fp),
        Side::Miss => (m.q_hit_fp, m.q_miss_fp - s),
    };
    let p_hit = lmsr_price_hit(m.b_fp, qh1, qm1);
    let p_milli = div_nn(p_hit, 1000);
    let fee_out: u64 = if m.treasury.is_some() && fee > 0 {
        fee as u64
    } else {
        0
    };
    let record = TradeEvent {
        market: accs.market_key,
        user: accs.user,
        side,
        is_buy: false,
        usdc_fp: gross as u64,
        shares_fp: shares_in_fp,
        fee_fp: fee as u64,
        p_hit_milli: p_milli as i64,
    };
    // commit
    m.q_hit_fp = qh1;
    m.q_miss_fp = qm1;
    match side {
        Side::Hit => {
            pos.hit_shares_fp = pos.hit_shares_fp - s;
        },
        Side::Miss => {
            pos.miss_shares_fp = pos.miss_shares_fp - s;
        },
    }
    Ok(
        TradeEffects {
            collect_usdc_fp: 0,
            fee_to_treasury_fp: fee_out,
            payout_usdc_fp: payout as u64,
            record,
        },
    )
}

/// With a zero fee, buying a quantity and immediately selling it back
/// pays out exactly what the buy charged: the cost function depends on
/// the book alone, and a zero-rate fee keeps nothing on either leg.
pub proof fn lemma_zero_fee_round_trip_payout(b: int, qh: int, qm: int, side: Side, dq: int)
    requires
        valid_b_fp(b),
        0 <= qh,
        0 <= qm,
        0 <= dq,
    ensures
        ({
            let dcost = spec_delta_cost(b, qh, qm, side, dq);
            let qh1 = qh + (if side is Hit {
                dq
            } else {
                0int
            });
            let qm1 = qm + (if side is Miss {
                dq
            } else {
                0int
            });
            let gross = -spec_delta_cost(b, qh1, qm1, side, -dq);
            &&& spec_fee(dcost, 0) == 0
            &&& spec_fee(gross, 0) == 0
            &&& gross - spec_fee(gross, 0) == dcost
        }),
{
    crate::pricing::lemma_zero_fee_round_trip(b, qh, qm, side, dq);
}

} // verus!

use vstd::prelude::*;
use crate::errors::AmmError;
use crate::model::{
    market_wf, AdminAuth, InitMarket, InitParams, Market, MarketInitialized, Outcome, Paused,
    SeedLiquidity, Settle, Settled, UpdateParams, MAX_B_FP, MAX_FEE_BPS, MIN_B_FP,
};

verus! {

// The market lifecycle: creation, liquidity seeding, the pause gate, the
// one-shot settlement transition, and partial parameter updates. The
// outcome moves only from Unresolved to Hit or Miss, exactly once;
// settlement forces the pause flag on as a side effect.

/// Why a market cannot be created with these parameters, if it cannot.
pub open spec fn init_error(params: InitParams, now: int) -> Option<AmmError> {
    if !(MIN_B_FP <= params.b_fp as int <= MAX_B_FP) {
        Some(AmmError::InvalidB)
    } else if params.fee_bps > MAX_FEE_BPS {
        Some(AmmError::InvalidFee)
    } else if params.deadline_ts <= now {
        Some(AmmError::AfterDeadline)
    } else {
        None
    }
}

/// Creates a market record: validates the parameters against their
/// ranges, requires the trading deadline to lie in the future, and
/// returns the zero-quantity, unresolved, unpaused record together with
/// its creation notice. On success the host stores the record at
/// `accs.market_key`.
pub fn init_market(
    accs: &InitMarket,
    params: &InitParams,
    milestone_id: Vec<u8>,
    now: i64,
) -> (r: Result<(Market, MarketInitialized), AmmError>)
    ensures
        r is Ok <==> init_error(*params, now as int) is None,
        match r {
            Ok((mkt, ev)) => {
                &&& market_wf(mkt)
                &&& mkt.authority == accs.authority
                &&& mkt.usdc_mint == accs.usdc_mint
                &&& mkt.vault_usdc == accs.vault_usdc
                &&& mkt.bump == accs.bump
                &&& mkt.b_fp == params.b_fp as i128
                &&& mkt.fee_bps == params.fee_bps
                &&& mkt.deadline_ts == params.deadline_ts
                &&& now < mkt.deadline_ts
                &&& mkt.grace_period_secs == params.grace_period_secs
                &&& mkt.outcome == Outcome::Unresolved
                &&& mkt.q_hit_fp == 0
                &&& mkt.q_miss_fp == 0
                &&& !mkt.paused
                &&& mkt.max_trade_usdc_fp == params.max_trade_usdc_fp as i128
                &&& mkt.max_position_shares_fp == params.max_position_shares_fp as i128
                &&& mkt.treasury == params.treasury
                &&& mkt.oracle_signer is None
                &&& mkt.liquidity_usdc_fp == 0
                &&& ev.market == accs.market_key
                &&& ev.b_fp as int == params.b_fp as int
                &&& ev.fee_bps == params.fee_bps
                &&& ev.deadline_ts == params.deadline_ts
            },
            Err(e) => Some(e) == init_error(*params, now as int),
        },
{
    if params.b_fp < 10_000 || params.b_fp as i128 > MAX_B_FP {
        return Err(AmmError::InvalidB);
    }
    if params.fee_bps > MAX_FEE_BPS {
        return Err(AmmError::InvalidFee);
    }
    if params.deadline_ts <= now {
        return Err(AmmError::AfterDeadline);
    }
    let mkt = Market {
        authority: accs.authority,
        usdc_mint: accs.usdc_mint,
        vault_usdc: accs.vault_usdc,
        b_fp: params.b_fp as i128,
        fee_bps: params.fee_bps,
        deadline_ts: params.deadline_ts,
        grace_period_secs: params.grace_period_secs,
        outcome: Outcome::Unresolved,
        q_hit_fp: 0,
        q_miss_fp: 0,
        paused: false,
        max_trade_usdc_fp: params.max_trade_usdc_fp as i128,
        max_position_shares_fp: params.max_position_shares_fp as i128,
        treasury: params.treasury,
        milestone_id,
        liquidity_usdc_fp: 0,
        oracle_signer: None,
        bump: accs.bump,
    };
    let ev = MarketInitialized {
        market: accs.market_key,
        b_fp: params.b_fp as i64,
        fee_bps: params.fee_bps,
        deadline_ts: params.deadline_ts,
    };
    Ok((mkt, ev))
}

/// Why liquidity cannot be seeded, if it cannot.
pub open spec fn seed_error(m: Market, accs: SeedLiquidity, amount: int) -> Option<AmmError> {
    if accs.authority != m.authority {
        Some(AmmError::Unauthorized)
    } else if m.paused {
        Some(AmmError::Paused)
    } else if m.liquidity_usdc_fp + amount > i128::MAX {
        Some(AmmError::MathOverflow)
    } else {
        None
    }
}

/// Books externally seeded liquidity: authority-only, refused while the
/// market is paused. On success the host must move `usdc_amount_fp` from
/// the authority's currency account into the vault; the record only
/// keeps the running total.
pub fn seed_liquidity(m: &mut Market, accs: &SeedLiquidity, usdc_amount_fp: u64) -> (r: Result<
    (),
    AmmError,
>)
    requires
        market_wf(*old(m)),
    ensures
        market_wf(*final(m)),
        r is Ok <==> seed_error(*old(m), *accs, usdc_amount_fp as int) is None,
        match r {
            Ok(()) => {
                &&& final(m).liquidity_usdc_fp == old(m).liquidity_usdc_fp + usdc_amount_fp
                &&& *final(m) == (Market {
                    liquidity_usdc_fp: final(m).liquidity_usdc_fp,
                    ..*old(m)
                })
            },
            Err(e) => {
                &&& *final(m) == *old(m)
                &&& Some(e) == seed_error(*old(m), *accs, usdc_amount_fp as int)
            },
        },
{
    if accs.authority != m.authority {
        return Err(AmmError::Unauthorized);
    }
    if m.paused {
        return Err(AmmError::Paused);
    }
    if m.liquidity_usdc_fp > i128::MAX - usdc_amount_fp as i128 {
        return Err(AmmError::MathOverflow);
    }
    m.liquidity_usdc_fp = m.liquidity_usdc_fp + usdc_amount_fp as i128;
    Ok(())
}

/// Whether the caller may settle: the authority always may; a configured
/// oracle signer may as well.
pub open spec fn settle_authorized(m: Market, accs: Settle) -> bool {
    ||| (accs.authority is Some && accs.authority.unwrap() == m.authority)
    ||| (m.oracle_signer is Some && accs.oracle_signer is Some && accs.oracle_signer.unwrap()
        == m.oracle_signer.unwrap())
}

/// Why settlement is refused, if it is: once settled a market stays
/// settled, the grace window must have elapsed, the caller must be
/// authorised, and the requested outcome must be terminal.
pub open spec fn settle_error(m: Market, accs: Settle, outcome: Outcome, now: int) -> Option<
    AmmError,
> {
    if m.outcome != Outcome::Unresolved {
        Some(AmmError::AlreadySettled)
    } else if now < m.deadline_ts + m.grace_period_secs {
        Some(AmmError::BeforeSettlementWindow)
    } else if !settle_authorized(m, accs) {
        Some(AmmError::Unauthorized)
    } else if outcome == Outcome::Unresolved {
        Some(AmmError::InvalidOutcome)
    } else {
        None
    }
}

/// Settles the market to Hit or Miss, exactly once: only while still
/// unresolved, only at or after deadline plus grace period, only by the
/// authority or the configured oracle. Success records the outcome and
/// forces the trading pause on; any later attempt fails as already
/// settled, whatever its arguments.
pub fn settle_market(m: &mut Market, accs: &Settle, outcome: Outcome, now: i64) -> (r: Result<
    Settled,
    AmmError,
>)
    requires
        market_wf(*old(m)),
    ensures
        market_wf(*final(m)),
        r is Ok <==> settle_error(*old(m), *accs, outcome, now as int) is None,
        r is Ok ==> old(m).outcome == Outcome::Unresolved,
        final(m).outcome == Outcome::Unresolved ==> r is Err,
        match r {
            Ok(ev) => {
                &&& final(m).outcome == outcome
                &&& outcome != Outcome::Unresolved
                &&& final(m).paused
                &&& *final(m) == (Market { outcome, paused: true, ..*old(m) })
                &&& ev.market == accs.market_key
                &&& ev.outcome == outcome
            },
            Err(e) => {
                &&& *final(m) == *old(m)
                &&& Some(e) == settle_error(*old(m), *accs, outcome, now as int)
            },
        },
{
    if m.outcome != Outcome::Unresolved {
        return Err(AmmError::AlreadySettled);
    }
    if (now as i128) < m.deadline_ts as i128 + m.grace_period_secs as i128 {
        return Err(AmmError::BeforeSettlementWindow);
    }
    let mut authorized = match accs.authority {
        Some(a) => a == m.authority,
        None => false,
    };
    if !authorized {
        authorized = match (m.oracle_signer, accs.oracle_signer) {
            (Some(configured), Some(signer)) => signer == configured,
            _ => false,
        };
    }
    if !authorized {
        return Err(AmmError::Unauthorized);
    }
    if outcome == Outcome::Unresolved {
        return Err(AmmError::InvalidOutcome);
    }
    m.outcome = outcome;
    m.paused = true;
    Ok(Settled { market: accs.market_key, outcome })
}

/// Opens or closes the trading gate: authority-only, any time, and
/// independent of the outcome.
pub fn admin_set_paused(m: &mut Market, accs: &AdminAuth, paused: bool) -> (r: Result<
    Paused,
    AmmError,
>)
    requires
        market_wf(*old(m)),
    ensures
        market_wf(*final(m)),
        r is Ok <==> accs.authority == old(m).authority,
        match r {
            Ok(ev) => {
                &&& final(m).paused == paused
                &&& *final(m) == (Market { paused, ..*old(m) })
                &&& ev.market == accs.market_key
                &&& ev.paused == paused
            },
            Err(e) => {
                &&& *final(m) == *old(m)
                &&& e == AmmError::Unauthorized
            },
        },
{
    if accs.authority != m.authority {
        return Err(AmmError::Unauthorized);
    }
    m.paused = paused;
    Ok(Paused { market: accs.market_key, paused })
}

/// Why a parameter update is refused, if it is: the liquidity parameter
/// and fee are revalidated, and the deadline may only move later.
pub open spec fn update_error(m: Market, accs: AdminAuth, upd: UpdateParams) -> Option<AmmError> {
    if accs.authority != m.authority {
        Some(AmmError::Unauthorized)
    } else if upd.b_fp is Some && !(MIN_B_FP <= upd.b_fp.unwrap() as int <= MAX_B_FP) {
        Some(AmmError::InvalidB)
    } else if upd.fee_bps is Some && upd.fee_bps.unwrap() > MAX_FEE_BPS {
        Some(AmmError::InvalidFee)
    } else if upd.deadline_ts is Some && upd.deadline_ts.unwrap() < m.deadline_ts {
        Some(AmmError::InvalidUpdate)
    } else {
        None
    }
}

/// Partially updates the administrable parameters: every supplied field
/// is validated first, then all supplied fields are applied together, so
/// a refused update changes nothing. Unsupplied fields keep their
/// values.
pub fn admin_update_params(m: &mut Market, accs: &AdminAuth, upd: &UpdateParams) -> (r: Result<
    (),
    AmmError,
>)
    requires
        market_wf(*old(m)),
    ensures
        market_wf(*final(m)),
        r is Ok <==> update_error(*old(m), *accs, *upd) is None,
        match r {
            Ok(()) => {
                &&& final(m).b_fp as int == (if upd.b_fp is Some {
                    upd.b_fp.unwrap() as int
                } else {
                    old(m).b_fp as int
                })
                &&& final(m).fee_bps == (if upd.fee_bps is Some {
                    upd.fee_bps.unwrap()
                } else {
                    old(m).fee_bps
                })
                &&& final(m).deadline_ts == (if upd.deadline_ts is Some {
                    upd.deadline_ts.unwrap()
                } else {
                    old(m).deadline_ts
                })
                &&& final(m).deadline_ts >= old(m).deadline_ts
                &&& final(m).grace_period_secs == (if upd.grace_period_secs is Some {
                    upd.grace_period_secs.unwrap()
                } else {
                    old(m).grace_period_secs
                })
                &&& final(m).max_trade_usdc_fp as int == (if upd.max_trade_usdc_fp is Some {
                    upd.max_trade_usdc_fp.unwrap() as int
                } else {
                    old(m).max_trade_usdc_fp as int
                })
                &&& final(m).max_position_shares_fp as int == (if upd.max_position_shares_fp
                    is Some {
                    upd.max_position_shares_fp.unwrap() as int
                } else {
                    old(m).max_position_shares_fp as int
                })
                &&& final(m).treasury == (if upd.treasury is Some {
                    upd.treasury
                } else {
                    old(m).treasury
                })
                &&& final(m).oracle_signer == (if upd.oracle_signer is Some {
                    upd.oracle_signer
                } else {
                    old(m).oracle_signer
                })
                &&& *final(m) == (Market {
                    b_fp: final(m).b_fp,
                    fee_bps: final(m).fee_bps,
                    deadline_ts: final(m).deadline_ts,
                    grace_period_secs: final(m).grace_period_secs,
                    max_trade_usdc_fp: final(m).max_trade_usdc_fp,
                    max_position_shares_fp: final(m).max_position_shares_fp,
                    treasury: final(m).treasury,
                    oracle_signer: final(m).oracle_signer,
                    ..*old(m)
                })
            },
            Err(e) => {
                &&& *final(m) == *old(m)
                &&& Some(e) == update_error(*old(m), *accs, *upd)
            },
        },
{
    if accs.authority != m.authority {
        return Err(AmmError::Unauthorized);
    }
    if let Some(b_fp) = upd.b_fp {
        if b_fp < 10_000 || b_fp as i128 > MAX_B_FP {
            return Err(AmmError::InvalidB);
        }
    }
    if let Some(fee_bps) = upd.fee_bps {
        if fee_bps > MAX_FEE_BPS {
            return Err(AmmError::InvalidFee);
        }
    }
    if let Some(deadline_ts) = upd.deadline_ts {
        if deadline_ts < m.deadline_ts {
            return Err(AmmError::InvalidUpdate);
        }
    }
    if let Some(b_fp) = upd.b_fp {
        m.b_fp = b_fp as i128;
    }
    if let Some(fee_bps) = upd.fee_bps {
        m.fee_bps = fee_bps;
    }
    if let Some(deadline_ts) = upd.deadline_ts {
        m.deadline_ts = deadline_ts;
    }
    if let Some(grace) = upd.grace_period_secs {
        m.grace_period_secs = grace;
    }
    if let Some(max_trade) = upd.max_trade_usdc_fp {
        m.max_trade_usdc_fp = max_trade as i128;
    }
    if let Some(max_pos) = upd.max_position_shares_fp {
        m.max_position_shares_fp = max_pos as i128;
    }
    if let Some(treasury) = upd.treasury {
        m.treasury = Some(treasury);
    }
    if let Some(oracle) = upd.oracle_signer {
        m.oracle_signer = Some(oracle);
    }
    Ok(())
}

} // verus!

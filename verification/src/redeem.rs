use vstd::prelude::*;
use crate::errors::AmmError;
use crate::model::{position_wf, Market, Outcome, Position, Redeem, Redeemed};

verus! {

// Post-settlement payout: a share on the winning side is worth exactly
// one currency unit; the losing side is worthless. Redemption closes the
// position in one call whichever side won, and redeeming an empty
// position is a successful no-op rather than a failure.

/// Why redemption is refused, if it is.
pub open spec fn redeem_error(m: Market, p: Position, accs: Redeem) -> Option<AmmError> {
    if m.outcome == Outcome::Unresolved {
        Some(AmmError::Unsettled)
    } else if p.owner != accs.user {
        Some(AmmError::Unauthorized)
    } else if p.market != accs.market_key {
        Some(AmmError::WrongMarket)
    } else {
        None
    }
}

/// The winning-side balance of a position under a terminal outcome.
pub open spec fn spec_winning_balance(m: Market, p: Position) -> int {
    if m.outcome == Outcome::Hit {
        p.hit_shares_fp as int
    } else {
        p.miss_shares_fp as int
    }
}

/// What the host must do after a successful redemption: pay `amount_fp`
/// from the vault to the position owner, unless it is zero, in which
/// case nothing moves and no record is emitted.
#[derive(Clone, Copy, Debug)]
pub struct RedeemEffects {
    pub amount_fp: u64,
    pub record: Option<Redeemed>,
}

/// Pays out the position's balance on the winning side, one to one, and
/// zeroes both balances whichever side won — so a second redemption of
/// the same position succeeds and pays nothing.
pub fn redeem(m: &Market, pos: &mut Position, accs: &Redeem) -> (r: Result<
    RedeemEffects,
    AmmError,
>)
    requires
        position_wf(*old(pos)),
    ensures
        position_wf(*final(pos)),
        r is Ok <==> redeem_error(*m, *old(pos), *accs) is None,
        match r {
            Ok(fx) => {
                &&& m.outcome != Outcome::Unresolved
                &&& fx.amount_fp as int == spec_winning_balance(*m, *old(pos))
                &&& final(pos).hit_shares_fp == 0
                &&& final(pos).miss_shares_fp == 0
                &&& final(pos).owner == old(pos).owner
                &&& final(pos).market == old(pos).market
                &&& match fx.record {
                    Some(ev) => {
                        &&& fx.amount_fp > 0
                        &&& ev.market == accs.market_key
                        &&& ev.user == accs.user
                        &&& ev.amount_fp == fx.amount_fp
                    },
                    None => fx.amount_fp == 0,
                }
            },
            Err(e) => {
                &&& *final(pos) == *old(pos)
                &&& Some(e) == redeem_error(*m, *old(pos), *accs)
            },
        },
{
    if m.outcome == Outcome::Unresolved {
        return Err(AmmError::Unsettled);
    }
    if pos.owner != accs.user {
        return Err(AmmError::Unauthorized);
    }
    if pos.market != accs.market_key {
        return Err(AmmError::WrongMarket);
    }
    let amount = if m.outcome == Outcome::Hit {
        pos.hit_shares_fp
    } else {
        pos.miss_shares_fp
    };
    pos.hit_shares_fp = 0;
    pos.miss_shares_fp = 0;
    let amount_fp = amount as u64;
    let record = if amount_fp > 0 {
        Some(Redeemed { market: accs.market_key, user: accs.user, amount_fp })
    } else {
        None
    };
    Ok(RedeemEffects { amount_fp, record })
}

} // verus!

use vstd::prelude::*;

verus! {

/// All share and currency quantities are fixed-point integers scaled by
/// one million: one whole share (or one whole unit of currency) is
/// `1_000_000` in storage.
pub const FP_SCALER: i128 = 1_000_000;

/// Smallest admissible liquidity parameter, fixed-point.
pub const MIN_B_FP: i128 = 10_000;

/// Largest admissible liquidity parameter, fixed-point.
pub const MAX_B_FP: i128 = 1_000_000_000_000;

/// Fee ceiling, in basis points.
pub const MAX_FEE_BPS: u16 = 10_000;

/// Ceiling on an aggregate side quantity. Aggregates are kept below this
/// bound so that every intermediate of the cost function fits comfortably
/// in 128 bits; a trade that would push an aggregate past it is refused
/// with an arithmetic error instead of wrapping.
pub const MAX_Q_FP: i128 = 1_000_000_000_000_000_000_000_000_000_000;

/// Domain bound of the pricing functions. Strictly wider than `MAX_Q_FP`
/// plus the largest possible single-trade quantity (a `u64`), so pricing
/// a candidate trade against a well-formed market never leaves the domain.
pub const MAX_PRICING_Q_FP: i128 = 2_000_000_000_000_000_000_000_000_000_000;

/// An opaque account identity. The engine never inspects one beyond
/// comparing it against a stored identity; proof of control is the
/// host's responsibility.
#[derive(Clone, Copy, Debug, PartialEq, Eq, Structural)]
pub struct AccountId {
    pub id: u64,
}

impl AccountId {
    /// The all-zero identity that marks a freshly allocated, not yet
    /// claimed position record.
    pub fn unset() -> (r: AccountId)
        ensures
            r.id == 0,
    {
        AccountId { id: 0 }
    }
}

/// Terminal state of a market. Set at most once, never reversed.
#[derive(Clone, Copy, Debug, PartialEq, Eq, Structural)]
pub enum Outcome {
    Unresolved,
    Hit,
    Miss,
}

/// The side of the book a trade acts on.
#[derive(Clone, Copy, Debug, PartialEq, Eq, Structural)]
pub enum Side {
    Hit,
    Miss,
}

/// One market record: LMSR parameters, lifecycle flags, aggregate share
/// quantities and risk limits. One exists per milestone being traded.
#[derive(Clone, Debug)]
pub struct Market {
    pub authority: AccountId,
    pub usdc_mint: AccountId,
    pub vault_usdc: AccountId,
    pub b_fp: i128,
    pub fee_bps: u16,
    pub deadline_ts: i64,
    pub grace_period_secs: i64,
    pub outcome: Outcome,
    pub q_hit_fp: i128,
    pub q_miss_fp: i128,
    pub paused: bool,
    pub max_trade_usdc_fp: i128,
    pub max_position_shares_fp: i128,
    pub treasury: Option<AccountId>,
    pub milestone_id: Vec<u8>,
    pub liquidity_usdc_fp: i128,
    pub oracle_signer: Option<AccountId>,
    pub bump: u8,
}

/// Everything a well-formed market guarantees: parameters inside their
/// validated ranges and aggregates inside the arithmetic envelope. Market
/// creation establishes it and every operation preserves it.
pub open spec fn market_wf(m: Market) -> bool {
    &&& MIN_B_FP <= m.b_fp <= MAX_B_FP
    &&& m.fee_bps <= MAX_FEE_BPS
    &&& 0 <= m.q_hit_fp <= MAX_Q_FP
    &&& 0 <= m.q_miss_fp <= MAX_Q_FP
    &&& 0 <= m.max_trade_usdc_fp <= u64::MAX
    &&& 0 <= m.max_position_shares_fp <= u64::MAX
    &&& 0 <= m.liquidity_usdc_fp
}

/// One per (market, user) pair, created zeroed on the user's first trade.
#[derive(Clone, Copy, Debug)]
pub struct Position {
    pub owner: AccountId,
    pub market: AccountId,
    pub hit_shares_fp: i128,
    pub miss_shares_fp: i128,
}

/// Share balances never go negative and never exceed the widest cap a
/// market can be configured with.
pub open spec fn position_wf(p: Position) -> bool {
    &&& 0 <= p.hit_shares_fp <= u64::MAX
    &&& 0 <= p.miss_shares_fp <= u64::MAX
}

/// Parameters chosen by the authority at market creation.
#[derive(Clone, Copy, Debug)]
pub struct InitParams {
    pub b_fp: u64,
    pub fee_bps: u16,
    pub deadline_ts: i64,
    pub grace_period_secs: i64,
    pub max_trade_usdc_fp: u64,
    pub max_position_shares_fp: u64,
    pub treasury: Option<AccountId>,
}

/// Partial update of the administrable parameters; `None` leaves the
/// field unchanged.
#[derive(Clone, Copy, Debug)]
pub struct UpdateParams {
    pub b_fp: Option<u64>,
    pub fee_bps: Option<u16>,
    pub deadline_ts: Option<i64>,
    pub grace_period_secs: Option<i64>,
    pub max_trade_usdc_fp: Option<u64>,
    pub max_position_shares_fp: Option<u64>,
    pub treasury: Option<AccountId>,
    pub oracle_signer: Option<AccountId>,
}

/// Identities involved in creating a market.
#[derive(Clone, Copy, Debug)]
pub struct InitMarket {
    pub authority: AccountId,
    pub usdc_mint: AccountId,
    pub vault_usdc: AccountId,
    pub market_key: AccountId,
    pub bump: u8,
}

/// Identities involved in seeding liquidity.
#[derive(Clone, Copy, Debug)]
pub struct SeedLiquidity {
    pub authority: AccountId,
}

/// Identities involved in a trade: the signing user, the address of the
/// market record, the user's currency account (its owner and mint), and
/// the vault account the caller supplied.
#[derive(Clone, Copy, Debug)]
pub struct Trade {
    pub user: AccountId,
    pub market_key: AccountId,
    pub user_usdc_owner: AccountId,
    pub user_usdc_mint: AccountId,
    pub vault_usdc: AccountId,
}

/// Identities involved in settlement: either signer may be absent.
#[derive(Clone, Copy, Debug)]
pub struct Settle {
    pub market_key: AccountId,
    pub authority: Option<AccountId>,
    pub oracle_signer: Option<AccountId>,
}

/// Identities involved in redemption.
#[derive(Clone, Copy, Debug)]
pub struct Redeem {
    pub user: AccountId,
    pub market_key: AccountId,
}

/// Identities involved in an administrative action.
#[derive(Clone, Copy, Debug)]
pub struct AdminAuth {
    pub market_key: AccountId,
    pub authority: AccountId,
}

/// Record of a market's creation.
#[derive(Clone, Copy, Debug, PartialEq, Eq, Structural)]
pub struct MarketInitialized {
    pub market: AccountId,
    pub b_fp: i64,
    pub fee_bps: u16,
    pub deadline_ts: i64,
}

/// Record of one executed trade: realised cost, shares, fee, and the
/// post-trade price of Hit in thousandths.
#[derive(Clone, Copy, Debug, PartialEq, Eq, Structural)]
pub struct TradeEvent {
    pub market: AccountId,
    pub user: AccountId,
    pub side: Side,
    pub is_buy: bool,
    pub usdc_fp: u64,
    pub shares_fp: u64,
    pub fee_fp: u64,
    pub p_hit_milli: i64,
}

/// Record of a settlement.
#[derive(Clone, Copy, Debug, PartialEq, Eq, Structural)]
pub struct Settled {
    pub market: AccountId,
    pub outcome: Outcome,
}

/// Record of a non-zero redemption.
#[derive(Clone, Copy, Debug, PartialEq, Eq, Structural)]
pub struct Redeemed {
    pub market: AccountId,
    pub user: AccountId,
    pub amount_fp: u64,
}

/// Record of a pause toggle.
#[derive(Clone, Copy, Debug, PartialEq, Eq, Structural)]
pub struct Paused {
    pub market: AccountId,
    pub paused: bool,
}

} // verus!

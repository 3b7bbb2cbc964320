use vstd::prelude::*;

verus! {

/// Every way an operation can be refused. A failed operation leaves the
/// market and position records exactly as they were.
#[derive(Clone, Copy, Debug, PartialEq, Eq, Structural)]
pub enum AmmError {
    /// An intermediate quantity left its valid range.
    MathOverflow,
    /// A buy offered more than `max_trade_usdc_fp`.
    TradeTooLarge,
    /// A trade would push the position past `max_position_shares_fp`.
    PositionTooLarge,
    /// Trading was attempted at or past the deadline, or a market was
    /// created with a deadline already in the past.
    AfterDeadline,
    /// Settlement was attempted before the grace window elapsed.
    BeforeSettlementWindow,
    /// Settlement was requested with an outcome other than Hit or Miss.
    InvalidOutcome,
    /// A sell asked for more shares than the position holds.
    InsufficientBalance,
    /// The realised result fell below the caller's floor.
    Slippage,
    /// The market's trading gate is closed.
    Paused,
    /// The caller's identity matches neither the required authority
    /// nor the position owner.
    Unauthorized,
    /// The market already has a terminal outcome.
    AlreadySettled,
    /// Redemption was attempted while the market is unresolved.
    Unsettled,
    /// A parameter update tried to move the deadline backwards.
    InvalidUpdate,
    /// The liquidity parameter is outside its valid range.
    InvalidB,
    /// The fee exceeds 10,000 basis points.
    InvalidFee,
    /// The supplied vault account is not the market's vault.
    WrongVault,
    /// The supplied token account is in the wrong currency.
    WrongMint,
    /// The supplied token account does not belong to the caller.
    InvalidOwner,
    /// The position belongs to a different market.
    WrongMarket,
    /// The payment collected does not cover cost plus fee.
    InsufficientPayment,
    /// A sell of zero shares.
    InvalidAmount,
}

} // verus!

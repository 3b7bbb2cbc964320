use milestone_amm::errors::AmmError;
use milestone_amm::lifecycle::{
    admin_set_paused, admin_update_params, init_market, seed_liquidity, settle_market,
};
use milestone_amm::model::{
    AccountId, AdminAuth, InitMarket, InitParams, Market, Outcome, Position, Redeem, SeedLiquidity,
    Settle, Side, Trade, UpdateParams,
};
use milestone_amm::redeem::redeem;
use milestone_amm::trade::{buy, position_side_shares, sell};

const B: u64 = 100_000_000;

fn id(n: u64) -> AccountId {
    AccountId { id: n }
}

fn params() -> InitParams {
    InitParams {
        b_fp: B,
        fee_bps: 0,
        deadline_ts: 1_000_000,
        grace_period_secs: 600,
        max_trade_usdc_fp: 1_000_000_000,
        max_position_shares_fp: 1_000_000_000_000,
        treasury: None,
    }
}

fn accounts() -> InitMarket {
    InitMarket {
        authority: id(1),
        usdc_mint: id(2),
        vault_usdc: id(3),
        market_key: id(4),
        bump: 255,
    }
}

fn fresh_market() -> Market {
    let (m, _) = init_market(&accounts(), &params(), vec![7, 7], 100).unwrap();
    m
}

fn fresh_position() -> Position {
    Position { owner: id(0), market: id(0), hit_shares_fp: 0, miss_shares_fp: 0 }
}

fn trader(user: u64) -> Trade {
    Trade {
        user: id(user),
        market_key: id(4),
        user_usdc_owner: id(user),
        user_usdc_mint: id(2),
        vault_usdc: id(3),
    }
}

#[test]
fn init_validates_the_liquidity_parameter() {
    let mut p = params();
    p.b_fp = 9_999;
    assert_eq!(init_market(&accounts(), &p, vec![], 100).unwrap_err(), AmmError::InvalidB);
    p.b_fp = 1_000_000_000_001;
    assert_eq!(init_market(&accounts(), &p, vec![], 100).unwrap_err(), AmmError::InvalidB);
}

#[test]
fn init_validates_fee_and_deadline() {
    let mut p = params();
    p.fee_bps = 10_001;
    assert_eq!(init_market(&accounts(), &p, vec![], 100).unwrap_err(), AmmError::InvalidFee);
    let mut p = params();
    p.deadline_ts = 100;
    assert_eq!(init_market(&accounts(), &p, vec![], 100).unwrap_err(), AmmError::AfterDeadline);
}

#[test]
fn init_builds_the_record_and_notice() {
    let (m, ev) = init_market(&accounts(), &params(), vec![9], 100).unwrap();
    assert_eq!(m.authority, id(1));
    assert_eq!(m.b_fp, B as i128);
    assert_eq!(m.outcome, Outcome::Unresolved);
    assert_eq!(m.q_hit_fp, 0);
    assert_eq!(m.q_miss_fp, 0);
    assert!(!m.paused);
    assert_eq!(m.milestone_id, vec![9]);
    assert_eq!(ev.market, id(4));
    assert_eq!(ev.b_fp, B as i64);
}

#[test]
fn buy_collects_payment_and_credits_shares() {
    let mut m = fresh_market();
    let mut pos = fresh_position();
    let fx = buy(&mut m, &mut pos, &trader(10), Side::Hit, 10_000_000, 0, 500).unwrap();
    assert_eq!(fx.record.shares_fp, 18_826_401);
    assert_eq!(fx.record.usdc_fp, 10_000_000);
    assert_eq!(fx.record.fee_fp, 0);
    assert_eq!(fx.collect_usdc_fp, 10_000_000);
    assert_eq!(fx.payout_usdc_fp, 0);
    assert_eq!(fx.fee_to_treasury_fp, 0);
    assert!(fx.record.is_buy);
    assert_eq!(fx.record.p_hit_milli, 546);
    assert_eq!(m.q_hit_fp, 18_826_401);
    assert_eq!(m.q_miss_fp, 0);
    assert_eq!(pos.owner, id(10));
    assert_eq!(pos.market, id(4));
    assert_eq!(pos.hit_shares_fp, 18_826_401);
    assert_eq!(pos.miss_shares_fp, 0);
}

#[test]
fn zero_fee_round_trip_returns_the_payment() {
    let mut m = fresh_market();
    let mut pos = fresh_position();
    let bought = buy(&mut m, &mut pos, &trader(10), Side::Hit, 10_000_000, 0, 500).unwrap();
    let dq = bought.record.shares_fp;
    let sold = sell(&mut m, &mut pos, &trader(10), Side::Hit, dq, 0, 500).unwrap();
    assert_eq!(sold.payout_usdc_fp, bought.record.usdc_fp);
    assert_eq!(sold.payout_usdc_fp, 10_000_000);
    assert_eq!(m.q_hit_fp, 0);
    assert_eq!(pos.hit_shares_fp, 0);
}

#[test]
fn fee_is_charged_on_the_realised_cost() {
    let mut p = params();
    p.fee_bps = 100;
    p.treasury = Some(id(9));
    let (mut m, _) = init_market(&accounts(), &p, vec![], 100).unwrap();
    let mut pos = fresh_position();
    let fx = buy(&mut m, &mut pos, &trader(10), Side::Hit, 10_000_000, 0, 500).unwrap();
    assert_eq!(fx.record.shares_fp, 18_640_001);
    assert_eq!(fx.record.usdc_fp, 9_900_990);
    assert_eq!(fx.record.fee_fp, 99_009);
    assert_eq!(fx.fee_to_treasury_fp, 99_009);
    assert!(fx.record.usdc_fp + fx.record.fee_fp <= 10_000_000);
}

#[test]
fn fee_without_treasury_stays_in_the_vault() {
    let mut p = params();
    p.fee_bps = 100;
    let (mut m, _) = init_market(&accounts(), &p, vec![], 100).unwrap();
    let mut pos = fresh_position();
    let fx = buy(&mut m, &mut pos, &trader(10), Side::Hit, 10_000_000, 0, 500).unwrap();
    assert_eq!(fx.record.fee_fp, 99_009);
    assert_eq!(fx.fee_to_treasury_fp, 0);
}

#[test]
fn oversized_buy_fails_before_any_fund_movement() {
    let mut m = fresh_market();
    let snapshot = m.clone();
    let mut pos = fresh_position();
    let r = buy(&mut m, &mut pos, &trader(10), Side::Hit, 2_000_000_000, 0, 500);
    assert_eq!(r.unwrap_err(), AmmError::TradeTooLarge);
    assert_eq!(m.q_hit_fp, snapshot.q_hit_fp);
    assert_eq!(m.q_miss_fp, snapshot.q_miss_fp);
    assert_eq!(pos.owner, id(0));
    assert_eq!(pos.hit_shares_fp, 0);
}

#[test]
fn buy_respects_the_slippage_floor() {
    let mut m = fresh_market();
    let mut pos = fresh_position();
    let r = buy(&mut m, &mut pos, &trader(10), Side::Hit, 10_000_000, 20_000_000, 500);
    assert_eq!(r.unwrap_err(), AmmError::Slippage);
}

#[test]
fn buy_gate_errors_in_order() {
    let mut m = fresh_market();
    m.paused = true;
    let mut pos = fresh_position();
    let r = buy(&mut m, &mut pos, &trader(10), Side::Hit, 1_000_000, 0, 500);
    assert_eq!(r.unwrap_err(), AmmError::Paused);
    let mut m = fresh_market();
    let r = buy(&mut m, &mut pos, &trader(10), Side::Hit, 1_000_000, 0, 1_000_000);
    assert_eq!(r.unwrap_err(), AmmError::AfterDeadline);
    let mut wrong = trader(10);
    wrong.user_usdc_owner = id(11);
    let r = buy(&mut m, &mut pos, &wrong, Side::Hit, 1_000_000, 0, 500);
    assert_eq!(r.unwrap_err(), AmmError::InvalidOwner);
    let mut wrong = trader(10);
    wrong.user_usdc_mint = id(12);
    let r = buy(&mut m, &mut pos, &wrong, Side::Hit, 1_000_000, 0, 500);
    assert_eq!(r.unwrap_err(), AmmError::WrongMint);
    let mut wrong = trader(10);
    wrong.vault_usdc = id(13);
    let r = buy(&mut m, &mut pos, &wrong, Side::Hit, 1_000_000, 0, 500);
    assert_eq!(r.unwrap_err(), AmmError::WrongVault);
}

#[test]
fn buy_rejects_a_foreign_position() {
    let mut m = fresh_market();
    let mut pos = fresh_position();
    buy(&mut m, &mut pos, &trader(10), Side::Hit, 1_000_000, 0, 500).unwrap();
    let r = buy(&mut m, &mut pos, &trader(11), Side::Hit, 1_000_000, 0, 500);
    assert_eq!(r.unwrap_err(), AmmError::Unauthorized);
    pos.market = id(99);
    let r = buy(&mut m, &mut pos, &trader(10), Side::Hit, 1_000_000, 0, 500);
    assert_eq!(r.unwrap_err(), AmmError::WrongMarket);
}

#[test]
fn buy_is_capped_by_the_position_limit() {
    let mut p = params();
    p.max_position_shares_fp = 5_000_000;
    let (mut m, _) = init_market(&accounts(), &p, vec![], 100).unwrap();
    let mut pos = fresh_position();
    let fx = buy(&mut m, &mut pos, &trader(10), Side::Hit, 10_000_000, 0, 500).unwrap();
    assert_eq!(fx.record.shares_fp, 5_000_000);
    assert!(pos.hit_shares_fp <= 5_000_000);
    // the position is now full: another paid buy is refused
    let r = buy(&mut m, &mut pos, &trader(10), Side::Hit, 10_000_000, 0, 500);
    assert_eq!(r.unwrap_err(), AmmError::PositionTooLarge);
}

#[test]
fn buy_refuses_an_aggregate_past_its_ceiling() {
    let mut m = fresh_market();
    m.q_hit_fp = 999_999_999_999_999_999_999_999_999_000;
    m.max_position_shares_fp = u64::MAX as i128;
    let mut pos = fresh_position();
    let r = buy(&mut m, &mut pos, &trader(10), Side::Hit, 1_000_000, 0, 500);
    assert_eq!(r.unwrap_err(), AmmError::MathOverflow);
}

#[test]
fn sell_pays_the_cost_decrease_minus_fee() {
    let mut p = params();
    p.fee_bps = 100;
    p.treasury = Some(id(9));
    let (mut m, _) = init_market(&accounts(), &p, vec![], 100).unwrap();
    let mut pos = fresh_position();
    let bought = buy(&mut m, &mut pos, &trader(10), Side::Hit, 10_000_000, 0, 500).unwrap();
    let dq = bought.record.shares_fp;
    let sold = sell(&mut m, &mut pos, &trader(10), Side::Hit, dq, 0, 500).unwrap();
    assert_eq!(sold.record.usdc_fp, 9_900_990);
    assert_eq!(sold.record.fee_fp, 99_009);
    assert_eq!(sold.payout_usdc_fp, 9_900_990 - 99_009);
    assert_eq!(sold.fee_to_treasury_fp, 99_009);
    assert_eq!(sold.collect_usdc_fp, 0);
    assert!(!sold.record.is_buy);
    assert_eq!(m.q_hit_fp, 0);
    assert_eq!(pos.hit_shares_fp, 0);
}

#[test]
fn sell_requires_a_positive_amount_and_a_balance() {
    let mut m = fresh_market();
    let mut pos = fresh_position();
    buy(&mut m, &mut pos, &trader(10), Side::Hit, 10_000_000, 0, 500).unwrap();
    let r = sell(&mut m, &mut pos, &trader(10), Side::Hit, 0, 0, 500);
    assert_eq!(r.unwrap_err(), AmmError::InvalidAmount);
    let r = sell(&mut m, &mut pos, &trader(10), Side::Miss, 1_000_000, 0, 500);
    assert_eq!(r.unwrap_err(), AmmError::InsufficientBalance);
    let r = sell(&mut m, &mut pos, &trader(10), Side::Hit, 50_000_000, 0, 500);
    assert_eq!(r.unwrap_err(), AmmError::InsufficientBalance);
}

#[test]
fn sell_respects_the_slippage_floor() {
    let mut m = fresh_market();
    let mut pos = fresh_position();
    let bought = buy(&mut m, &mut pos, &trader(10), Side::Hit, 10_000_000, 0, 500).unwrap();
    let r = sell(&mut m, &mut pos, &trader(10), Side::Hit, bought.record.shares_fp, 20_000_000, 500);
    assert_eq!(r.unwrap_err(), AmmError::Slippage);
}

#[test]
fn sell_refuses_more_than_the_aggregate_holds() {
    let mut m = fresh_market();
    m.q_hit_fp = 1_000_000;
    let mut pos = Position {
        owner: id(10),
        market: id(4),
        hit_shares_fp: 5_000_000,
        miss_shares_fp: 0,
    };
    let r = sell(&mut m, &mut pos, &trader(10), Side::Hit, 5_000_000, 0, 500);
    assert_eq!(r.unwrap_err(), AmmError::MathOverflow);
}

#[test]
fn position_side_shares_reads_the_chosen_side() {
    let pos = Position { owner: id(10), market: id(4), hit_shares_fp: 7, miss_shares_fp: 9 };
    assert_eq!(position_side_shares(&pos, Side::Hit), 7);
    assert_eq!(position_side_shares(&pos, Side::Miss), 9);
}

fn settler(auth: Option<u64>, oracle: Option<u64>) -> Settle {
    Settle {
        market_key: id(4),
        authority: auth.map(|n| id(n)),
        oracle_signer: oracle.map(|n| id(n)),
    }
}

#[test]
fn settlement_happens_exactly_once() {
    let mut m = fresh_market();
    // too early: the grace window has not elapsed
    let r = settle_market(&mut m, &settler(Some(1), None), Outcome::Hit, 1_000_100);
    assert_eq!(r.unwrap_err(), AmmError::BeforeSettlementWindow);
    // wrong identity
    let r = settle_market(&mut m, &settler(Some(2), None), Outcome::Hit, 1_000_600);
    assert_eq!(r.unwrap_err(), AmmError::Unauthorized);
    // no terminal outcome requested
    let r = settle_market(&mut m, &settler(Some(1), None), Outcome::Unresolved, 1_000_600);
    assert_eq!(r.unwrap_err(), AmmError::InvalidOutcome);
    // the authority settles at deadline + grace
    let ev = settle_market(&mut m, &settler(Some(1), None), Outcome::Hit, 1_000_600).unwrap();
    assert_eq!(ev.outcome, Outcome::Hit);
    assert_eq!(m.outcome, Outcome::Hit);
    assert!(m.paused);
    // any second attempt fails as already settled
    let r = settle_market(&mut m, &settler(Some(1), None), Outcome::Miss, 2_000_000);
    assert_eq!(r.unwrap_err(), AmmError::AlreadySettled);
    assert_eq!(m.outcome, Outcome::Hit);
}

#[test]
fn a_configured_oracle_may_settle() {
    let mut m = fresh_market();
    let upd = UpdateParams {
        b_fp: None,
        fee_bps: None,
        deadline_ts: None,
        grace_period_secs: None,
        max_trade_usdc_fp: None,
        max_position_shares_fp: None,
        treasury: None,
        oracle_signer: Some(id(8)),
    };
    admin_update_params(&mut m, &AdminAuth { market_key: id(4), authority: id(1) }, &upd).unwrap();
    // the oracle alone is not enough before configuration takes effect for others
    let r = settle_market(&mut m, &settler(None, Some(7)), Outcome::Miss, 1_000_600);
    assert_eq!(r.unwrap_err(), AmmError::Unauthorized);
    settle_market(&mut m, &settler(None, Some(8)), Outcome::Miss, 1_000_600).unwrap();
    assert_eq!(m.outcome, Outcome::Miss);
}

#[test]
fn trading_is_refused_after_settlement() {
    let mut m = fresh_market();
    settle_market(&mut m, &settler(Some(1), None), Outcome::Hit, 1_000_600).unwrap();
    let mut pos = fresh_position();
    // the settlement pause gates first
    let r = buy(&mut m, &mut pos, &trader(10), Side::Hit, 1_000_000, 0, 500);
    assert_eq!(r.unwrap_err(), AmmError::Paused);
    m.paused = false;
    let r = buy(&mut m, &mut pos, &trader(10), Side::Hit, 1_000_000, 0, 500);
    assert_eq!(r.unwrap_err(), AmmError::AlreadySettled);
}

#[test]
fn redemption_pays_the_winning_side_and_closes_the_position() {
    let mut m = fresh_market();
    let mut pos = fresh_position();
    buy(&mut m, &mut pos, &trader(10), Side::Hit, 10_000_000, 0, 500).unwrap();
    let held = pos.hit_shares_fp as u64;
    let accs = Redeem { user: id(10), market_key: id(4) };
    // not yet settled
    assert_eq!(redeem(&m, &mut pos, &accs).unwrap_err(), AmmError::Unsettled);
    settle_market(&mut m, &settler(Some(1), None), Outcome::Hit, 1_000_600).unwrap();
    // wrong caller, wrong market binding
    let r = redeem(&m, &mut pos, &Redeem { user: id(11), market_key: id(4) });
    assert_eq!(r.unwrap_err(), AmmError::Unauthorized);
    let r = redeem(&m, &mut pos, &Redeem { user: id(10), market_key: id(5) });
    assert_eq!(r.unwrap_err(), AmmError::WrongMarket);
    // pays exactly the pre-call winning balance and zeroes both sides
    let fx = redeem(&m, &mut pos, &accs).unwrap();
    assert_eq!(fx.amount_fp, held);
    assert_eq!(pos.hit_shares_fp, 0);
    assert_eq!(pos.miss_shares_fp, 0);
    let ev = fx.record.unwrap();
    assert_eq!(ev.amount_fp, held);
    assert_eq!(ev.user, id(10));
    // a second redemption succeeds, pays nothing, and emits nothing
    let fx2 = redeem(&m, &mut pos, &accs).unwrap();
    assert_eq!(fx2.amount_fp, 0);
    assert!(fx2.record.is_none());
}

#[test]
fn losing_side_redeems_to_nothing() {
    let mut m = fresh_market();
    let mut pos = fresh_position();
    buy(&mut m, &mut pos, &trader(10), Side::Miss, 10_000_000, 0, 500).unwrap();
    settle_market(&mut m, &settler(Some(1), None), Outcome::Hit, 1_000_600).unwrap();
    let fx = redeem(&m, &mut pos, &Redeem { user: id(10), market_key: id(4) }).unwrap();
    assert_eq!(fx.amount_fp, 0);
    assert!(fx.record.is_none());
    assert_eq!(pos.miss_shares_fp, 0);
}

#[test]
fn pause_gate_is_authority_only() {
    let mut m = fresh_market();
    let r = admin_set_paused(&mut m, &AdminAuth { market_key: id(4), authority: id(2) }, true);
    assert_eq!(r.unwrap_err(), AmmError::Unauthorized);
    let ev = admin_set_paused(&mut m, &AdminAuth { market_key: id(4), authority: id(1) }, true)
        .unwrap();
    assert!(ev.paused);
    assert!(m.paused);
    admin_set_paused(&mut m, &AdminAuth { market_key: id(4), authority: id(1) }, false).unwrap();
    assert!(!m.paused);
}

fn no_update() -> UpdateParams {
    UpdateParams {
        b_fp: None,
        fee_bps: None,
        deadline_ts: None,
        grace_period_secs: None,
        max_trade_usdc_fp: None,
        max_position_shares_fp: None,
        treasury: None,
        oracle_signer: None,
    }
}

#[test]
fn parameter_updates_are_validated_and_partial() {
    let mut m = fresh_market();
    let admin = AdminAuth { market_key: id(4), authority: id(1) };
    let outsider = AdminAuth { market_key: id(4), authority: id(2) };
    assert_eq!(
        admin_update_params(&mut m, &outsider, &no_update()).unwrap_err(),
        AmmError::Unauthorized
    );
    let mut upd = no_update();
    upd.b_fp = Some(1);
    assert_eq!(admin_update_params(&mut m, &admin, &upd).unwrap_err(), AmmError::InvalidB);
    let mut upd = no_update();
    upd.fee_bps = Some(10_001);
    assert_eq!(admin_update_params(&mut m, &admin, &upd).unwrap_err(), AmmError::InvalidFee);
    let mut upd = no_update();
    upd.deadline_ts = Some(999_999);
    assert_eq!(admin_update_params(&mut m, &admin, &upd).unwrap_err(), AmmError::InvalidUpdate);
    assert_eq!(m.deadline_ts, 1_000_000);
    // a partial update touches only the supplied fields
    let mut upd = no_update();
    upd.fee_bps = Some(250);
    upd.deadline_ts = Some(2_000_000);
    upd.treasury = Some(id(9));
    admin_update_params(&mut m, &admin, &upd).unwrap();
    assert_eq!(m.fee_bps, 250);
    assert_eq!(m.deadline_ts, 2_000_000);
    assert_eq!(m.treasury, Some(id(9)));
    assert_eq!(m.b_fp, B as i128);
    assert_eq!(m.grace_period_secs, 600);
}

#[test]
fn seeding_liquidity_is_authority_only_and_gated() {
    let mut m = fresh_market();
    let r = seed_liquidity(&mut m, &SeedLiquidity { authority: id(2) }, 5_000_000);
    assert_eq!(r.unwrap_err(), AmmError::Unauthorized);
    m.paused = true;
    let r = seed_liquidity(&mut m, &SeedLiquidity { authority: id(1) }, 5_000_000);
    assert_eq!(r.unwrap_err(), AmmError::Paused);
    m.paused = false;
    seed_liquidity(&mut m, &SeedLiquidity { authority: id(1) }, 5_000_000).unwrap();
    seed_liquidity(&mut m, &SeedLiquidity { authority: id(1) }, 2_000_000).unwrap();
    assert_eq!(m.liquidity_usdc_fp, 7_000_000);
}

#[test]
fn zero_payment_buy_is_a_noop_success() {
    let mut m = fresh_market();
    let mut pos = fresh_position();
    let fx = buy(&mut m, &mut pos, &trader(10), Side::Hit, 0, 0, 500).unwrap();
    assert_eq!(fx.record.shares_fp, 0);
    assert_eq!(fx.record.usdc_fp, 0);
    assert_eq!(fx.collect_usdc_fp, 0);
    assert_eq!(m.q_hit_fp, 0);
    // the position is still claimed by the trade
    assert_eq!(pos.owner, id(10));
}

#[test]
fn buying_miss_pushes_the_hit_price_down() {
    let mut m = fresh_market();
    let mut pos = fresh_position();
    let fx = buy(&mut m, &mut pos, &trader(10), Side::Miss, 10_000_000, 0, 500).unwrap();
    assert_eq!(m.q_miss_fp, fx.record.shares_fp as i128);
    assert_eq!(m.q_hit_fp, 0);
    assert_eq!(pos.miss_shares_fp, fx.record.shares_fp as i128);
    assert!(fx.record.p_hit_milli < 500);
}

#[test]
fn consecutive_buys_accumulate() {
    let mut m = fresh_market();
    let mut pos = fresh_position();
    let a = buy(&mut m, &mut pos, &trader(10), Side::Hit, 100_000_000, 0, 500).unwrap();
    let b = buy(&mut m, &mut pos, &trader(10), Side::Hit, 100_000_000, 0, 500).unwrap();
    assert_eq!(a.record.shares_fp, 148_964_066);
    assert_eq!(b.record.shares_fp, 113_291_222);
    assert_eq!(m.q_hit_fp, (a.record.shares_fp + b.record.shares_fp) as i128);
    assert_eq!(pos.hit_shares_fp, m.q_hit_fp);
    // the curve got more expensive, so the second payment buys fewer shares
    assert!(b.record.shares_fp < a.record.shares_fp);
}

#[test]
fn zero_payment_buy_still_enforces_a_lowered_cap() {
    // the cap was lowered below an existing balance: even a zero buy is
    // refused at commit time
    let mut m = fresh_market();
    m.max_position_shares_fp = 5_000_000;
    let mut pos = Position {
        owner: id(10),
        market: id(4),
        hit_shares_fp: 10_000_000,
        miss_shares_fp: 0,
    };
    let r = buy(&mut m, &mut pos, &trader(10), Side::Hit, 0, 0, 500);
    assert_eq!(r.unwrap_err(), AmmError::PositionTooLarge);
    assert_eq!(pos.hit_shares_fp, 10_000_000);
}

#[test]
fn selling_is_gated_by_the_deadline_too() {
    let mut m = fresh_market();
    let mut pos = fresh_position();
    buy(&mut m, &mut pos, &trader(10), Side::Hit, 10_000_000, 0, 500).unwrap();
    let r = sell(&mut m, &mut pos, &trader(10), Side::Hit, 1_000_000, 0, 1_000_000);
    assert_eq!(r.unwrap_err(), AmmError::AfterDeadline);
}

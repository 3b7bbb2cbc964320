use milestone_amm::errors::AmmError;
use milestone_amm::model::Side;
use milestone_amm::pricing::{lmsr_cost, lmsr_delta_cost, lmsr_price_hit};
use milestone_amm::solver::solve_delta_q_bisect;

// b = 100 at the fixed-point scale of one million.
const B: i128 = 100_000_000;
const MAX_POS: i128 = 1_000_000_000_000;

#[test]
fn cost_of_empty_book_is_b_ln_two() {
    // C(0, 0) = b * ln 2 = 69.314718... for b = 100, exact to the unit.
    assert_eq!(lmsr_cost(B, 0, 0), 69_314_718);
}

#[test]
fn cost_is_symmetric_in_the_sides() {
    let qh = 250_000_000;
    let qm = 100_000_000;
    assert_eq!(lmsr_cost(B, qh, qm), lmsr_cost(B, qm, qh));
    assert_eq!(lmsr_cost(B, qh, qm), 270_141_328);
}

#[test]
fn cost_never_falls_below_the_larger_side() {
    let c = lmsr_cost(B, 900_000_000, 100_000_000);
    assert!(c >= 900_000_000);
    assert!(c <= 900_000_000 + B);
}

#[test]
fn balanced_price_is_exactly_one_half() {
    assert_eq!(lmsr_price_hit(B, 0, 0), 500_000);
    assert_eq!(lmsr_price_hit(B, 42_000_000, 42_000_000), 500_000);
}

#[test]
fn prices_of_the_two_sides_sum_to_one() {
    let qh = 250_000_000;
    let qm = 100_000_000;
    let p_hit = lmsr_price_hit(B, qh, qm);
    let p_miss_direct = lmsr_price_hit(B, qm, qh);
    assert_eq!(p_hit, 817_574);
    assert_eq!(p_hit + p_miss_direct, 1_000_000);
}

#[test]
fn price_rises_with_the_hit_side() {
    let p0 = lmsr_price_hit(B, 0, 0);
    let p1 = lmsr_price_hit(B, 100_000_000, 0);
    let p2 = lmsr_price_hit(B, 200_000_000, 0);
    assert!(p0 < p1 && p1 < p2);
    assert!(p2 < 1_000_000);
}

#[test]
fn delta_cost_grows_with_the_quantity() {
    let d1 = lmsr_delta_cost(B, 0, 0, Side::Hit, 1_000_000).unwrap();
    let d2 = lmsr_delta_cost(B, 0, 0, Side::Hit, 2_000_000).unwrap();
    assert_eq!(d1, 531_169);
    assert_eq!(d2, 1_062_338);
    assert!(d1 < d2);
}

#[test]
fn delta_cost_is_bounded_by_the_quantity() {
    let dq = 5_000_000;
    let d = lmsr_delta_cost(B, 300_000_000, 100_000_000, Side::Miss, dq).unwrap();
    assert!(0 <= d && d <= dq);
}

#[test]
fn delta_cost_refuses_a_negative_aggregate() {
    let r = lmsr_delta_cost(B, 10_000_000, 0, Side::Hit, -20_000_000);
    assert_eq!(r, Err(AmmError::MathOverflow));
}

#[test]
fn solver_finds_the_least_sufficient_quantity() {
    let target = 10_000_000;
    let dq = solve_delta_q_bisect(B, 0, 0, Side::Hit, target, MAX_POS, 0).unwrap();
    assert_eq!(dq, 18_826_401);
    let at = lmsr_delta_cost(B, 0, 0, Side::Hit, dq).unwrap();
    let below = lmsr_delta_cost(B, 0, 0, Side::Hit, dq - 1).unwrap();
    assert!(at >= target);
    assert!(below < target);
    assert_eq!(at, 10_000_000);
    assert_eq!(below, 9_999_999);
}

#[test]
fn solver_resolves_a_zero_target_to_zero() {
    assert_eq!(solve_delta_q_bisect(B, 0, 0, Side::Hit, 0, MAX_POS, 0), Ok(0));
}

#[test]
fn solver_refuses_a_negative_target() {
    assert_eq!(
        solve_delta_q_bisect(B, 0, 0, Side::Hit, -1, MAX_POS, 0),
        Err(AmmError::MathOverflow)
    );
}

#[test]
fn solver_refuses_a_full_position() {
    assert_eq!(
        solve_delta_q_bisect(B, 0, 0, Side::Hit, 1_000_000, MAX_POS, MAX_POS),
        Err(AmmError::PositionTooLarge)
    );
}

#[test]
fn solver_caps_at_the_position_headroom() {
    // the target would buy ~18.8 shares, but only 5 fit
    let cap = 5_000_000;
    let dq = solve_delta_q_bisect(B, 0, 0, Side::Hit, 10_000_000, cap, 0).unwrap();
    assert_eq!(dq, cap);
    let cost = lmsr_delta_cost(B, 0, 0, Side::Hit, dq).unwrap();
    assert!(cost < 10_000_000);
}

#[test]
fn rounding_can_price_neighbouring_quantities_equally() {
    // at fixed-point granularity the delta cost is monotone but not
    // strictly so: one and two millionths of a share both round to one
    let d1 = lmsr_delta_cost(B, 0, 0, Side::Hit, 1).unwrap();
    let d2 = lmsr_delta_cost(B, 0, 0, Side::Hit, 2).unwrap();
    assert_eq!(d1, 1);
    assert_eq!(d2, 1);
}

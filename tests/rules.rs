use quadrature::binary64::Binary64;
use quadrature::rules::{
    bound_step, check_step, sweep_continues, delta, max_step, nan_to_zero, normalize, zero, InvalidStep,
};

fn b(x: f64) -> Binary64 {
    Binary64::from_bits(x.to_bits())
}

fn v(x: Binary64) -> f64 {
    f64::from_bits(x.to_bits())
}

fn pair(r: (Binary64, Binary64)) -> (u64, u64) {
    (r.0.to_bits(), r.1.to_bits())
}

#[test]
fn constants_are_the_documented_values() {
    assert_eq!(v(delta()), 1e-6);
    assert_eq!(v(max_step()), 1e-3);
    assert_eq!(zero().to_bits(), 0.0f64.to_bits());
}

#[test]
fn normalize_swaps_descending_bounds() {
    let r = normalize((b(10.0), b(-1.0)));
    assert_eq!(pair(r), (b(-1.0).to_bits(), b(10.0).to_bits()));
}

#[test]
fn normalize_keeps_ascending_bounds() {
    let r = normalize((b(-100.0), b(100.0)));
    assert_eq!(pair(r), (b(-100.0).to_bits(), b(100.0).to_bits()));
}

#[test]
fn normalize_keeps_equal_bounds() {
    let r = normalize((b(3.5), b(3.5)));
    assert_eq!(pair(r), (b(3.5).to_bits(), b(3.5).to_bits()));
    let z = normalize((b(0.0), b(-0.0)));
    assert_eq!(pair(z), (b(0.0).to_bits(), b(-0.0).to_bits()));
}

#[test]
fn normalize_is_order_independent() {
    let cases = [(1.0, -1.0), (100.0, -100.0), (10.0, 0.0), (f64::INFINITY, 2.0), (-1.0, -2.0)];
    for (lo, hi) in cases {
        assert!(lo > hi);
        assert_eq!(pair(normalize((b(lo), b(hi)))), pair(normalize((b(hi), b(lo)))));
    }
}

#[test]
fn normalize_with_nan_keeps_order() {
    let r = normalize((b(f64::NAN), b(1.0)));
    assert!(v(r.0).is_nan());
    assert_eq!(v(r.1), 1.0);
}

#[test]
fn positive_step_accepted() {
    assert_eq!(check_step(b(1e-3)).map(v), Ok(1e-3));
    assert_eq!(check_step(b(5e-324)).map(v), Ok(5e-324));
    assert_eq!(check_step(b(f64::INFINITY)).map(v), Ok(f64::INFINITY));
}

#[test]
fn nonpositive_step_rejected() {
    for s in [0.0, -0.0, -1e-3, -1.0, f64::NEG_INFINITY] {
        assert_eq!(check_step(b(s)).map(v), Err(InvalidStep), "{:?}", s);
    }
}

#[test]
fn nan_step_rejected() {
    assert_eq!(check_step(b(f64::NAN)).map(v), Err(InvalidStep));
}

#[test]
fn nan_estimate_becomes_zero() {
    assert_eq!(nan_to_zero(b(f64::NAN)).to_bits(), 0.0f64.to_bits());
    assert_eq!(nan_to_zero(b(-f64::NAN)).to_bits(), 0.0f64.to_bits());
}

#[test]
fn finite_estimate_kept() {
    for x in [0.0, -0.0, 2.5, -7.0, f64::INFINITY] {
        assert_eq!(nan_to_zero(b(x)).to_bits(), x.to_bits());
    }
}

#[test]
fn bound_step_clamps_to_range() {
    assert_eq!(v(bound_step(b(1.0))), 1e-3);
    assert_eq!(v(bound_step(b(1e-9))), 1e-6);
    assert_eq!(v(bound_step(b(-4.0))), 1e-6);
    assert_eq!(v(bound_step(b(5e-4))), 5e-4);
    assert_eq!(v(bound_step(b(f64::INFINITY))), 1e-3);
}

#[test]
fn bound_step_replaces_nan_by_delta() {
    assert_eq!(v(bound_step(b(f64::NAN))), 1e-6);
}

#[test]
fn bound_step_matches_the_adaptive_formula() {
    // delta / clamp(a - v, delta, max_step), then clamped again.
    for d in [0.0f64, 1e-7, 1e-5, 5e-4, 1.0, -3.0] {
        let q: f64 = 1e-6 / d.clamp(1e-6, 1e-3);
        let mut expected = q.clamp(1e-6, 1e-3);
        if expected.is_nan() {
            expected = 1e-6;
        }
        assert_eq!(v(bound_step(b(q))).to_bits(), expected.to_bits(), "{:?}", d);
    }
}

#[test]
fn sweep_runs_inside_interval() {
    let r = normalize((b(1.0), b(-1.0)));
    assert!(sweep_continues(b(-1.0), r));
    assert!(sweep_continues(b(0.25), r));
    assert!(sweep_continues(b(1.0), r));
    assert!(!sweep_continues(b(1.0 + 1e-3), r));
}

#[test]
fn sweep_takes_no_step_on_zero_length_interval() {
    for x in [0.0, 5.0, -3.0] {
        assert!(!sweep_continues(b(x), normalize((b(x), b(x)))));
    }
    assert!(!sweep_continues(b(0.0), normalize((b(-0.0), b(0.0)))));
}

#[test]
fn sweep_stops_on_nan_bounds() {
    assert!(!sweep_continues(b(0.0), normalize((b(0.0), b(f64::NAN)))));
    assert!(!sweep_continues(b(f64::NAN), normalize((b(0.0), b(1.0)))));
}

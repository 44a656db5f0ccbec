use inspiraview::opacity::effective_opacity;
use inspiraview::opacity::opacity_request;
use inspiraview::opacity::MAX_OPACITY_MILLIS;
use inspiraview::opacity::MIN_OPACITY_MILLIS;

#[test]
fn effective_clamps_low_input() {
    assert_eq!(effective_opacity(0), 300);
}

#[test]
fn effective_clamps_high_input() {
    assert_eq!(effective_opacity(1500), 1000);
}

#[test]
fn effective_keeps_lower_bound() {
    assert_eq!(effective_opacity(300), 300);
}

#[test]
fn effective_keeps_upper_bound() {
    assert_eq!(effective_opacity(1000), 1000);
}

#[test]
fn effective_is_identity_in_range() {
    assert_eq!(effective_opacity(650), 650);
    assert_eq!(effective_opacity(301), 301);
    assert_eq!(effective_opacity(999), 999);
}

#[test]
fn effective_clamps_negative_input() {
    assert_eq!(effective_opacity(-250), 300);
    assert_eq!(effective_opacity(i64::MIN), 300);
    assert_eq!(effective_opacity(i64::MAX), 1000);
}

#[test]
fn effective_matches_float_fractions() {
    // The host hands opacity over as a fraction; in thousandths the observed
    // clamp points are exact.
    let low = (0.0_f64 * 1000.0) as i64;
    let high = (1.5_f64 * 1000.0) as i64;
    assert_eq!(effective_opacity(low), (0.3_f64 * 1000.0) as i64);
    assert_eq!(effective_opacity(high), (1.0_f64 * 1000.0) as i64);
}

#[test]
fn effective_stays_in_bounds() {
    for requested in [-1000_i64, -1, 0, 150, 299, 300, 650, 1000, 1001, 9999] {
        let e = effective_opacity(requested);
        assert!(MIN_OPACITY_MILLIS <= e && e <= MAX_OPACITY_MILLIS);
        if (MIN_OPACITY_MILLIS..=MAX_OPACITY_MILLIS).contains(&requested) {
            assert_eq!(e, requested);
        }
    }
}

#[test]
fn opacity_request_applies_clamped_value_when_supported() {
    assert_eq!(opacity_request(1500, true), Some(1000));
    assert_eq!(opacity_request(650, true), Some(650));
    assert_eq!(opacity_request(0, true), Some(300));
}

#[test]
fn opacity_request_is_a_no_op_when_unsupported() {
    assert_eq!(opacity_request(650, false), None);
    assert_eq!(opacity_request(9999, false), None);
}

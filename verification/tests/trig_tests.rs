use raycaster::trig::{cos_mdeg, direction_angle, norm_mdeg, sin_mdeg, tan_mdeg};

#[test]
fn sine_axis_values_are_exact() {
    assert_eq!(sin_mdeg(0), 0);
    assert_eq!(sin_mdeg(90_000), 1000);
    assert_eq!(sin_mdeg(180_000), 0);
    assert_eq!(sin_mdeg(270_000), -1000);
    assert_eq!(sin_mdeg(360_000), 0);
}

#[test]
fn cosine_axis_values_are_exact() {
    assert_eq!(cos_mdeg(0), 1000);
    assert_eq!(cos_mdeg(90_000), 0);
    assert_eq!(cos_mdeg(180_000), -1000);
    assert_eq!(cos_mdeg(270_000), 0);
}

#[test]
fn sine_of_thirty_degrees_is_exactly_half() {
    // Bhaskara's approximation happens to be exact at 30° and 150°.
    assert_eq!(sin_mdeg(30_000), 500);
    assert_eq!(sin_mdeg(150_000), 500);
    assert_eq!(sin_mdeg(-30_000), -500);
}

#[test]
fn sine_tracks_the_true_value_closely() {
    for deg in 0..360 {
        let a = deg * 1000;
        let s = sin_mdeg(a) as f64 / 1000.0;
        let true_s = (deg as f64).to_radians().sin();
        assert!(
            (s - true_s).abs() < 0.003,
            "sin {} deg: got {}, want {}",
            deg,
            s,
            true_s
        );
    }
}

#[test]
fn tangent_at_forty_five_degrees() {
    assert_eq!(tan_mdeg(45_000), Some(1000));
}

#[test]
fn tangent_undefined_where_cosine_vanishes() {
    assert_eq!(tan_mdeg(90_000), None);
    assert_eq!(tan_mdeg(270_000), None);
}

#[test]
fn norm_wraps_into_one_turn() {
    assert_eq!(norm_mdeg(0), 0);
    assert_eq!(norm_mdeg(360_000), 0);
    assert_eq!(norm_mdeg(-90_000), 270_000);
    assert_eq!(norm_mdeg(725_000), 5_000);
}

#[test]
fn direction_angle_axis_values_are_exact() {
    assert_eq!(direction_angle(0, 1000), 0);
    assert_eq!(direction_angle(1000, 0), 90_000);
    assert_eq!(direction_angle(0, -1000), 180_000);
    assert_eq!(direction_angle(-1000, 0), -90_000);
}

#[test]
fn direction_angle_never_returns_minus_half_turn() {
    // A third-quadrant vector whose tiny y component rounds away lands on
    // the half turn, reported as +180°: the range stays (−180°, 180°].
    assert_eq!(direction_angle(-1, -1_000_000), 180_000);
}

#[test]
fn direction_angle_round_trips_the_helpers() {
    // For every whole-degree angle, the direction of (cos θ, sin θ)
    // recovers θ modulo 360° within tolerance.  The inverse sine is steep
    // where the sine flattens, so milli-unit resolution costs up to a few
    // degrees near 90° and 270°; elsewhere the recovery is much tighter.
    for deg in 0..360 {
        let theta = deg * 1000;
        let s = sin_mdeg(theta);
        let c = cos_mdeg(theta);
        let back = norm_mdeg(direction_angle(s, c));
        let diff = (back - theta).abs();
        let wrapped = diff.min(360_000 - diff);
        assert!(
            wrapped <= 3000,
            "round trip {} deg: came back as {} mdeg",
            deg,
            back
        );
    }
}

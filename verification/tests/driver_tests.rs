use glyphlayout::driver::DriverState;
use glyphlayout::fp::bits_eq;

#[test]
fn bits_eq_matches_floating_point_equality() {
    let values: [f64; 8] = [
        0.0,
        -0.0,
        1.0,
        -1.0,
        f64::NAN,
        f64::INFINITY,
        f64::NEG_INFINITY,
        1.0e-300,
    ];
    for &a in &values {
        for &b in &values {
            assert_eq!(
                bits_eq(a.to_bits(), b.to_bits()),
                a == b,
                "bits_eq disagrees with == on {a} and {b}"
            );
        }
    }
}

#[test]
fn driver_stops_on_repeated_energy() {
    let mut d = DriverState::new();
    assert!(!d.observe((2.5f64).to_bits()));
    assert!(!d.observe((1.25f64).to_bits()));
    assert!(d.observe((1.25f64).to_bits()));
}

#[test]
fn driver_first_observation_never_stops() {
    let mut d = DriverState::new();
    assert!(!d.observe((0.0f64).to_bits()));
}

#[test]
fn driver_treats_both_zeros_as_equal() {
    let mut d = DriverState::new();
    assert!(!d.observe((0.0f64).to_bits()));
    assert!(d.observe((-0.0f64).to_bits()));
}

#[test]
fn driver_never_stops_on_nan() {
    let mut d = DriverState::new();
    assert!(!d.observe(f64::NAN.to_bits()));
    assert!(!d.observe(f64::NAN.to_bits()));
    assert!(!d.observe(f64::NAN.to_bits()));
}

#[test]
fn driver_remembers_last_logged_energy_only() {
    let mut d = DriverState::new();
    assert!(!d.observe((3.0f64).to_bits()));
    assert!(!d.observe((2.0f64).to_bits()));
    // 3.0 was observed two steps ago, not last: no stop
    assert!(!d.observe((3.0f64).to_bits()));
    assert!(d.observe((3.0f64).to_bits()));
}

#[test]
fn driver_frame_indices_count_up_from_zero() {
    let mut d = DriverState::new();
    assert_eq!(d.emit(), 0);
    assert_eq!(d.emit(), 1);
    assert!(!d.observe((1.0f64).to_bits()));
    assert_eq!(d.emit(), 2);
}

use jetgraph::drift::DriftMeter;

#[test]
fn empty_meter_reports_zero() {
    let m = DriftMeter::new();
    assert_eq!(m.get_average(), 0);
}

#[test]
fn average_is_arithmetic_mean() {
    let mut m = DriftMeter::new();
    m.add_sample(1);
    m.add_sample(2);
    m.add_sample(3);
    assert_eq!(m.get_average(), 2);
}

#[test]
fn average_truncates_toward_zero() {
    let mut m = DriftMeter::new();
    m.add_sample(1);
    m.add_sample(2);
    assert_eq!(m.get_average(), 1);

    let mut m = DriftMeter::new();
    m.add_sample(-3);
    m.add_sample(-4);
    assert_eq!(m.get_average(), -3);
}

#[test]
fn window_keeps_only_the_last_200_samples() {
    let mut m = DriftMeter::new();
    for v in 0..205i64 {
        m.add_sample(v);
    }
    // The window holds 5..=204, whose mean is 104.5, truncated to 104.
    assert_eq!(m.get_average(), 104);
}

#[test]
fn window_boundary_at_exactly_200() {
    let mut m = DriftMeter::new();
    for _ in 0..200 {
        m.add_sample(10);
    }
    assert_eq!(m.get_average(), 10);
    m.add_sample(210);
    // 199 tens and one 210: mean exactly 11.
    assert_eq!(m.get_average(), 11);
}

#[test]
fn extreme_samples_do_not_overflow() {
    let mut m = DriftMeter::new();
    for _ in 0..200 {
        m.add_sample(i64::MAX);
    }
    assert_eq!(m.get_average(), i64::MAX);
    let mut m = DriftMeter::new();
    for _ in 0..200 {
        m.add_sample(i64::MIN);
    }
    assert_eq!(m.get_average(), i64::MIN);
}

use tetris_core::FrequencyRegulator;

/// Over any window of `denominator` consecutive calls the emitted total is
/// exactly `numerator`.
#[test]
fn window_sums_are_exact() {
    let mut reg = FrequencyRegulator::new(3, 7);
    let outputs: Vec<usize> = (0..70).map(|_| reg.step()).collect();
    for window in outputs.windows(7) {
        let total: usize = window.iter().sum();
        assert_eq!(total, 3);
    }
}

#[test]
fn one_per_three_pattern() {
    let mut reg = FrequencyRegulator::new(1, 3);
    let outputs: Vec<usize> = (0..9).map(|_| reg.step()).collect();
    assert_eq!(outputs, vec![0, 0, 1, 0, 0, 1, 0, 0, 1]);
}

/// With numerator equal to denominator every call emits exactly one tick.
#[test]
fn unit_rate_every_call_is_one() {
    let mut reg = FrequencyRegulator::new(5, 5);
    for _ in 0..20 {
        assert_eq!(reg.step(), 1);
    }
    let mut instant = FrequencyRegulator::new(1, 1);
    for _ in 0..20 {
        assert_eq!(instant.step(), 1);
    }
}

/// With numerator zero every call emits zero ticks.
#[test]
fn zero_rate_every_call_is_zero() {
    let mut reg = FrequencyRegulator::new(0, 4);
    for _ in 0..20 {
        assert_eq!(reg.step(), 0);
    }
}

/// A rate above one per call emits more than one tick on some calls but
/// still exactly the numerator per window.
#[test]
fn fast_rate_window() {
    let mut reg = FrequencyRegulator::new(7, 3);
    let outputs: Vec<usize> = (0..30).map(|_| reg.step()).collect();
    for window in outputs.windows(3) {
        let total: usize = window.iter().sum();
        assert_eq!(total, 7);
    }
}

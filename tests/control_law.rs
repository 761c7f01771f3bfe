use pi_fan::control::{MAX_SPEED, MIN_SPEED};
use pi_fan::{compute_duty, DutyCycle, Temperature};

fn duty_at(millidegrees: i64) -> u32 {
    compute_duty(Temperature::from_millidegrees(millidegrees)).parts_per_million()
}

#[test]
fn cold_temperatures_run_at_min_speed() {
    for m in [i64::MIN, -40_000, 0, 10_000, 19_999] {
        assert_eq!(duty_at(m), 200_000);
    }
}

#[test]
fn hot_temperatures_run_at_max_speed() {
    for m in [50_001, 60_000, 1_000_000, i64::MAX] {
        assert_eq!(duty_at(m), 1_000_000);
    }
}

#[test]
fn thresholds_meet_the_speed_limits_exactly() {
    assert_eq!(duty_at(20_000), 200_000);
    assert_eq!(duty_at(50_000), 1_000_000);
}

#[test]
fn midpoint_runs_at_sixty_percent() {
    assert_eq!(duty_at(35_000), 600_000);
}

#[test]
fn interpolation_values() {
    assert_eq!(duty_at(27_500), 400_000);
    assert_eq!(duty_at(42_500), 800_000);
    // 0.2 + 0.8 * 1 / 30000, rounded down to whole parts per million
    assert_eq!(duty_at(20_001), 200_026);
    assert_eq!(duty_at(49_999), 999_973);
}

#[test]
fn duty_never_decreases_as_temperature_rises() {
    let mut last = duty_at(-60_000);
    let mut m: i64 = -60_000;
    while m <= 120_000 {
        let d = duty_at(m);
        assert!(d >= last);
        last = d;
        m += 7;
    }
}

#[test]
fn duty_stays_within_speed_limits() {
    for m in [i64::MIN, -40_000, 0, 20_000, 33_333, 50_000, 1_000_000, i64::MAX] {
        let d = duty_at(m);
        assert!(MIN_SPEED <= d && d <= MAX_SPEED);
    }
    assert_eq!(duty_at(-40_000), 200_000);
    assert_eq!(duty_at(1_000_000), 1_000_000);
}

#[test]
fn duty_cycle_constructors() {
    assert_eq!(DutyCycle::from_ppm(0).map(|d| d.parts_per_million()), Some(0));
    assert_eq!(
        DutyCycle::from_ppm(1_000_000).map(|d| d.parts_per_million()),
        Some(1_000_000)
    );
    assert_eq!(DutyCycle::from_ppm(1_000_001), None);
    assert_eq!(DutyCycle::from_percent(10).parts_per_million(), 100_000);
    assert_eq!(DutyCycle::from_percent(100).parts_per_million(), 1_000_000);
}

#[test]
fn temperature_keeps_millidegrees() {
    let t = Temperature::from_millidegrees(-1_234);
    assert_eq!(t.millidegrees(), -1_234);
    assert_eq!(t.millidegrees, -1_234);
}

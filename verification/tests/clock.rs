use hypocycloid::clock::{
    SimulationClock, COARSE_STEP_NS, FINE_STEP_NS, STANDARD_INTERVAL_NS, STANDARD_MAX_INTERVAL_NS,
    STANDARD_MIN_INTERVAL_NS, STANDARD_STARTUP_DELAY_NS,
};

#[test]
fn standard_clock_values() {
    let clock = SimulationClock::standard();
    assert_eq!(clock.interval(), 10_000_000);
    assert_eq!(clock.remaining_delay(), 2_000_000_000);
    assert_eq!(clock.min_interval(), 100_000);
    assert_eq!(clock.max_interval(), 500_000_000);
    assert_eq!(clock.pending(), 0);
    assert!(!clock.has_started());
    assert_eq!(STANDARD_INTERVAL_NS, 10_000_000);
    assert_eq!(STANDARD_STARTUP_DELAY_NS, 2_000_000_000);
    assert_eq!(STANDARD_MIN_INTERVAL_NS, 100_000);
    assert_eq!(STANDARD_MAX_INTERVAL_NS, 500_000_000);
    assert_eq!(COARSE_STEP_NS, 1_000_000);
    assert_eq!(FINE_STEP_NS, 100_000);
}

#[test]
fn new_rejects_bounds_that_admit_no_interval() {
    assert!(SimulationClock::new(10, 0, 0, 100).is_none());
    assert!(SimulationClock::new(10, 0, 101, 100).is_none());
    assert!(SimulationClock::new(10, 0, 0, 0).is_none());
    assert!(SimulationClock::new(10, 0, 1, 1).is_some());
    assert!(SimulationClock::new(10, 0, 100, 100).is_some());
}

#[test]
fn new_brings_the_interval_into_bounds() {
    assert_eq!(SimulationClock::new(5, 0, 10, 100).unwrap().interval(), 10);
    assert_eq!(SimulationClock::new(500, 0, 10, 100).unwrap().interval(), 100);
    assert_eq!(SimulationClock::new(50, 0, 10, 100).unwrap().interval(), 50);
    assert_eq!(SimulationClock::new(0, 7, 10, 100).unwrap().interval(), 10);
    assert_eq!(SimulationClock::new(0, 7, 10, 100).unwrap().remaining_delay(), 7);
}

#[test]
fn set_interval_is_clamped() {
    let mut clock = SimulationClock::new(50, 0, 10, 100).unwrap();
    clock.set_interval(0);
    assert_eq!(clock.interval(), 10);
    clock.set_interval(u64::MAX);
    assert_eq!(clock.interval(), 100);
    clock.set_interval(42);
    assert_eq!(clock.interval(), 42);
    clock.set_interval(10);
    assert_eq!(clock.interval(), 10);
    clock.set_interval(100);
    assert_eq!(clock.interval(), 100);
}

#[test]
fn speed_up_and_slow_down_are_clamped() {
    let mut clock = SimulationClock::new(50, 0, 10, 100).unwrap();
    clock.speed_up(15);
    assert_eq!(clock.interval(), 35);
    clock.speed_up(30);
    assert_eq!(clock.interval(), 10);
    clock.speed_up(u64::MAX);
    assert_eq!(clock.interval(), 10);
    clock.slow_down(45);
    assert_eq!(clock.interval(), 55);
    clock.slow_down(45);
    assert_eq!(clock.interval(), 100);
    clock.slow_down(u64::MAX);
    assert_eq!(clock.interval(), 100);
}

#[test]
fn speed_controls_on_the_standard_clock() {
    let mut clock = SimulationClock::standard();
    clock.apply_speed_controls(true, false, false);
    assert_eq!(clock.interval(), 9_000_000);
    clock.apply_speed_controls(true, false, true);
    assert_eq!(clock.interval(), 8_900_000);
    clock.apply_speed_controls(false, true, false);
    assert_eq!(clock.interval(), 9_900_000);
    clock.apply_speed_controls(false, true, true);
    assert_eq!(clock.interval(), 10_000_000);
    clock.apply_speed_controls(false, false, false);
    assert_eq!(clock.interval(), 10_000_000);
    // both at once: shortened first, then lengthened
    clock.apply_speed_controls(true, true, false);
    assert_eq!(clock.interval(), 10_000_000);
}

#[test]
fn speed_controls_both_at_the_lower_bound() {
    let mut clock = SimulationClock::standard();
    clock.set_interval(STANDARD_MIN_INTERVAL_NS);
    clock.apply_speed_controls(true, true, false);
    // 0.1 ms cannot be shortened, and is then lengthened by 1 ms
    assert_eq!(clock.interval(), 1_100_000);
}

#[test]
fn speed_controls_reach_the_bounds() {
    let mut clock = SimulationClock::standard();
    for _ in 0..20 {
        clock.apply_speed_controls(true, false, false);
    }
    assert_eq!(clock.interval(), STANDARD_MIN_INTERVAL_NS);
    for _ in 0..600 {
        clock.apply_speed_controls(false, true, false);
    }
    assert_eq!(clock.interval(), STANDARD_MAX_INTERVAL_NS);
}

#[test]
fn no_tick_before_the_delay_is_over() {
    let mut clock = SimulationClock::new(10, 100, 1, 1000).unwrap();
    assert_eq!(clock.elapse(40), 0);
    assert_eq!(clock.remaining_delay(), 60);
    assert!(!clock.has_started());
    assert_eq!(clock.elapse(60), 0);
    assert_eq!(clock.remaining_delay(), 0);
    assert!(clock.has_started());
    assert_eq!(clock.pending(), 0);
    assert_eq!(clock.elapse(9), 0);
    assert_eq!(clock.pending(), 9);
    assert_eq!(clock.elapse(1), 1);
    assert_eq!(clock.pending(), 0);
}

#[test]
fn elapse_pays_out_whole_intervals() {
    let mut clock = SimulationClock::new(10, 100, 1, 1000).unwrap();
    assert_eq!(clock.elapse(135), 3);
    assert_eq!(clock.pending(), 5);
    assert_eq!(clock.remaining_delay(), 0);
    assert_eq!(clock.elapse(0), 0);
    assert_eq!(clock.elapse(4), 0);
    assert_eq!(clock.elapse(1), 1);
    assert_eq!(clock.elapse(1000), 100);
    assert_eq!(clock.pending(), 0);
}

#[test]
fn ticks_do_not_depend_on_the_frame_rate() {
    let frames: [&[u64]; 4] = [
        &[2_500_000_000],
        &[1_000_000_000, 1_000_000_000, 500_000_000],
        &[16_666_667; 150],
        &[3, 2_499_999_990, 7],
    ];
    for slices in frames {
        let mut clock = SimulationClock::standard();
        let mut ticks: u64 = 0;
        let mut total: u64 = 0;
        for d in slices {
            ticks += clock.elapse(*d);
            total += *d;
        }
        let mut whole = SimulationClock::standard();
        let expected = whole.elapse(total);
        assert_eq!(ticks, expected);
        assert_eq!(clock.pending(), whole.pending());
        assert_eq!(clock.remaining_delay(), whole.remaining_delay());
    }
    let mut clock = SimulationClock::standard();
    assert_eq!(clock.elapse(2_500_000_000), 50);
}

#[test]
fn a_shorter_interval_pays_out_what_is_pending() {
    let mut clock = SimulationClock::new(100, 0, 1, 1000).unwrap();
    assert_eq!(clock.elapse(95), 0);
    clock.set_interval(10);
    assert_eq!(clock.pending(), 95);
    assert_eq!(clock.elapse(0), 9);
    assert_eq!(clock.pending(), 5);
}

#[test]
fn elapse_counts_no_further_than_u64() {
    let mut clock = SimulationClock::new(u64::MAX, 0, 1, u64::MAX).unwrap();
    assert_eq!(clock.elapse(u64::MAX - 1), 0);
    assert_eq!(clock.pending(), u64::MAX - 1);
    assert_eq!(clock.elapse(10), 1);
    assert_eq!(clock.pending(), 0);
    let mut fast = SimulationClock::new(1, 0, 1, 10).unwrap();
    assert_eq!(fast.elapse(u64::MAX), u64::MAX);
}

use flappy::timer::{RepeatingTimer, NANOS_PER_SECOND};

#[test]
fn fresh_timer_has_empty_clock() {
    let timer = RepeatingTimer::new(NANOS_PER_SECOND);
    assert_eq!(timer.period_nanos(), 1_000_000_000);
    assert_eq!(timer.elapsed_nanos(), 0);
    assert!(!timer.finished());
    assert_eq!(timer.times_finished_this_tick(), 0);
}

#[test]
fn tick_below_period_accumulates() {
    let mut timer = RepeatingTimer::new(NANOS_PER_SECOND);
    assert!(!timer.tick(400_000_000));
    assert_eq!(timer.elapsed_nanos(), 400_000_000);
    assert!(!timer.finished());
    assert_eq!(timer.times_finished_this_tick(), 0);
    assert!(!timer.tick(599_999_999));
    assert_eq!(timer.elapsed_nanos(), 999_999_999);
}

#[test]
fn tick_wraps_around_the_period() {
    let mut timer = RepeatingTimer::new(NANOS_PER_SECOND);
    assert!(!timer.tick(400_000_000));
    assert!(timer.tick(700_000_000));
    assert!(timer.finished());
    assert_eq!(timer.elapsed_nanos(), 100_000_000);
    assert_eq!(timer.times_finished_this_tick(), 1);
}

#[test]
fn tick_reaching_period_exactly_fires() {
    let mut timer = RepeatingTimer::new(NANOS_PER_SECOND);
    assert!(timer.tick(NANOS_PER_SECOND));
    assert_eq!(timer.elapsed_nanos(), 0);
    assert_eq!(timer.times_finished_this_tick(), 1);
}

#[test]
fn finished_lasts_for_one_tick_only() {
    let mut timer = RepeatingTimer::new(NANOS_PER_SECOND);
    assert!(timer.tick(1_200_000_000));
    assert!(timer.finished());
    assert!(!timer.tick(100_000_000));
    assert!(!timer.finished());
    assert_eq!(timer.times_finished_this_tick(), 0);
    assert_eq!(timer.elapsed_nanos(), 300_000_000);
}

#[test]
fn long_tick_counts_every_period_but_fires_once() {
    let mut timer = RepeatingTimer::new(NANOS_PER_SECOND);
    assert!(timer.tick(2_500_000_000));
    assert_eq!(timer.times_finished_this_tick(), 2);
    assert_eq!(timer.elapsed_nanos(), 500_000_000);
}

#[test]
fn zero_delta_changes_nothing() {
    let mut timer = RepeatingTimer::new(NANOS_PER_SECOND);
    timer.tick(250_000_000);
    assert!(!timer.tick(0));
    assert_eq!(timer.elapsed_nanos(), 250_000_000);
}

#[test]
fn other_periods_work_alike() {
    let mut timer = RepeatingTimer::new(7);
    assert!(timer.tick(23));
    assert_eq!(timer.times_finished_this_tick(), 3);
    assert_eq!(timer.elapsed_nanos(), 2);
    assert_eq!(timer.period_nanos(), 7);
}

fn fired_over(frames: u64, delta_nanos: u64) -> (u64, u64) {
    let mut timer = RepeatingTimer::new(NANOS_PER_SECOND);
    let mut fired = 0;
    for _ in 0..frames {
        assert!(timer.can_tick(delta_nanos));
        if timer.tick(delta_nanos) {
            fired += 1;
        }
    }
    (fired, timer.elapsed_nanos())
}

#[test]
fn fires_once_per_second_at_any_frame_rate() {
    // Ten seconds, cut into frames of 1 ms, 4 ms, 10 ms, 250 ms and 1 s.
    assert_eq!(fired_over(10_000, 1_000_000), (10, 0));
    assert_eq!(fired_over(2_500, 4_000_000), (10, 0));
    assert_eq!(fired_over(1_000, 10_000_000), (10, 0));
    assert_eq!(fired_over(40, 250_000_000), (10, 0));
    assert_eq!(fired_over(10, 1_000_000_000), (10, 0));
}

#[test]
fn uneven_frames_fire_once_per_elapsed_second() {
    // 300 frames of 16 666 667 ns are 5 000 000 100 ns.
    assert_eq!(fired_over(300, 16_666_667), (5, 100));
    // 7 frames of 0.7 s are 4.9 s.
    assert_eq!(fired_over(7, 700_000_000), (4, 900_000_000));
}

#[test]
fn frames_longer_than_two_periods_fire_less_often_than_periods_pass() {
    // Two frames of 2.5 s: five seconds pass, the timer fires twice.
    let mut timer = RepeatingTimer::new(NANOS_PER_SECOND);
    assert!(timer.tick(2_500_000_000));
    assert_eq!(timer.times_finished_this_tick(), 2);
    assert!(timer.tick(2_500_000_000));
    assert_eq!(timer.times_finished_this_tick(), 3);
    assert_eq!(timer.elapsed_nanos(), 0);
}

#[test]
fn can_tick_tells_when_the_count_fits() {
    let timer = RepeatingTimer::new(NANOS_PER_SECOND);
    assert!(timer.can_tick(0));
    assert!(timer.can_tick(4_294_967_295_999_999_999));
    assert!(!timer.can_tick(4_294_967_296_000_000_000));
    assert!(!timer.can_tick(u64::MAX));
    let short = RepeatingTimer::new(1);
    assert!(short.can_tick(4_294_967_295));
    assert!(!short.can_tick(4_294_967_296));
}

#[test]
fn largest_count_that_fits_is_exact() {
    let mut timer = RepeatingTimer::new(1);
    assert!(timer.tick(4_294_967_295));
    assert_eq!(timer.times_finished_this_tick(), u32::MAX);
    assert_eq!(timer.elapsed_nanos(), 0);
}

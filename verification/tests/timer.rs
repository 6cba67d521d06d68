use particles::timer::Timer;
use particles::timer::TimerMode;
use particles::units::Ratio;

#[test]
fn new_timer_has_counted_nothing() {
    let t = Timer::new(500, TimerMode::Once);
    assert_eq!(t.elapsed, 0);
    assert_eq!(t.duration, 500);
    assert!(!t.finished());
    assert!(!t.just_finished());
    assert_eq!(t.percent(), Ratio { num: 0, den: 500 });
}

#[test]
fn once_timer_stops_at_its_duration() {
    let mut t = Timer::new(500, TimerMode::Once);
    t.tick(200);
    assert_eq!(t.elapsed, 200);
    assert!(!t.finished());
    t.tick(299);
    assert_eq!(t.elapsed, 499);
    assert!(!t.finished());
    t.tick(700);
    assert_eq!(t.elapsed, 500);
    assert!(t.finished());
    assert!(t.just_finished());
    assert_eq!(t.percent(), Ratio { num: 500, den: 500 });
    t.tick(100);
    assert_eq!(t.elapsed, 500);
    assert!(t.finished());
    assert!(!t.just_finished());
}

#[test]
fn once_timer_finishes_exactly_at_its_duration() {
    let mut t = Timer::new(500, TimerMode::Once);
    t.tick(500);
    assert!(t.finished());
    assert_eq!(t.elapsed, 500);
}

#[test]
fn repeating_timer_keeps_the_overshoot() {
    let mut t = Timer::new(500, TimerMode::Repeating);
    t.tick(300);
    assert!(!t.just_finished());
    assert_eq!(t.elapsed, 300);
    t.tick(300);
    assert!(t.just_finished());
    assert!(t.finished());
    assert_eq!(t.elapsed, 100);
    t.tick(100);
    assert!(!t.just_finished());
    assert!(!t.finished());
    assert_eq!(t.elapsed, 200);
    t.tick(1300);
    assert!(t.just_finished());
    assert_eq!(t.elapsed, 0);
}

#[test]
fn timer_of_duration_zero_finishes_at_once() {
    let mut once = Timer::new(0, TimerMode::Once);
    assert_eq!(once.percent(), Ratio { num: 1, den: 1 });
    once.tick(0);
    assert!(once.finished());
    let mut again = Timer::new(0, TimerMode::Repeating);
    again.tick(7);
    assert!(again.just_finished());
    assert_eq!(again.elapsed, 0);
}

#[test]
fn timer_takes_the_longest_tick() {
    let mut once = Timer::new(u64::MAX, TimerMode::Once);
    once.tick(u64::MAX - 1);
    assert!(!once.finished());
    once.tick(u64::MAX);
    assert!(once.finished());
    assert_eq!(once.elapsed, u64::MAX);
    let mut again = Timer::new(u64::MAX, TimerMode::Repeating);
    again.tick(u64::MAX - 1);
    again.tick(u64::MAX);
    assert!(again.just_finished());
    assert_eq!(again.elapsed, u64::MAX - 1);
}

const ROUNDS: u64 = 1 << 32;

#[test]
fn repeating_timer_through_many_rounds_has_just_finished() {
    let mut t = Timer::new(1, TimerMode::Repeating);
    t.tick(ROUNDS);
    assert!(t.finished());
    assert!(t.just_finished());
    assert_eq!(t.elapsed, 0);
    let mut t = Timer::new(1, TimerMode::Repeating);
    t.tick(2 * ROUNDS);
    assert!(t.finished());
    assert!(t.just_finished());
    assert_eq!(t.elapsed, 0);
    let mut t = Timer::new(3, TimerMode::Repeating);
    t.tick(3 * ROUNDS);
    assert!(t.finished());
    assert!(t.just_finished());
    assert_eq!(t.elapsed, 0);
    let mut t = Timer::new(3, TimerMode::Repeating);
    t.tick(2);
    t.tick(3 * ROUNDS - 2);
    assert!(t.finished());
    assert!(t.just_finished());
    assert_eq!(t.elapsed, 0);
    let mut t = Timer::new(3, TimerMode::Repeating);
    t.tick(3 * ROUNDS + 1);
    assert!(t.finished());
    assert!(t.just_finished());
    assert_eq!(t.elapsed, 1);
    let mut t = Timer::new(3, TimerMode::Repeating);
    t.tick(3 * ROUNDS - 1);
    assert!(t.finished());
    assert!(t.just_finished());
    assert_eq!(t.elapsed, 2);
}

#[test]
fn finished_and_just_finished_agree_after_every_tick_of_a_running_timer() {
    for mode in [TimerMode::Once, TimerMode::Repeating] {
        for duration in [0u64, 1, 2, 500, ROUNDS, u64::MAX] {
            for delta in [0u64, 1, 499, 500, 501, ROUNDS - 1, ROUNDS, ROUNDS + 1, u64::MAX] {
                let mut t = Timer::new(duration, mode);
                t.tick(delta);
                assert_eq!(t.finished(), delta >= duration);
                assert_eq!(t.just_finished(), t.finished());
                assert!(t.elapsed <= t.duration);
            }
        }
    }
}

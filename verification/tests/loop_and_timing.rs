use wlrip::game::{loop_sleep, status_step, GameStatus, StatusStep, LOOP_DURATION_NS};
use wlrip::lagdbg::{Timing, TimingReport};

#[test]
fn status_messages_only_on_change() {
    assert_eq!(
        status_step(GameStatus::NotStarted, true),
        StatusStep { status: GameStatus::Working, message: Some(GameStatus::Working) }
    );
    assert_eq!(
        status_step(GameStatus::Working, true),
        StatusStep { status: GameStatus::Working, message: None }
    );
    assert_eq!(
        status_step(GameStatus::Working, false),
        StatusStep { status: GameStatus::NotStarted, message: Some(GameStatus::NotStarted) }
    );
    assert_eq!(
        status_step(GameStatus::NotStarted, false),
        StatusStep { status: GameStatus::NotStarted, message: None }
    );
}

#[test]
fn loop_sleeps_for_the_rest_of_the_tick() {
    assert_eq!(LOOP_DURATION_NS, 2_000_000);
    assert_eq!(loop_sleep(0), Some(2_000_000));
    assert_eq!(loop_sleep(500_000), Some(1_500_000));
    assert_eq!(loop_sleep(1_999_999), Some(1));
    assert_eq!(loop_sleep(2_000_000), None);
    assert_eq!(loop_sleep(9_000_000), None);
}

#[test]
fn timing_reports_once_per_second() {
    let mut t = Timing::new(0);
    assert_eq!(t.sample(10, 100, 400_000_000), None);
    assert_eq!(t.sample(20, 200, 999_999_999), None);
    assert_eq!(
        t.sample(30, 300, 1_000_000_000),
        Some(TimingReport { samples: 3, data_accum: 600, lock_accum: 60 })
    );
    // a new period starts at the report
    assert_eq!(t.sample(1, 2, 1_500_000_000), None);
    assert_eq!(
        t.sample(1, 2, 2_000_000_000),
        Some(TimingReport { samples: 2, data_accum: 4, lock_accum: 2 })
    );
}

#[test]
fn timing_clock_going_back_counts_as_no_time() {
    let mut t = Timing::new(5_000_000_000);
    assert_eq!(t.sample(0, 0, 1), None);
    assert_eq!(
        t.sample(0, 7, 6_000_000_000),
        Some(TimingReport { samples: 2, data_accum: 7, lock_accum: 0 })
    );
}

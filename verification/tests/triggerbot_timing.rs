use wlrip::cs2::CS2;
use wlrip::triggerbot::{TriggerAction, Triggerbot};

const MS: u128 = 1_000_000;

#[test]
fn shot_cycle_with_cooldown() {
    let mut t = Triggerbot::new();
    let now = 1_000 * MS;
    assert!(t.try_arm(now));
    t.schedule_shot(now, 50 * MS, 20 * MS, 100 * MS);
    // a shot is pending: no new one
    assert!(!t.try_arm(now + MS));
    assert_eq!(t.triggerbot_shoot(now + 10 * MS), TriggerAction { press: false, release: false });
    assert_eq!(t.triggerbot_shoot(now + 50 * MS), TriggerAction { press: true, release: false });
    assert_eq!(t.triggerbot_shoot(now + 60 * MS), TriggerAction { press: false, release: false });
    assert!(!t.try_arm(now + 60 * MS));
    assert_eq!(t.triggerbot_shoot(now + 75 * MS), TriggerAction { press: false, release: true });
    // cooldown runs from the release for 100 ms
    assert!(!t.try_arm(now + 174 * MS));
    assert!(t.try_arm(now + 175 * MS));
    assert_eq!(t.triggerbot_shoot(now + 200 * MS), TriggerAction { press: false, release: false });
}

#[test]
fn late_tick_presses_and_releases_at_once() {
    let mut t = Triggerbot::new();
    assert!(t.try_arm(0));
    t.schedule_shot(0, 5 * MS, 5 * MS, 0);
    assert_eq!(t.triggerbot_shoot(30 * MS), TriggerAction { press: true, release: true });
    assert!(t.try_arm(30 * MS));
}

#[test]
fn game_state_triggerbot_tick() {
    let mut cs2 = CS2::new();
    assert!(!cs2.trigger.active);
    assert_eq!(cs2.triggerbot_shoot(5), TriggerAction { press: false, release: false });
    assert!(cs2.trigger.try_arm(10));
    cs2.trigger.schedule_shot(10, 0, 3, 7);
    assert_eq!(cs2.triggerbot_shoot(10), TriggerAction { press: true, release: false });
    assert_eq!(cs2.triggerbot_shoot(13), TriggerAction { press: false, release: true });
    assert!(!cs2.trigger.try_arm(19));
    assert!(cs2.trigger.try_arm(20));
}

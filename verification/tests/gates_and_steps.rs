use wlrip::cs2::CS2;
use wlrip::game::{iteration_end, IterationEnd, IDLE_SLEEP_NS};
use wlrip::gates::{
    aim_allowed, trigger_allowed, AimGates, AimReadings, TriggerGates, TriggerReadings, WeaponClass,
};
use wlrip::overlay::{configured_size, output_scale, physical_size};
use wlrip::shot_log::{ShotEntry, ShotLog, MAX_ENTRIES};
use wlrip::triggerbot::TriggerAction;

fn aim_gates() -> AimGates {
    AimGates {
        enabled: true,
        hotkey_active: true,
        flash_check: true,
        visibility_check: true,
        autowall: false,
        start_bullet: 2,
    }
}

fn aim_readings() -> AimReadings {
    AimReadings {
        has_target: true,
        target_valid: true,
        has_local_player: true,
        weapon_class: WeaponClass::Rifle,
        flashed: false,
        visible: true,
        penetrable: false,
        shots_fired: 2,
    }
}

#[test]
fn aimbot_gates() {
    let g = aim_gates();
    let r = aim_readings();
    assert!(aim_allowed(&g, &r));
    assert!(!aim_allowed(&AimGates { enabled: false, ..g }, &r));
    assert!(!aim_allowed(&AimGates { hotkey_active: false, ..g }, &r));
    assert!(!aim_allowed(&g, &AimReadings { has_target: false, ..r }));
    assert!(!aim_allowed(&g, &AimReadings { target_valid: false, ..r }));
    assert!(!aim_allowed(&g, &AimReadings { has_local_player: false, ..r }));
    for class in [WeaponClass::Unknown, WeaponClass::Knife, WeaponClass::Grenade] {
        assert!(!aim_allowed(&g, &AimReadings { weapon_class: class, ..r }));
    }
    assert!(aim_allowed(&g, &AimReadings { weapon_class: WeaponClass::Sniper, ..r }));
    assert!(!aim_allowed(&g, &AimReadings { flashed: true, ..r }));
    assert!(aim_allowed(&AimGates { flash_check: false, ..g }, &AimReadings { flashed: true, ..r }));
    // hidden target: refused unless visibility is unchecked or autowall can shoot through
    let hidden = AimReadings { visible: false, ..r };
    assert!(!aim_allowed(&g, &hidden));
    assert!(aim_allowed(&AimGates { visibility_check: false, ..g }, &hidden));
    assert!(!aim_allowed(&AimGates { autowall: true, ..g }, &hidden));
    assert!(aim_allowed(&AimGates { autowall: true, ..g }, &AimReadings { penetrable: true, ..hidden }));
    // start bullet
    assert!(!aim_allowed(&g, &AimReadings { shots_fired: 1, ..r }));
}

fn trigger_gates() -> TriggerGates {
    TriggerGates {
        enabled: true,
        hotkey_active: true,
        flash_check: true,
        scope_check: true,
        velocity_check: true,
        head_only: false,
    }
}

fn trigger_readings() -> TriggerReadings {
    TriggerReadings {
        has_local_player: true,
        flashed: false,
        is_sniper: true,
        scoped: true,
        over_velocity_threshold: false,
        has_crosshair_target: true,
        ffa: false,
        target_team: 2,
        local_team: 3,
        head_in_fov: false,
    }
}

#[test]
fn triggerbot_gates() {
    let g = trigger_gates();
    let r = trigger_readings();
    assert!(trigger_allowed(&g, &r));
    assert!(!trigger_allowed(&TriggerGates { enabled: false, ..g }, &r));
    assert!(!trigger_allowed(&TriggerGates { hotkey_active: false, ..g }, &r));
    assert!(!trigger_allowed(&g, &TriggerReadings { has_local_player: false, ..r }));
    assert!(!trigger_allowed(&g, &TriggerReadings { flashed: true, ..r }));
    assert!(!trigger_allowed(&g, &TriggerReadings { scoped: false, ..r }));
    assert!(trigger_allowed(&g, &TriggerReadings { scoped: false, is_sniper: false, ..r }));
    assert!(trigger_allowed(&TriggerGates { scope_check: false, ..g }, &TriggerReadings { scoped: false, ..r }));
    assert!(!trigger_allowed(&g, &TriggerReadings { over_velocity_threshold: true, ..r }));
    assert!(!trigger_allowed(&g, &TriggerReadings { has_crosshair_target: false, ..r }));
    assert!(!trigger_allowed(&g, &TriggerReadings { target_team: 3, ..r }));
    assert!(trigger_allowed(&g, &TriggerReadings { target_team: 3, ffa: true, ..r }));
    assert!(trigger_allowed(&g, &r));
    assert!(!trigger_allowed(&TriggerGates { head_only: true, ..g }, &r));
    assert!(trigger_allowed(&TriggerGates { head_only: true, ..g }, &TriggerReadings { head_in_fov: true, ..r }));
}

#[test]
fn triggerbot_tick_schedules_only_when_gates_pass() {
    let g = trigger_gates();
    let r = trigger_readings();
    let mut cs2 = CS2::new();
    // a teammate under the crosshair: nothing scheduled
    assert!(!cs2.triggerbot(0, &g, &TriggerReadings { target_team: 3, ..r }, 5, 5, 10));
    assert_eq!(cs2.triggerbot_shoot(100), TriggerAction { press: false, release: false });
    // an enemy: a shot is scheduled
    assert!(cs2.triggerbot(0, &g, &r, 5, 5, 10));
    // a pending shot refuses another
    assert!(!cs2.triggerbot(1, &g, &r, 0, 0, 0));
    assert_eq!(cs2.triggerbot_shoot(5), TriggerAction { press: true, release: false });
    assert_eq!(cs2.triggerbot_shoot(10), TriggerAction { press: false, release: true });
    // cooldown until 20
    assert!(!cs2.triggerbot(19, &g, &r, 0, 1, 0));
    assert!(cs2.triggerbot(20, &g, &r, 0, 1, 0));
    // disabled: nothing
    let mut idle = CS2::new();
    assert!(!idle.triggerbot(0, &TriggerGates { enabled: false, ..g }, &r, 0, 1, 0));
    assert_eq!(idle.triggerbot_shoot(50), TriggerAction { press: false, release: false });
}

#[test]
fn shot_log_records_only_enemies() {
    let mut cs2 = CS2::new();
    let head = ShotEntry::classified(6, 6, 5, 0);
    assert!(head.headshot);
    assert!(ShotEntry::classified(5, 6, 5, 0).headshot);
    let body = ShotEntry::classified(4, 6, 5, 0);
    assert!(!body.headshot);
    assert!(!cs2.shot_log_record(head, 2, true, false, 3, 3));
    assert!(!cs2.shot_log_record(head, 2, false, true, 2, 3));
    assert_eq!(cs2.shot_log_data().total, 0);
    assert!(cs2.shot_log_record(head, 2, true, true, 3, 3));
    assert!(cs2.shot_log_record(body, 1, true, false, 2, 3));
    let data = cs2.shot_log_data();
    assert_eq!(data.total, 3);
    assert_eq!(data.headshots, 2);
    assert_eq!(data.entries, vec![head, head, body]);
}

#[test]
fn game_loop_iteration_end() {
    assert_eq!(
        iteration_end(true, 500_000),
        IterationEnd { reset_data: false, send_frame_time: true, sleep: Some(1_500_000) }
    );
    assert_eq!(
        iteration_end(true, 3_000_000),
        IterationEnd { reset_data: false, send_frame_time: true, sleep: None }
    );
    assert_eq!(
        iteration_end(false, 10),
        IterationEnd { reset_data: true, send_frame_time: false, sleep: Some(IDLE_SLEEP_NS) }
    );
    assert_eq!(IDLE_SLEEP_NS, 5_000_000_000);
}

#[test]
fn overlay_sizes() {
    assert_eq!(output_scale(0), 1);
    assert_eq!(output_scale(-3), 1);
    assert_eq!(output_scale(2), 2);
    assert_eq!(physical_size(1920, 1080, 2), Some((3840, 2160)));
    assert_eq!(physical_size(1920, 1080, 0), Some((1920, 1080)));
    assert_eq!(physical_size(u32::MAX, 1, 2), None);
    assert_eq!(physical_size(u32::MAX, 1, 1), Some((u32::MAX, 1)));
    assert_eq!(configured_size(1920, 1080, 0, 1440), (1920, 1440));
    assert_eq!(configured_size(1920, 1080, 2560, 0), (2560, 1080));
}

#[test]
fn shot_log_invariant_after_any_calls() {
    let mut log = ShotLog::new();
    for i in 0..20u64 {
        log.record(ShotEntry::classified(i % 7, 6, 5, 0));
        if i % 5 == 0 {
            log.reset();
        }
        let data = log.snapshot();
        assert!(data.entries.len() <= MAX_ENTRIES);
        assert!(data.headshots <= data.total);
        let kept = data.entries.iter().filter(|e| e.headshot).count() as u32;
        assert!(kept <= data.headshots);
    }
}

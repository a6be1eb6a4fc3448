use wlrip::cs2::CS2;
use wlrip::shot_log::{ShotEntry, ShotLog, MAX_ENTRIES};

fn entry(i: u64, headshot: bool) -> ShotEntry {
    ShotEntry { headshot, bone: i, distance_bits: (i as f32 * 10.0).to_bits() }
}

#[test]
fn new_log_is_empty() {
    let log = ShotLog::new();
    let data = log.snapshot();
    assert!(data.entries.is_empty());
    assert_eq!(data.total, 0);
    assert_eq!(data.headshots, 0);
}

#[test]
fn keeps_only_the_most_recent_entries() {
    let mut log = ShotLog::new();
    for i in 0..11u64 {
        log.record(entry(i, i % 3 == 0));
    }
    let data = log.snapshot();
    assert_eq!(data.entries.len(), MAX_ENTRIES);
    let bones: Vec<u64> = data.entries.iter().map(|e| e.bone).collect();
    assert_eq!(bones, vec![3, 4, 5, 6, 7, 8, 9, 10]);
    assert_eq!(data.total, 11);
    // 0, 3, 6, 9
    assert_eq!(data.headshots, 4);
    assert_eq!(f32::from_bits(data.entries[0].distance_bits), 30.0);
}

#[test]
fn observed_counter_reports_new_shots() {
    let mut log = ShotLog::new();
    assert_eq!(log.observe_shots_fired(0), 0);
    assert_eq!(log.observe_shots_fired(3), 3);
    assert_eq!(log.observe_shots_fired(3), 0);
    assert_eq!(log.observe_shots_fired(5), 2);
    // counter drops on reload: tracking restarts without new shots
    assert_eq!(log.observe_shots_fired(1), 0);
    assert_eq!(log.observe_shots_fired(2), 1);
    log.reset();
    assert_eq!(log.observe_shots_fired(4), 4);
}

#[test]
fn several_bullets_are_attributed_to_one_entry() {
    let mut log = ShotLog::new();
    log.record_shots(entry(7, true), 3);
    let data = log.snapshot();
    assert_eq!(data.total, 3);
    assert_eq!(data.headshots, 3);
    assert_eq!(data.entries, vec![entry(7, true); 3]);

    log.record_shots(entry(2, false), 20);
    let data = log.snapshot();
    assert_eq!(data.total, 3 + MAX_ENTRIES as u32);
    assert_eq!(data.headshots, 3);
    assert_eq!(data.entries, vec![entry(2, false); MAX_ENTRIES]);

    log.record_shots(entry(1, true), 0);
    log.record_shots(entry(1, true), -4);
    assert_eq!(log.snapshot().total, 3 + MAX_ENTRIES as u32);
}

#[test]
fn game_state_shot_log_tick() {
    let mut cs2 = CS2::new();
    assert_eq!(cs2.shot_log_observe(true, Some(2)), 2);
    // disabled: the reading is ignored
    assert_eq!(cs2.shot_log_observe(false, Some(9)), 0);
    assert_eq!(cs2.shot_log_observe(true, Some(5)), 3);
    // no local player: tracking restarts
    assert_eq!(cs2.shot_log_observe(true, None), 0);
    assert_eq!(cs2.shot_log_observe(true, Some(5)), 5);
    cs2.shot_log.record_shots(entry(6, true), 5);
    let data = cs2.shot_log_data();
    assert_eq!(data.total, 5);
    assert_eq!(data.headshots, 5);
    assert_eq!(data.entries.len(), 5);
}

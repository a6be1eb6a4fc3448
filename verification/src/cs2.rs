//! The feature state the game loop keeps between ticks.
use vstd::prelude::*;
use crate::gates::{TriggerGates, TriggerReadings, enemy_under_crosshair, is_enemy, trigger_readings_allow, trigger_readings_pass};
use crate::shot_log::{ShotEntry, ShotLog, ShotLogData, ShotLogState, attributed_shots};
use crate::triggerbot::{Triggerbot, TriggerAction, TriggerbotState, may_arm, scheduled, shoot_step, trigger_wf};

verus! {

/// Per-game feature state: the shot log and the triggerbot's shot timing.
#[derive(Debug)]
pub struct CS2 {
    pub shot_log: ShotLog,
    pub trigger: Triggerbot,
}

impl CS2 {
    /// The state's invariant: that of its parts.
    pub open spec fn wf(&self) -> bool {
        &&& self.shot_log.wf()
        &&& trigger_wf(self.trigger@)
    }

    /// Fresh state: an empty shot log and an idle triggerbot.
    pub fn new() -> (cs2: CS2)
        ensures
            cs2.wf(),
            cs2.shot_log@.entries.len() == 0,
            cs2.shot_log@.total == 0,
            cs2.shot_log@.headshots == 0,
            cs2.shot_log@.last_shots_fired == 0,
            cs2.trigger@.shot_start is None,
            cs2.trigger@.shot_end is None,
            cs2.trigger@.cooldown_until is None,
            cs2.trigger@.pending_cooldown is None,
            !cs2.trigger@.active,
    {
        CS2 { shot_log: ShotLog::new(), trigger: Triggerbot::new() }
    }

    /// First half of a shot-log tick: decides how many newly fired bullets
    /// are to be classified. Nothing is done while the shot log is disabled;
    /// without a local player (`shots_fired` is `None`) the counter tracking
    /// restarts; otherwise the new reading of the shots-fired counter is
    /// taken.
    pub fn shot_log_observe(&mut self, enabled: bool, shots_fired: Option<i32>) -> (new_shots: i32)
        requires
            old(self).wf(),
            enabled ==> (shots_fired matches Some(s) ==> (old(self).shot_log@.last_shots_fired <= s
                ==> s - old(self).shot_log@.last_shots_fired <= i32::MAX)),
        ensures
            final(self).wf(),
            final(self).trigger == old(self).trigger,
            new_shots >= 0,
            !enabled ==> new_shots == 0 && final(self).shot_log@ == old(self).shot_log@,
            enabled && shots_fired is None ==> new_shots == 0 && final(self).shot_log@ == (
            ShotLogState { last_shots_fired: 0, ..old(self).shot_log@ }),
            enabled && shots_fired is Some ==> {
                let s = shots_fired->0 as int;
                let last = old(self).shot_log@.last_shots_fired;
                &&& final(self).shot_log@ == (ShotLogState {
                    last_shots_fired: s,
                    ..old(self).shot_log@
                })
                &&& new_shots == (if s < last { 0 } else { s - last })
            },
    {
        if !enabled {
            return 0;
        }
        match shots_fired {
            None => {
                self.shot_log.reset();
                0
            },
            Some(s) => self.shot_log.observe_shots_fired(s),
        }
    }

    /// Second half of a shot-log tick: the new bullets are attributed to the
    /// classified entry, but only while an enemy is under the crosshair (a
    /// player there, and free-for-all or on the other team); otherwise the
    /// log is left as it is.
    pub fn shot_log_record(
        &mut self,
        entry: ShotEntry,
        new_shots: i32,
        has_target: bool,
        ffa: bool,
        target_team: u8,
        local_team: u8,
    ) -> (recorded: bool)
        requires
            old(self).wf(),
            is_enemy(has_target, ffa, target_team, local_team) ==> old(self).shot_log@.total
                + attributed_shots(new_shots as int) <= u32::MAX,
        ensures
            final(self).wf(),
            final(self).trigger == old(self).trigger,
            recorded == is_enemy(has_target, ffa, target_team, local_team),
            recorded ==> final(self).shot_log@ == old(self).shot_log@.record_times(
                entry,
                attributed_shots(new_shots as int),
            ),
            !recorded ==> final(self).shot_log@ == old(self).shot_log@,
    {
        if !enemy_under_crosshair(has_target, ffa, target_team, local_team) {
            return false;
        }
        self.shot_log.record_shots(entry, new_shots);
        true
    }

    /// One triggerbot tick at `now`. Nothing happens while the triggerbot is
    /// disabled or not held active. Otherwise a pending shot or a running
    /// refire cooldown refuses a new shot (a cooldown that ran out is
    /// cleared); then the gates over the readings decide, and when they pass
    /// a shot is scheduled with the given delay, hold time and cooldown.
    /// Returns whether a shot was scheduled.
    pub fn triggerbot(
        &mut self,
        now: u128,
        g: &TriggerGates,
        r: &TriggerReadings,
        delay: u128,
        shot_duration: u128,
        cooldown: u128,
    ) -> (fired: bool)
        requires
            old(self).wf(),
            g.enabled && g.hotkey_active && may_arm(old(self).trigger@, now)
                && trigger_readings_pass(*g, *r) ==> now + delay + shot_duration <= u128::MAX,
        ensures
            final(self).wf(),
            final(self).shot_log == old(self).shot_log,
            fired == (g.enabled && g.hotkey_active && may_arm(old(self).trigger@, now)
                && trigger_readings_pass(*g, *r)),
            !(g.enabled && g.hotkey_active && may_arm(old(self).trigger@, now))
                ==> final(self).trigger@ == old(self).trigger@,
            g.enabled && g.hotkey_active && may_arm(old(self).trigger@, now) && !fired
                ==> final(self).trigger@ == (TriggerbotState {
                cooldown_until: None,
                ..old(self).trigger@
            }),
            fired ==> final(self).trigger@ == scheduled(
                TriggerbotState { cooldown_until: None, ..old(self).trigger@ },
                now,
                delay,
                shot_duration,
                cooldown,
            ),
    {
        if !g.enabled || !g.hotkey_active {
            return false;
        }
        if !self.trigger.try_arm(now) {
            return false;
        }
        if !trigger_readings_allow(g, r) {
            return false;
        }
        self.trigger.schedule_shot(now, delay, shot_duration, cooldown);
        true
    }

    /// The shot log's entries and counters for the HUD.
    pub fn shot_log_data(&self) -> (data: ShotLogData)
        ensures
            data.entries@ == self.shot_log@.entries,
            data.total == self.shot_log@.total,
            data.headshots == self.shot_log@.headshots,
            self.wf() ==> {
                &&& data.entries@.len() <= crate::shot_log::MAX_ENTRIES
                &&& data.headshots <= data.total
                &&& crate::shot_log::count_headshots(data.entries@) <= data.headshots
            },
    {
        self.shot_log.snapshot()
    }

    /// One tick of the triggerbot's pending shot at `now`; the returned
    /// action says whether to press and whether to release the button.
    pub fn triggerbot_shoot(&mut self, now: u128) -> (action: TriggerAction)
        requires
            old(self).wf(),
            old(self).trigger@.pending_cooldown matches Some(c) ==> now + c <= u128::MAX,
        ensures
            final(self).wf(),
            final(self).shot_log == old(self).shot_log,
            (final(self).trigger@, action) == shoot_step(old(self).trigger@, now),
    {
        self.trigger.triggerbot_shoot(now)
    }
}

} // verus!

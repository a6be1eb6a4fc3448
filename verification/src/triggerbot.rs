//! The triggerbot's shot timing: a shot is scheduled with a delay, held for a
//! while, and followed by a refire cooldown.
//!
//! Points in time are nanoseconds on a monotonic clock, durations are
//! nanoseconds.
use vstd::prelude::*;

verus! {

/// The abstract state of a [`Triggerbot`].
pub struct TriggerbotState {
    /// When the pending shot presses the button.
    pub shot_start: Option<u128>,
    /// When the pending shot releases the button.
    pub shot_end: Option<u128>,
    /// No new shot is armed before this point.
    pub cooldown_until: Option<u128>,
    /// The cooldown that starts when the pending shot is released.
    pub pending_cooldown: Option<u128>,
    /// Whether the hotkey currently enables the triggerbot.
    pub active: bool,
}

/// What the mouse should do on this tick.
#[derive(Debug, Clone, Copy, PartialEq, Eq)]
pub struct TriggerAction {
    pub press: bool,
    pub release: bool,
}

/// The state and action of one [`Triggerbot::triggerbot_shoot`] tick at `now`.
pub open spec fn shoot_step(s: TriggerbotState, now: u128) -> (TriggerbotState, TriggerAction) {
    let press = s.shot_start matches Some(t) && now >= t;
    let release = s.shot_end matches Some(t) && now >= t;
    let next = TriggerbotState {
        shot_start: if press { None } else { s.shot_start },
        shot_end: if release { None } else { s.shot_end },
        cooldown_until: if release && s.pending_cooldown is Some {
            Some((now + s.pending_cooldown->0) as u128)
        } else {
            s.cooldown_until
        },
        pending_cooldown: if release { None } else { s.pending_cooldown },
        active: s.active,
    };
    (next, TriggerAction { press, release })
}

/// Whether the triggerbot may arm a new shot at `now`: no shot is pending and
/// the refire cooldown, if any, has run out.
pub open spec fn may_arm(s: TriggerbotState, now: u128) -> bool {
    &&& s.shot_start is None
    &&& s.shot_end is None
    &&& s.cooldown_until matches Some(c) ==> now >= c
}

/// The state after a shot was scheduled at `now`.
pub open spec fn scheduled(
    s: TriggerbotState,
    now: u128,
    delay: u128,
    shot_duration: u128,
    cooldown: u128,
) -> TriggerbotState {
    TriggerbotState {
        shot_start: Some((now + delay) as u128),
        shot_end: Some((now + delay + shot_duration) as u128),
        pending_cooldown: Some(cooldown),
        ..s
    }
}

/// The cycle of one shot. A shot armed and scheduled at `now` does nothing
/// before its start; a tick between its start and end presses the button;
/// a tick at or after its end releases it and starts the refire cooldown,
/// after which a new shot can be armed exactly once the cooldown has run
/// out.
pub proof fn lemma_shot_cycle(
    s: TriggerbotState,
    now: u128,
    delay: u128,
    shot_duration: u128,
    cooldown: u128,
    t_early: u128,
    t_press: u128,
    t_release: u128,
)
    requires
        trigger_wf(s),
        s.shot_start is None,
        s.shot_end is None,
        s.cooldown_until is None,
        now + delay + shot_duration <= u128::MAX,
        t_early < now + delay,
        now + delay <= t_press < now + delay + shot_duration,
        t_press <= t_release,
        now + delay + shot_duration <= t_release,
        t_release + cooldown <= u128::MAX,
    ensures
        ({
            let s1 = scheduled(s, now, delay, shot_duration, cooldown);
            let (s2, a2) = shoot_step(s1, t_press);
            let (s3, a3) = shoot_step(s2, t_release);
            &&& shoot_step(s1, t_early) == (s1, TriggerAction { press: false, release: false })
            &&& !may_arm(s1, t_early)
            &&& a2 == TriggerAction { press: true, release: false }
            &&& !may_arm(s2, t_press)
            &&& a3 == TriggerAction { press: false, release: true }
            &&& s3.cooldown_until == Some((t_release + cooldown) as u128)
            &&& forall|t: u128| may_arm(s3, t) <==> t >= t_release + cooldown
        }),
{
}

/// A tick never presses or releases twice for one shot: a second tick at the
/// same clock reading does nothing and changes nothing, and the bound that
/// the first tick needed on the pending cooldown still holds for it.
pub proof fn lemma_shoot_twice_same_time(s: TriggerbotState, now: u128)
    ensures
        shoot_step(shoot_step(s, now).0, now) == (
            shoot_step(s, now).0,
            TriggerAction { press: false, release: false },
        ),
        (s.pending_cooldown matches Some(c) ==> now + c <= u128::MAX) ==> (shoot_step(
            s,
            now,
        ).0.pending_cooldown matches Some(c) ==> now + c <= u128::MAX),
{
}

/// Shot scheduling state of the triggerbot.
#[derive(Debug)]
pub struct Triggerbot {
    shot_start: Option<u128>,
    shot_end: Option<u128>,
    cooldown_until: Option<u128>,
    pending_cooldown: Option<u128>,
    pub active: bool,
}

impl View for Triggerbot {
    type V = TriggerbotState;

    closed spec fn view(&self) -> TriggerbotState {
        TriggerbotState {
            shot_start: self.shot_start,
            shot_end: self.shot_end,
            cooldown_until: self.cooldown_until,
            pending_cooldown: self.pending_cooldown,
            active: self.active,
        }
    }
}

/// The triggerbot's invariant: a pending press is followed by a release no
/// earlier than it, a pending cooldown belongs to a pending release, and no
/// cooldown runs while a shot is pending.
pub open spec fn trigger_wf(s: TriggerbotState) -> bool {
    &&& s.shot_start matches Some(t) ==> (s.shot_end matches Some(e) && t <= e)
    &&& s.pending_cooldown is Some ==> s.shot_end is Some
    &&& s.cooldown_until is Some ==> (s.shot_start is None && s.shot_end is None)
}

impl Triggerbot {
    /// An idle triggerbot: nothing pending, no cooldown, not active.
    pub fn new() -> (t: Triggerbot)
        ensures
            t@ == (TriggerbotState {
                shot_start: None,
                shot_end: None,
                cooldown_until: None,
                pending_cooldown: None,
                active: false,
            }),
            trigger_wf(t@),
    {
        Triggerbot {
            shot_start: None,
            shot_end: None,
            cooldown_until: None,
            pending_cooldown: None,
            active: false,
        }
    }

    /// The refire cooldown that starts when the pending shot is released.
    pub fn pending_cooldown(&self) -> (c: Option<u128>)
        ensures
            c == self@.pending_cooldown,
    {
        self.pending_cooldown
    }

    /// Checks at `now` whether a new shot may be armed. A shot that is still
    /// pending, or a refire cooldown that has not run out, refuses it; a
    /// cooldown that has run out is cleared.
    pub fn try_arm(&mut self, now: u128) -> (armed: bool)
        requires
            trigger_wf(old(self)@),
        ensures
            armed == may_arm(old(self)@, now),
            armed ==> final(self)@ == (TriggerbotState { cooldown_until: None, ..old(self)@ }),
            !armed ==> final(self)@ == old(self)@,
            trigger_wf(final(self)@),
    {
        if self.shot_start.is_some() || self.shot_end.is_some() {
            return false;
        }
        if let Some(cooldown_until) = self.cooldown_until {
            if now < cooldown_until {
                return false;
            }
            self.cooldown_until = None;
        }
        true
    }

    /// Schedules a shot armed at `now`: the button is pressed after `delay`,
    /// held for `shot_duration`, and the refire cooldown `cooldown` starts
    /// when it is released.
    pub fn schedule_shot(&mut self, now: u128, delay: u128, shot_duration: u128, cooldown: u128)
        requires
            trigger_wf(old(self)@),
            old(self)@.shot_start is None,
            old(self)@.shot_end is None,
            old(self)@.cooldown_until is None,
            now + delay + shot_duration <= u128::MAX,
        ensures
            final(self)@ == scheduled(old(self)@, now, delay, shot_duration, cooldown),
            trigger_wf(final(self)@),
    {
        let start = now + delay;
        self.shot_start = Some(start);
        self.shot_end = Some(start + shot_duration);
        self.pending_cooldown = Some(cooldown);
    }

    /// One tick of the shot at `now`: presses the button once the shot's
    /// start is reached and releases it once its end is reached; the release
    /// starts the pending refire cooldown.
    pub fn triggerbot_shoot(&mut self, now: u128) -> (action: TriggerAction)
        requires
            trigger_wf(old(self)@),
            old(self)@.pending_cooldown matches Some(c) ==> now + c <= u128::MAX,
        ensures
            (final(self)@, action) == shoot_step(old(self)@, now),
            trigger_wf(final(self)@),
            action.release ==> final(self)@.shot_start is None,
    {
        let mut press = false;
        let mut release = false;
        if let Some(shot_time) = self.shot_start {
            if now >= shot_time {
                press = true;
                self.shot_start = None;
            }
        }
        if let Some(shot_end) = self.shot_end {
            if now >= shot_end {
                release = true;
                self.shot_end = None;
                if let Some(cooldown) = self.pending_cooldown.take() {
                    self.cooldown_until = Some(now + cooldown);
                }
            }
        }
        TriggerAction { press, release }
    }
}

} // verus!

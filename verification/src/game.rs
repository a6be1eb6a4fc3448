//! Decisions of the game loop: which status the UI is told about, and how
//! long the loop sleeps between ticks.
use vstd::prelude::*;

verus! {

/// The game status shown in the UI.
#[derive(Debug, Clone, Copy, PartialEq, Eq, Structural)]
pub enum GameStatus {
    NotStarted,
    Working,
}

/// The outcome of one status check: the status now in force, and the
/// status message to send to the UI, if any.
#[derive(Debug, Clone, Copy, PartialEq, Eq)]
pub struct StatusStep {
    pub status: GameStatus,
    pub message: Option<GameStatus>,
}

/// The status in force when the game is (or is not) valid.
pub open spec fn status_for(is_valid: bool) -> GameStatus {
    if is_valid { GameStatus::Working } else { GameStatus::NotStarted }
}

/// The outcome of a validity check made with `previous` in force.
pub open spec fn status_after(previous: GameStatus, is_valid: bool) -> StatusStep {
    let status = status_for(is_valid);
    StatusStep {
        status,
        message: if previous != status { Some(status) } else { None },
    }
}

/// The status in force and the messages sent after a series of validity
/// checks, starting with `previous` in force.
pub open spec fn statuses_after(previous: GameStatus, checks: Seq<bool>) -> (GameStatus, Seq<GameStatus>)
    decreases checks.len(),
{
    if checks.len() == 0 {
        (previous, Seq::empty())
    } else {
        let (before, sent) = statuses_after(previous, checks.drop_last());
        let step = status_after(before, checks.last());
        (step.status, match step.message {
            Some(m) => sent.push(m),
            None => sent,
        })
    }
}

/// Consecutive elements of `s` differ.
pub open spec fn alternates(s: Seq<GameStatus>) -> bool {
    forall|i: int| 0 <= i < s.len() - 1 ==> #[trigger] s[i] != s[i + 1]
}

/// The status messages the UI receives alternate: after the status in force
/// at the start, whatever validity checks follow, each message differs from
/// the one before it, and the last one sent is the status in force.
pub proof fn lemma_status_messages_alternate(previous: GameStatus, checks: Seq<bool>)
    ensures
        alternates(seq![previous] + statuses_after(previous, checks).1),
        (seq![previous] + statuses_after(previous, checks).1).last()
            == statuses_after(previous, checks).0,
    decreases checks.len(),
{
    if checks.len() > 0 {
        lemma_status_messages_alternate(previous, checks.drop_last());
        let (before, sent) = statuses_after(previous, checks.drop_last());
        let all0 = seq![previous] + sent;
        let step = status_after(before, checks.last());
        if let Some(m) = step.message {
            assert(seq![previous] + sent.push(m) =~= all0.push(m));
            assert forall|i: int| 0 <= i < all0.push(m).len() - 1 implies #[trigger] all0.push(m)[i]
                != all0.push(m)[i + 1] by {
                if i < all0.len() - 1 {
                    assert(all0.push(m)[i] == all0[i]);
                    assert(all0.push(m)[i + 1] == all0[i + 1]);
                }
            }
        }
    }
}

/// Updates the status after a validity check of the game process. A valid
/// game makes the status `Working`, an invalid one `NotStarted`; the UI is
/// told exactly when the status changes, and then of the new status.
pub fn status_step(previous: GameStatus, is_valid: bool) -> (step: StatusStep)
    ensures
        step.status == status_for(is_valid),
        step.message == (if previous != step.status { Some(step.status) } else { None::<GameStatus> }),
        step == status_after(previous, is_valid),
{
    if is_valid {
        if previous == GameStatus::NotStarted {
            StatusStep { status: GameStatus::Working, message: Some(GameStatus::Working) }
        } else {
            StatusStep { status: previous, message: None }
        }
    } else {
        if previous == GameStatus::Working {
            StatusStep { status: GameStatus::NotStarted, message: Some(GameStatus::NotStarted) }
        } else {
            StatusStep { status: previous, message: None }
        }
    }
}

/// How long one tick of the game loop lasts: 2 ms.
///
/// The overlay only draws the latest snapshot this loop writes, so the view
/// matrix is read this often to keep the ESP current.
pub const LOOP_DURATION_NS: u128 = 2_000_000;

/// How long the loop sleeps after a tick that took `elapsed`: the rest of
/// the tick, or nothing when the tick overran.
pub fn loop_sleep(elapsed: u128) -> (sleep: Option<u128>)
    ensures
        elapsed < LOOP_DURATION_NS ==> sleep == Some((LOOP_DURATION_NS - elapsed) as u128),
        elapsed >= LOOP_DURATION_NS ==> sleep is None,
{
    if elapsed < LOOP_DURATION_NS {
        Some(LOOP_DURATION_NS - elapsed)
    } else {
        None
    }
}

/// How long the loop pauses while the game is not running: 5 s.
pub const IDLE_SLEEP_NS: u128 = 5_000_000_000;

/// How one iteration of the game loop ends.
#[derive(Debug, Clone, Copy, PartialEq, Eq)]
pub struct IterationEnd {
    /// Clear the data shared with the overlay.
    pub reset_data: bool,
    /// Report the tick's duration to the UI.
    pub send_frame_time: bool,
    /// How long to sleep before the next iteration.
    pub sleep: Option<u128>,
}

/// How an iteration that took `elapsed` ends. With a valid game the tick's
/// duration is reported and the loop sleeps for the rest of the tick; with
/// an invalid one the shared data is cleared and the loop pauses for
/// [`IDLE_SLEEP_NS`].
pub fn iteration_end(is_valid: bool, elapsed: u128) -> (end: IterationEnd)
    ensures
        is_valid ==> end == (IterationEnd {
            reset_data: false,
            send_frame_time: true,
            sleep: if elapsed < LOOP_DURATION_NS {
                Some((LOOP_DURATION_NS - elapsed) as u128)
            } else {
                None
            },
        }),
        !is_valid ==> end == (IterationEnd {
            reset_data: true,
            send_frame_time: false,
            sleep: Some(IDLE_SLEEP_NS),
        }),
{
    if is_valid {
        IterationEnd { reset_data: false, send_frame_time: true, sleep: loop_sleep(elapsed) }
    } else {
        IterationEnd { reset_data: true, send_frame_time: false, sleep: Some(IDLE_SLEEP_NS) }
    }
}

} // verus!

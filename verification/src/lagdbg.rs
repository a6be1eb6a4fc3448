//! Timing instrumentation for the game loop's data/lock hot path.
//!
//! [`Timing::sample`] is fed once per game-loop tick and hands back a summary
//! about once per second. Points in time are nanoseconds on a monotonic clock
//! and durations are nanoseconds.
use vstd::prelude::*;

verus! {

/// How long a summary period lasts: one second.
pub const REPORT_INTERVAL_NS: u128 = 1_000_000_000;

/// The longest duration there is (`Duration::MAX`), in nanoseconds.
pub const MAX_DURATION_NS: u128 = 18_446_744_073_709_551_615_999_999_999;

/// One period's totals: the ticks sampled and the time they spent in the
/// data update and waiting for the lock.
#[derive(Debug, Clone, Copy, PartialEq, Eq)]
pub struct TimingReport {
    pub samples: u32,
    pub data_accum: u128,
    pub lock_accum: u128,
}

/// The abstract state of a [`Timing`].
pub struct TimingState {
    pub samples: nat,
    pub data_accum: nat,
    pub lock_accum: nat,
    /// When the current period began.
    pub last: nat,
}

/// Time since `last` at `now`, zero when `now` lies before it.
pub open spec fn elapsed_since(last: nat, now: nat) -> nat {
    if now >= last { (now - last) as nat } else { 0 }
}

/// One tick's measurements: the lock wait, the data update's duration, and
/// when the tick was sampled.
pub struct Tick {
    pub lock_wait: nat,
    pub data_elapsed: nat,
    pub now: nat,
}

/// A period's totals: ticks sampled, data update time, lock wait time.
pub struct Totals {
    pub samples: nat,
    pub data_accum: nat,
    pub lock_accum: nat,
}

/// The state and report after sampling one tick.
pub open spec fn sample_step(s: TimingState, t: Tick) -> (TimingState, Option<Totals>) {
    let samples = s.samples + 1;
    let data = s.data_accum + t.data_elapsed;
    let lock = s.lock_accum + t.lock_wait;
    if elapsed_since(s.last, t.now) < REPORT_INTERVAL_NS {
        (TimingState { samples, data_accum: data, lock_accum: lock, last: s.last }, None)
    } else {
        (
            TimingState { samples: 0, data_accum: 0, lock_accum: 0, last: t.now },
            Some(Totals { samples, data_accum: data, lock_accum: lock }),
        )
    }
}

/// The totals a report holds.
pub open spec fn report_totals(r: Option<TimingReport>) -> Option<Totals> {
    match r {
        Some(r) => Some(
            Totals {
                samples: r.samples as nat,
                data_accum: r.data_accum as nat,
                lock_accum: r.lock_accum as nat,
            },
        ),
        None => None,
    }
}

/// The state after sampling `ticks` in order, and what each call returned.
pub open spec fn samples_after(s: TimingState, ticks: Seq<Tick>) -> (TimingState, Seq<Option<Totals>>)
    decreases ticks.len(),
{
    if ticks.len() == 0 {
        (s, Seq::empty())
    } else {
        let (before, reports) = samples_after(s, ticks.drop_last());
        let (after, r) = sample_step(before, ticks.last());
        (after, reports.push(r))
    }
}

/// Total lock wait of `ticks`.
pub open spec fn total_lock_wait(ticks: Seq<Tick>) -> nat
    decreases ticks.len(),
{
    if ticks.len() == 0 { 0 } else { total_lock_wait(ticks.drop_last()) + ticks.last().lock_wait }
}

/// Total data update time of `ticks`.
pub open spec fn total_data_elapsed(ticks: Seq<Tick>) -> nat
    decreases ticks.len(),
{
    if ticks.len() == 0 {
        0
    } else {
        total_data_elapsed(ticks.drop_last()) + ticks.last().data_elapsed
    }
}

/// A period that began at `start` with nothing accumulated.
pub open spec fn fresh_period(start: nat) -> TimingState {
    TimingState { samples: 0, data_accum: 0, lock_accum: 0, last: start }
}

proof fn lemma_quiet_prefix(start: nat, ticks: Seq<Tick>, k: int)
    requires
        0 <= k <= ticks.len(),
        forall|j: int| 0 <= j < k ==> elapsed_since(start, #[trigger] ticks[j].now) < REPORT_INTERVAL_NS,
    ensures
        samples_after(fresh_period(start), ticks.take(k)).0 == (TimingState {
            samples: k as nat,
            data_accum: total_data_elapsed(ticks.take(k)),
            lock_accum: total_lock_wait(ticks.take(k)),
            last: start,
        }),
        forall|j: int| 0 <= j < k ==> (#[trigger] samples_after(fresh_period(start), ticks.take(k)).1[j]) is None,
        samples_after(fresh_period(start), ticks.take(k)).1.len() == k,
    decreases k,
{
    if k > 0 {
        lemma_quiet_prefix(start, ticks, k - 1);
        assert(ticks.take(k).drop_last() =~= ticks.take(k - 1));
        assert(ticks.take(k).last() == ticks[k - 1]);
    }
}

/// A period's report covers exactly the ticks since the period began: when
/// a period begins at `start` (a fresh timing, or the previous report), the
/// ticks sampled before a full period has passed return nothing, and the
/// first tick at or after the end of the period reports the number of ticks
/// since `start` and their total times, and begins the next period.
pub proof fn lemma_period_report(start: nat, ticks: Seq<Tick>)
    requires
        ticks.len() > 0,
        forall|j: int| 0 <= j < ticks.len() - 1 ==> elapsed_since(start, #[trigger] ticks[j].now)
            < REPORT_INTERVAL_NS,
        elapsed_since(start, ticks.last().now) >= REPORT_INTERVAL_NS,
    ensures
        forall|j: int| 0 <= j < ticks.len() - 1 ==> (#[trigger] samples_after(fresh_period(start), ticks).1[j]) is None,
        samples_after(fresh_period(start), ticks).1.last() == Some(
            Totals {
                samples: ticks.len(),
                data_accum: total_data_elapsed(ticks),
                lock_accum: total_lock_wait(ticks),
            },
        ),
        samples_after(fresh_period(start), ticks).0 == fresh_period(ticks.last().now),
{
    let k = ticks.len() - 1;
    lemma_quiet_prefix(start, ticks, k);
    assert(ticks.drop_last() =~= ticks.take(k));
}

/// Accumulates per-tick timings and reports them once per period.
#[derive(Debug)]
pub struct Timing {
    samples: u32,
    data_accum: u128,
    lock_accum: u128,
    last: u128,
}

impl View for Timing {
    type V = TimingState;

    closed spec fn view(&self) -> TimingState {
        TimingState {
            samples: self.samples as nat,
            data_accum: self.data_accum as nat,
            lock_accum: self.lock_accum as nat,
            last: self.last as nat,
        }
    }
}

impl Timing {
    /// Starts the first period at `now` with nothing accumulated.
    pub fn new(now: u128) -> (t: Timing)
        ensures
            t@ == (TimingState { samples: 0, data_accum: 0, lock_accum: 0, last: now as nat }),
    {
        Timing { samples: 0, data_accum: 0, lock_accum: 0, last: now }
    }

    /// Ticks sampled in the current period.
    pub fn samples(&self) -> (n: u32)
        ensures
            n == self@.samples,
    {
        self.samples
    }

    /// Time spent in the data update during the current period.
    pub fn data_accum(&self) -> (d: u128)
        ensures
            d == self@.data_accum,
    {
        self.data_accum
    }

    /// Time spent waiting for the lock during the current period.
    pub fn lock_accum(&self) -> (d: u128)
        ensures
            d == self@.lock_accum,
    {
        self.lock_accum
    }

    /// Accumulates one tick's measurements, taken at `now`. Once a full
    /// period has passed since the current one began, returns the period's
    /// totals and starts a new period at `now`; otherwise returns `None`.
    pub fn sample(&mut self, lock_wait: u128, data_elapsed: u128, now: u128) -> (report: Option<
        TimingReport,
    >)
        requires
            old(self)@.samples < u32::MAX,
            old(self)@.data_accum + data_elapsed <= MAX_DURATION_NS,
            old(self)@.lock_accum + lock_wait <= MAX_DURATION_NS,
        ensures
            ({
                let samples = old(self)@.samples + 1;
                let data = old(self)@.data_accum + data_elapsed;
                let lock = old(self)@.lock_accum + lock_wait;
                if elapsed_since(old(self)@.last, now as nat) < REPORT_INTERVAL_NS {
                    &&& report is None
                    &&& final(self)@ == (TimingState {
                        samples: samples as nat,
                        data_accum: data as nat,
                        lock_accum: lock as nat,
                        last: old(self)@.last,
                    })
                } else {
                    &&& report == Some(
                        TimingReport {
                            samples: samples as u32,
                            data_accum: data as u128,
                            lock_accum: lock as u128,
                        },
                    )
                    &&& final(self)@ == (TimingState {
                        samples: 0,
                        data_accum: 0,
                        lock_accum: 0,
                        last: now as nat,
                    })
                }
            }),
            (final(self)@, report_totals(report)) == sample_step(
                old(self)@,
                Tick { lock_wait: lock_wait as nat, data_elapsed: data_elapsed as nat, now: now as nat },
            ),
    {
        self.samples = self.samples + 1;
        self.data_accum = self.data_accum + data_elapsed;
        self.lock_accum = self.lock_accum + lock_wait;

        let elapsed: u128 = if now >= self.last { now - self.last } else { 0 };
        if elapsed < REPORT_INTERVAL_NS {
            return None;
        }
        let report = TimingReport {
            samples: self.samples,
            data_accum: self.data_accum,
            lock_accum: self.lock_accum,
        };
        self.samples = 0;
        self.data_accum = 0;
        self.lock_accum = 0;
        self.last = now;
        Some(report)
    }
}

} // verus!

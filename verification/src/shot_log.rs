//! The shot log behind the HUD list: counts every classified bullet and keeps
//! the most recent ones.
use vstd::prelude::*;

verus! {

/// Maximum number of recent shots kept for the HUD list.
pub const MAX_ENTRIES: usize = 8;

/// One classified bullet.
///
/// `bone` is the game's index of the bone the shot was aimed closest to, and
/// `distance_bits` the bit pattern of the `f32` distance to that bone; the
/// log only carries both through.
#[derive(Debug, Clone, Copy, PartialEq, Eq)]
pub struct ShotEntry {
    pub headshot: bool,
    pub bone: u64,
    pub distance_bits: u32,
}

impl ShotEntry {
    /// A shot classified as aimed closest to `bone`; it is a headshot when
    /// that bone is the head or the neck, whose indices are given.
    pub fn classified(bone: u64, head_bone: u64, neck_bone: u64, distance_bits: u32) -> (e: ShotEntry)
        ensures
            e.headshot == (bone == head_bone || bone == neck_bone),
            e.bone == bone,
            e.distance_bits == distance_bits,
    {
        ShotEntry { headshot: bone == head_bone || bone == neck_bone, bone, distance_bits }
    }
}

/// What the HUD draws: the recent entries, oldest first, and the counters.
#[derive(Debug, Clone)]
pub struct ShotLogData {
    pub entries: Vec<ShotEntry>,
    pub total: u32,
    pub headshots: u32,
}

/// The abstract state of a [`ShotLog`].
pub struct ShotLogState {
    /// Last observed shots-fired counter of the local player.
    pub last_shots_fired: int,
    /// The most recent recorded shots, oldest first.
    pub entries: Seq<ShotEntry>,
    /// All shots recorded so far.
    pub total: nat,
    /// Recorded shots classified as headshots.
    pub headshots: nat,
}

/// 1 for a headshot, 0 otherwise.
pub open spec fn headshot_count(e: ShotEntry) -> nat {
    if e.headshot { 1 } else { 0 }
}

/// Number of headshots in a sequence of entries.
pub open spec fn count_headshots(es: Seq<ShotEntry>) -> nat
    decreases es.len(),
{
    if es.len() == 0 {
        0
    } else {
        count_headshots(es.drop_last()) + headshot_count(es.last())
    }
}

impl ShotLogState {
    /// The state after recording one entry.
    pub open spec fn record(self, e: ShotEntry) -> ShotLogState {
        let pushed = self.entries.push(e);
        ShotLogState {
            last_shots_fired: self.last_shots_fired,
            entries: if pushed.len() > MAX_ENTRIES { pushed.drop_first() } else { pushed },
            total: self.total + 1,
            headshots: self.headshots + headshot_count(e),
        }
    }

    /// The state after recording the same entry `n` times.
    pub open spec fn record_times(self, e: ShotEntry, n: nat) -> ShotLogState
        decreases n,
    {
        if n == 0 {
            self
        } else {
            self.record_times(e, (n - 1) as nat).record(e)
        }
    }

    /// The state after recording the entries of `es` in order.
    pub open spec fn record_all(self, es: Seq<ShotEntry>) -> ShotLogState
        decreases es.len(),
    {
        if es.len() == 0 {
            self
        } else {
            self.record_all(es.drop_last()).record(es.last())
        }
    }
}

/// How many bullets a tick attributes to one classified bone: the new shots,
/// at most [`MAX_ENTRIES`], and none when there are none.
pub open spec fn attributed_shots(new_shots: int) -> nat {
    if new_shots <= 0 {
        0
    } else if new_shots > MAX_ENTRIES {
        MAX_ENTRIES as nat
    } else {
        new_shots as nat
    }
}

/// The shot log's invariant: at most [`MAX_ENTRIES`] entries are kept,
/// neither the kept entries nor the headshots outnumber all shots, and the
/// kept headshots do not outnumber the headshot counter.
pub open spec fn shot_log_inv(s: ShotLogState) -> bool {
    &&& s.entries.len() <= MAX_ENTRIES
    &&& s.entries.len() <= s.total
    &&& s.headshots <= s.total
    &&& count_headshots(s.entries) <= s.headshots
}

/// Counting headshots from the front: the first entry, then the rest.
proof fn lemma_count_headshots_front(es: Seq<ShotEntry>)
    requires
        es.len() > 0,
    ensures
        count_headshots(es) == headshot_count(es[0]) + count_headshots(es.drop_first()),
    decreases es.len(),
{
    if es.len() > 1 {
        lemma_count_headshots_front(es.drop_last());
        assert(es.drop_last().drop_first() =~= es.drop_first().drop_last());
        assert(es.drop_first().last() == es.last());
        assert(es.drop_last()[0] == es[0]);
        assert(count_headshots(es) == count_headshots(es.drop_last()) + headshot_count(es.last()));
        assert(count_headshots(es.drop_first()) == count_headshots(es.drop_first().drop_last())
            + headshot_count(es.drop_first().last()));
    } else {
        assert(es.drop_first().len() == 0);
        assert(es.drop_last().len() == 0);
        assert(count_headshots(es.drop_first()) == 0);
        assert(count_headshots(es.drop_last()) == 0);
        assert(count_headshots(es) == count_headshots(es.drop_last()) + headshot_count(es.last()));
    }
}

/// Recording one entry keeps the shot log's invariant.
pub proof fn lemma_record_keeps_inv(s: ShotLogState, e: ShotEntry)
    requires
        shot_log_inv(s),
    ensures
        shot_log_inv(s.record(e)),
{
    let pushed = s.entries.push(e);
    assert(pushed.drop_last() =~= s.entries);
    assert(count_headshots(pushed) == count_headshots(s.entries) + headshot_count(e));
    if pushed.len() > MAX_ENTRIES {
        lemma_count_headshots_front(pushed);
    }
}

/// An operation on the shot log.
pub enum ShotLogOp {
    Record(ShotEntry),
    Reset,
}

/// The state after applying `ops` in order.
pub open spec fn apply_ops(s: ShotLogState, ops: Seq<ShotLogOp>) -> ShotLogState
    decreases ops.len(),
{
    if ops.len() == 0 {
        s
    } else {
        let before = apply_ops(s, ops.drop_last());
        match ops.last() {
            ShotLogOp::Record(e) => before.record(e),
            ShotLogOp::Reset => ShotLogState { last_shots_fired: 0, ..before },
        }
    }
}

/// Whatever records and resets follow, the shot log's invariant holds: at
/// most [`MAX_ENTRIES`] entries, no more kept entries or headshots than
/// shots, and no more kept headshots than the headshot counter.
pub proof fn lemma_ops_keep_inv(s: ShotLogState, ops: Seq<ShotLogOp>)
    requires
        shot_log_inv(s),
    ensures
        shot_log_inv(apply_ops(s, ops)),
    decreases ops.len(),
{
    if ops.len() > 0 {
        lemma_ops_keep_inv(s, ops.drop_last());
        if let ShotLogOp::Record(e) = ops.last() {
            lemma_record_keeps_inv(apply_ops(s, ops.drop_last()), e);
        }
    }
}

/// Tracks fired shots and keeps the recent ones for the HUD.
#[derive(Debug)]
pub struct ShotLog {
    last_shots_fired: i32,
    entries: Vec<ShotEntry>,
    total: u32,
    headshots: u32,
}

impl View for ShotLog {
    type V = ShotLogState;

    closed spec fn view(&self) -> ShotLogState {
        ShotLogState {
            last_shots_fired: self.last_shots_fired as int,
            entries: self.entries@,
            total: self.total as nat,
            headshots: self.headshots as nat,
        }
    }
}

impl ShotLog {
    /// The log's invariant, [`shot_log_inv`] of its state.
    pub open spec fn wf(&self) -> bool {
        shot_log_inv(self@)
    }

    /// An empty log.
    pub fn new() -> (log: ShotLog)
        ensures
            log.wf(),
            log@.last_shots_fired == 0,
            log@.entries == Seq::<ShotEntry>::empty(),
            log@.total == 0,
            log@.headshots == 0,
    {
        ShotLog { last_shots_fired: 0, entries: Vec::new(), total: 0, headshots: 0 }
    }

    /// Records one shot: counts it, and keeps it as the newest entry,
    /// dropping the oldest when more than [`MAX_ENTRIES`] would be kept.
    pub fn record(&mut self, entry: ShotEntry)
        requires
            old(self).wf(),
            old(self)@.total < u32::MAX,
        ensures
            final(self).wf(),
            final(self)@ == old(self)@.record(entry),
            final(self)@.entries.len() <= MAX_ENTRIES,
    {
        self.total = self.total + 1;
        if entry.headshot {
            self.headshots = self.headshots + 1;
        }
        self.entries.push(entry);
        if self.entries.len() > MAX_ENTRIES {
            self.entries.remove(0);
        }
        proof {
            let pushed = old(self)@.entries.push(entry);
            if pushed.len() > MAX_ENTRIES {
                assert(pushed.remove(0) =~= pushed.drop_first());
            }
            lemma_record_keeps_inv(old(self)@, entry);
        }
    }

    /// Forgets the observed shots-fired counter, so that the next
    /// observation starts from zero.
    pub fn reset(&mut self)
        requires
            old(self).wf(),
        ensures
            final(self).wf(),
            final(self)@ == (ShotLogState { last_shots_fired: 0, ..old(self)@ }),
    {
        self.last_shots_fired = 0;
    }

    /// A copy of the entries and counters for the HUD.
    pub fn snapshot(&self) -> (data: ShotLogData)
        ensures
            data.entries@ == self@.entries,
            data.total == self@.total,
            data.headshots == self@.headshots,
            self.wf() ==> {
                &&& data.entries@.len() <= MAX_ENTRIES
                &&& data.headshots <= data.total
                &&& count_headshots(data.entries@) <= data.headshots
            },
    {
        let mut entries: Vec<ShotEntry> = Vec::new();
        let n = self.entries.len();
        let mut i: usize = 0;
        while i < n
            invariant
                n == self.entries@.len(),
                i <= n,
                entries@ == self.entries@.subrange(0, i as int),
            decreases n - i,
        {
            entries.push(self.entries[i]);
            i = i + 1;
            assert(entries@ =~= self.entries@.subrange(0, i as int));
        }
        assert(entries@ =~= self.entries@);
        ShotLogData { entries, total: self.total, headshots: self.headshots }
    }

    /// The last observed shots-fired counter.
    pub fn last_shots_fired(&self) -> (n: i32)
        ensures
            n == self@.last_shots_fired,
    {
        self.last_shots_fired
    }

    /// All shots recorded so far.
    pub fn total(&self) -> (total: u32)
        ensures
            total == self@.total,
    {
        self.total
    }

    /// Takes a new reading of the local player's shots-fired counter and
    /// returns how many shots were fired since the last reading. A counter
    /// that went down (new magazine, round or respawn) restarts the tracking
    /// and reports no new shot.
    pub fn observe_shots_fired(&mut self, shots_fired: i32) -> (new_shots: i32)
        requires
            old(self).wf(),
            old(self)@.last_shots_fired <= shots_fired ==>
                shots_fired - old(self)@.last_shots_fired <= i32::MAX,
        ensures
            final(self).wf(),
            final(self)@ == (ShotLogState { last_shots_fired: shots_fired as int, ..old(self)@ }),
            new_shots == (if shots_fired < old(self)@.last_shots_fired {
                0
            } else {
                shots_fired - old(self)@.last_shots_fired
            }),
            new_shots >= 0,
    {
        if shots_fired < self.last_shots_fired {
            self.last_shots_fired = shots_fired;
            return 0;
        }
        let new_shots = shots_fired - self.last_shots_fired;
        self.last_shots_fired = shots_fired;
        new_shots
    }

    /// Attributes the bullets of one tick to the same classified entry:
    /// records `entry` once per new shot, at most [`MAX_ENTRIES`] times.
    pub fn record_shots(&mut self, entry: ShotEntry, new_shots: i32)
        requires
            old(self).wf(),
            old(self)@.total + attributed_shots(new_shots as int) <= u32::MAX,
        ensures
            final(self).wf(),
            final(self)@ == old(self)@.record_times(entry, attributed_shots(new_shots as int)),
    {
        let count: i32 = if new_shots < MAX_ENTRIES as i32 { new_shots } else { MAX_ENTRIES as i32 };
        let mut i: i32 = 0;
        while i < count
            invariant
                count == (if new_shots < MAX_ENTRIES { new_shots as int } else { MAX_ENTRIES as int }),
                0 <= i,
                count > 0 ==> i <= count,
                count <= 0 ==> i == 0,
                self.wf(),
                self@ == old(self)@.record_times(entry, i as nat),
                old(self)@.total + attributed_shots(new_shots as int) <= u32::MAX,
            decreases count - i,
        {
            proof {
                assert(self@.total == old(self)@.total + i) by {
                    lemma_record_times_total(old(self)@, entry, i as nat);
                }
            }
            self.record(entry);
            i = i + 1;
        }
    }
}

/// The last `MAX_ENTRIES` elements of `s` (all of `s` when it is shorter).
pub open spec fn recent(s: Seq<ShotEntry>) -> Seq<ShotEntry> {
    if s.len() > MAX_ENTRIES {
        s.subrange(s.len() - MAX_ENTRIES, s.len() as int)
    } else {
        s
    }
}

/// Whatever shots are recorded, the log keeps exactly the most recent
/// [`MAX_ENTRIES`] of the kept and newly recorded entries, oldest first; the
/// total grows by the number of recorded shots and the headshot counter by
/// the number of headshots among them.
pub proof fn lemma_recent_entries(s: ShotLogState, es: Seq<ShotEntry>)
    requires
        s.entries.len() <= MAX_ENTRIES,
    ensures
        s.record_all(es).entries == recent(s.entries + es),
        s.record_all(es).total == s.total + es.len(),
        s.record_all(es).headshots == s.headshots + count_headshots(es),
        s.record_all(es).last_shots_fired == s.last_shots_fired,
    decreases es.len(),
{
    if es.len() > 0 {
        let init = es.drop_last();
        let e = es.last();
        lemma_recent_entries(s, init);
        let all0 = s.entries + init;
        let all = s.entries + es;
        assert(all =~= all0.push(e));
        let w = recent(all0);
        let pushed = w.push(e);
        if all0.len() > MAX_ENTRIES {
            assert(pushed.drop_first() =~= recent(all));
        } else if all.len() > MAX_ENTRIES {
            assert(pushed.drop_first() =~= recent(all));
        } else {
            assert(pushed =~= recent(all));
        }
    }
}

/// Attributing several bullets of a tick to one entry is the same as
/// recording that entry once per bullet.
pub proof fn lemma_record_times_repeats(s: ShotLogState, e: ShotEntry, n: nat)
    ensures
        s.record_times(e, n) == s.record_all(Seq::new(n, |i: int| e)),
    decreases n,
{
    if n > 0 {
        lemma_record_times_repeats(s, e, (n - 1) as nat);
        let es = Seq::new(n, |i: int| e);
        assert(es.drop_last() =~= Seq::new((n - 1) as nat, |i: int| e));
    }
}

/// Recording an entry `n` times adds `n` to the total.
proof fn lemma_record_times_total(s: ShotLogState, e: ShotEntry, n: nat)
    ensures
        s.record_times(e, n).total == s.total + n,
    decreases n,
{
    if n > 0 {
        lemma_record_times_total(s, e, (n - 1) as nat);
    }
}

} // verus!

//! The watchdog state that a monitored task and its monitor share: a
//! heartbeat counter, a restart counter and a running flag.
use std::time::Instant;
use vstd::prelude::*;

verus! {

/// `std::time::Instant`, carried through unread: the moment a task was created.
#[verifier::external_type_specification]
#[verifier::external_body]
pub struct ExInstant(Instant);

/// Reads the clock through `std::time::Instant::now`. The moment it returns
/// depends on when it is called, so nothing is claimed of it.
#[verifier::external_body]
fn instant_now() -> (r: Instant) {
    Instant::now()
}

/// Statistics about a durable task's execution.
#[derive(Debug, Clone, Copy)]
pub struct TaskStats {
    /// Number of times the task has been restarted.
    pub restarts: i32,
    /// When the task was initially created.
    pub created_at: Instant,
    /// Whether the task is currently running.
    pub is_running: bool,
}

/// What a watchdog holds, as values.
pub struct WatchdogModel {
    /// The heartbeat counter.
    pub beats: i32,
    /// The restart counter.
    pub restarts: i32,
    /// Whether the task is asked to keep running.
    pub running: bool,
    /// When the watchdog was made.
    pub created_at: Instant,
}

/// The model of a watchdog after one heartbeat: the heartbeat counter goes up
/// by one, wrapping around at the ends of `i32`.
pub open spec fn after_heartbeat(w: WatchdogModel) -> WatchdogModel {
    WatchdogModel { beats: w.beats.wrapping_add(1), ..w }
}

/// The model of a watchdog after a stop request: it is no longer running.
pub open spec fn after_stop(w: WatchdogModel) -> WatchdogModel {
    WatchdogModel { running: false, ..w }
}

/// The model of a watchdog after a restart has been recorded: the restart
/// counter goes up by one, wrapping around at the ends of `i32`.
pub open spec fn after_restart(w: WatchdogModel) -> WatchdogModel {
    WatchdogModel { restarts: w.restarts.wrapping_add(1), ..w }
}

/// The statistics that a watchdog reports.
pub open spec fn stats_of(w: WatchdogModel) -> TaskStats {
    TaskStats { restarts: w.restarts, created_at: w.created_at, is_running: w.running }
}

/// Watchdog state shared between a task and its monitor.
pub struct WatchdogInner {
    last_beat: i32,
    restarts: i32,
    is_running: bool,
    created_at: Instant,
}

impl View for WatchdogInner {
    type V = WatchdogModel;

    closed spec fn view(&self) -> WatchdogModel {
        WatchdogModel {
            beats: self.last_beat,
            restarts: self.restarts,
            running: self.is_running,
            created_at: self.created_at,
        }
    }
}

impl WatchdogInner {
    /// Creates a new watchdog: no heartbeats, no restarts, running, created now.
    pub fn new() -> (r: Self)
        ensures
            r@.beats == 0,
            r@.restarts == 0,
            r@.running,
    {
        WatchdogInner { last_beat: 0, restarts: 0, is_running: true, created_at: instant_now() }
    }

    /// Records a heartbeat from the monitored task.
    ///
    /// The task must call this periodically to show that it is alive and
    /// making progress; the monitor restarts a task whose counter stops moving.
    pub fn heartbeat(&mut self)
        ensures
            final(self)@ == after_heartbeat(old(self)@),
    {
        self.last_beat = self.last_beat.wrapping_add(1);
    }

    /// Returns the current heartbeat counter.
    pub fn last_heartbeat(&self) -> (r: i32)
        ensures
            r == self@.beats,
    {
        self.last_beat
    }

    /// Signals the task to stop running: `should_continue` answers `false`
    /// from now on, and the monitor stops restarting the task.
    pub fn stop(&mut self)
        ensures
            final(self)@ == after_stop(old(self)@),
    {
        self.is_running = false;
    }

    /// Whether the task should keep running, that is, whether no stop has
    /// been requested.
    pub fn should_continue(&self) -> (r: bool)
        ensures
            r == self@.running,
    {
        self.is_running
    }

    /// Returns the statistics of the task.
    pub fn get_stats(&self) -> (r: TaskStats)
        ensures
            r == stats_of(self@),
    {
        TaskStats { restarts: self.restarts, created_at: self.created_at, is_running: self.is_running }
    }

    /// Increments the restart counter; the monitor calls this each time it
    /// restarts the task.
    pub fn record_restart(&mut self)
        ensures
            final(self)@ == after_restart(old(self)@),
    {
        self.restarts = self.restarts.wrapping_add(1);
    }
}

/// After a stop request the task is told to stop, a second request changes
/// nothing, and the counters are untouched.
pub proof fn lemma_stop_halts(w: WatchdogModel)
    ensures
        !after_stop(w).running,
        after_stop(after_stop(w)) == after_stop(w),
        after_stop(w).beats == w.beats,
        after_stop(w).restarts == w.restarts,
        !stats_of(after_stop(w)).is_running,
{
}

/// A stopped watchdog stays stopped: heartbeats and restarts do not make it
/// run again.
pub proof fn lemma_stopped_stays_stopped(w: WatchdogModel)
    requires
        !w.running,
    ensures
        !after_heartbeat(w).running,
        !after_restart(w).running,
{
}

/// The counters are independent: a heartbeat changes only the heartbeat
/// counter, a recorded restart only the restart counter, each by one (where it
/// does not wrap around).
pub proof fn lemma_counters_independent(w: WatchdogModel)
    ensures
        after_heartbeat(w).restarts == w.restarts,
        after_heartbeat(w).running == w.running,
        after_restart(w).beats == w.beats,
        after_restart(w).running == w.running,
        w.beats < i32::MAX ==> after_heartbeat(w).beats == w.beats + 1,
        w.restarts < i32::MAX ==> after_restart(w).restarts == w.restarts + 1,
        w.beats == i32::MAX ==> after_heartbeat(w).beats == i32::MIN,
{
}

/// An operation on a watchdog.
#[derive(Clone, Copy, Debug, PartialEq, Eq, Structural)]
pub enum WatchdogOp {
    Heartbeat,
    RecordRestart,
    Stop,
}

/// The model of a watchdog after one operation.
pub open spec fn apply_op(w: WatchdogModel, op: WatchdogOp) -> WatchdogModel {
    match op {
        WatchdogOp::Heartbeat => after_heartbeat(w),
        WatchdogOp::RecordRestart => after_restart(w),
        WatchdogOp::Stop => after_stop(w),
    }
}

/// The model of a watchdog after a sequence of operations, in order.
pub open spec fn apply_ops(w: WatchdogModel, ops: Seq<WatchdogOp>) -> WatchdogModel
    decreases ops.len(),
{
    if ops.len() == 0 {
        w
    } else {
        apply_op(apply_ops(w, ops.drop_last()), ops.last())
    }
}

/// How many times `op` occurs in `ops`.
pub open spec fn count_op(ops: Seq<WatchdogOp>, op: WatchdogOp) -> nat
    decreases ops.len(),
{
    if ops.len() == 0 {
        0
    } else {
        count_op(ops.drop_last(), op) + if ops.last() == op { 1nat } else { 0nat }
    }
}

/// The model of a watchdog after `k` heartbeats.
pub open spec fn heartbeats(w: WatchdogModel, k: nat) -> WatchdogModel
    decreases k,
{
    if k == 0 {
        w
    } else {
        after_heartbeat(heartbeats(w, (k - 1) as nat))
    }
}

/// The number of values of an `i32`.
pub open spec fn i32_range() -> int {
    4_294_967_296
}

/// `k` heartbeats raise the heartbeat counter by `k` modulo the range of an
/// `i32`, by exactly `k` where that does not pass `i32::MAX`, and leave
/// everything else as it was. None of them is lost: with at least one and
/// fewer than 2^32 heartbeats the counter differs from where it started.
pub proof fn lemma_heartbeats(w: WatchdogModel, k: nat)
    ensures
        exists|q: int| #[trigger] (i32_range() * q) == heartbeats(w, k).beats - w.beats - k && 0 <= -q <= k,
        w.beats + k <= i32::MAX ==> heartbeats(w, k).beats == w.beats + k,
        0 < k < i32_range() ==> heartbeats(w, k).beats != w.beats,
        heartbeats(w, k).restarts == w.restarts,
        heartbeats(w, k).running == w.running,
        heartbeats(w, k).created_at == w.created_at,
    decreases k,
{
    if k == 0 {
        assert(i32_range() * 0 == heartbeats(w, k).beats - w.beats - k);
    } else {
        lemma_heartbeats(w, (k - 1) as nat);
        let prev = heartbeats(w, (k - 1) as nat);
        let q = choose|q: int| #[trigger] (i32_range() * q) == prev.beats - w.beats - (k - 1) && 0 <= -q <= k - 1;
        if prev.beats == i32::MAX {
            assert(i32_range() * (q - 1) == heartbeats(w, k).beats - w.beats - k);
        } else {
            assert(i32_range() * q == heartbeats(w, k).beats - w.beats - k);
        }
        let q2 = choose|q: int| #[trigger] (i32_range() * q) == heartbeats(w, k).beats - w.beats - k && 0 <= -q <= k;
        if 0 < k < i32_range() && heartbeats(w, k).beats == w.beats {
            assert(i32_range() * q2 == -k);
            assert(false) by (nonlinear_arith)
                requires
                    i32_range() * q2 == -k,
                    0 < k < i32_range(),
                    i32_range() == 4_294_967_296,
            ;
        }
    }
}

/// The running flag after any sequence of operations is set exactly when it
/// was set before and the sequence holds no stop; so a new watchdog answers
/// `should_continue` with `true` until the first stop, and with `false` ever
/// after.
pub proof fn lemma_running_until_stop(w: WatchdogModel, ops: Seq<WatchdogOp>)
    ensures
        apply_ops(w, ops).running == (w.running && count_op(ops, WatchdogOp::Stop) == 0),
    decreases ops.len(),
{
    if ops.len() > 0 {
        lemma_running_until_stop(w, ops.drop_last());
    }
}

/// Across any sequence of operations the creation time stays, the restart
/// counter grows by the number of recorded restarts (where it does not pass
/// `i32::MAX`), the heartbeat counter by the number of heartbeats (likewise),
/// and a stopped watchdog stays stopped: so of two statistics read one after
/// the other, the later has the same creation time, at least as many
/// restarts, and is not running if the earlier was not.
pub proof fn lemma_ops_counts(w: WatchdogModel, ops: Seq<WatchdogOp>)
    ensures
        apply_ops(w, ops).created_at == w.created_at,
        w.restarts + count_op(ops, WatchdogOp::RecordRestart) <= i32::MAX ==> apply_ops(w, ops).restarts == w.restarts
            + count_op(ops, WatchdogOp::RecordRestart),
        w.beats + count_op(ops, WatchdogOp::Heartbeat) <= i32::MAX ==> apply_ops(w, ops).beats == w.beats + count_op(
            ops,
            WatchdogOp::Heartbeat,
        ),
        !w.running ==> !apply_ops(w, ops).running,
        w.restarts + count_op(ops, WatchdogOp::RecordRestart) <= i32::MAX ==> stats_of(apply_ops(w, ops)).restarts
            >= stats_of(w).restarts,
    decreases ops.len(),
{
    if ops.len() > 0 {
        lemma_ops_counts(w, ops.drop_last());
    }
}

} // verus!

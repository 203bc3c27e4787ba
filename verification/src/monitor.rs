//! The decisions of the monitor that keeps a durable task alive.
//!
//! The monitor is a state machine. The driver performs the action that the
//! monitor asks for (sleep, spawn the task, watch it, abort it, release it,
//! finish) and answers with the event that ended it, together with the time
//! elapsed since the driver started. The monitor then reads and updates the
//! watchdog and names the next action.
//!
//! One monitor run goes: an optional initial delay; then, while the watchdog
//! is running, an optional wait so that restarts are spaced by at least the
//! minimum restart interval, the restart bookkeeping, a spawn of the task, and
//! watch periods of one heartbeat timeout each, until the task ends by itself
//! or a whole period passes with no heartbeat, in which case the task is
//! aborted. A stopped watchdog is honoured at every point where the monitor
//! would start the task: after a stop, no task instance is started again.
use crate::span::Span;
use crate::watchdog::{after_heartbeat, after_restart, after_stop, heartbeats, i32_range, lemma_heartbeats, WatchdogInner, WatchdogModel};
use vstd::prelude::*;

verus! {

/// Where the monitor stands, that is, which action it waits on.
#[derive(Clone, Copy, Debug, PartialEq, Eq, Structural)]
pub enum MonitorPhase {
    /// Not started.
    Ready,
    /// Sleeping through the initial delay.
    Delaying,
    /// Sleeping so that restarts are not closer than the minimum interval.
    BackingOff,
    /// Waiting for a task instance to be spawned.
    Spawning,
    /// Watching the task instance for one heartbeat timeout.
    Watching,
    /// Waiting for an unresponsive task instance to be aborted.
    Aborting,
    /// Waiting for the handle of a finished task instance to be released.
    Releasing,
    /// Done: the watchdog was stopped.
    Finished,
}

/// What the driver reports back after performing an action.
#[derive(Clone, Copy, Debug, PartialEq, Eq, Structural)]
pub enum MonitorEvent {
    /// The monitor is to start.
    Begin,
    /// A requested sleep is over.
    Woke,
    /// A task instance was spawned and its abort handle stored.
    Spawned,
    /// A whole heartbeat timeout passed while the task instance ran.
    TimedOut,
    /// The task instance ended by itself: it returned, panicked or failed.
    TaskExited,
    /// The task instance's handle was released (after an abort, if asked).
    Released,
}

/// What the monitor asks the driver to do next.
#[derive(Clone, Copy, Debug, PartialEq, Eq, Structural)]
pub enum MonitorAction {
    /// Sleep for this long, then report `Woke`.
    Sleep(Span),
    /// Spawn a new instance of the task, store its abort handle, then report
    /// `Spawned`.
    SpawnTask,
    /// Wait for the task instance to end or for this long to pass, whichever
    /// comes first, and report `TaskExited` or `TimedOut`.
    Watch(Span),
    /// Abort the task instance, release its handle, then report `Released`.
    AbortTask,
    /// Release the handle of the ended task instance, then report `Released`.
    ReleaseTask,
    /// Stop monitoring.
    Finish,
}

/// A monitor action, with spans as numbers of nanoseconds.
pub enum ActionModel {
    Sleep(nat),
    SpawnTask,
    Watch(nat),
    AbortTask,
    ReleaseTask,
    Finish,
}

/// What a monitor holds, with spans as numbers of nanoseconds.
pub struct MonitorModel {
    pub phase: MonitorPhase,
    /// The heartbeat counter read at the start of the current watch period.
    pub current_beat: i32,
    /// Whether no task instance has been spawned yet.
    pub initial_start: bool,
    /// When the latest restart happened, as time since the driver started.
    pub last_restart: Option<nat>,
    pub heartbeat_timeout: nat,
    pub delayed_start: Option<nat>,
    pub restart_interval: Option<nat>,
}

/// What holds of every monitor: once it waits for a restart interval, spawns,
/// watches or winds down an instance, the first instance has been started;
/// and a restart time is recorded only after the first instance started.
pub open spec fn monitor_wf(m: MonitorModel) -> bool {
    &&& (m.phase == MonitorPhase::BackingOff || m.phase == MonitorPhase::Spawning || m.phase
        == MonitorPhase::Watching || m.phase == MonitorPhase::Aborting || m.phase == MonitorPhase::Releasing)
        ==> !m.initial_start
    &&& m.last_restart is Some ==> !m.initial_start
}

/// The view of an optional span.
pub open spec fn opt_nanos(s: Option<Span>) -> Option<nat> {
    match s {
        Some(d) => Some(d@),
        None => None,
    }
}

/// The view of an action.
pub open spec fn action_model(a: MonitorAction) -> ActionModel {
    match a {
        MonitorAction::Sleep(d) => ActionModel::Sleep(d@),
        MonitorAction::SpawnTask => ActionModel::SpawnTask,
        MonitorAction::Watch(d) => ActionModel::Watch(d@),
        MonitorAction::AbortTask => ActionModel::AbortTask,
        MonitorAction::ReleaseTask => ActionModel::ReleaseTask,
        MonitorAction::Finish => ActionModel::Finish,
    }
}

/// A fresh monitor with the given heartbeat timeout, initial delay and
/// minimum restart interval.
pub open spec fn initial_monitor(
    heartbeat_timeout: nat,
    delayed_start: Option<nat>,
    restart_interval: Option<nat>,
) -> MonitorModel {
    MonitorModel {
        phase: MonitorPhase::Ready,
        current_beat: 0,
        initial_start: true,
        last_restart: None,
        heartbeat_timeout,
        delayed_start,
        restart_interval,
    }
}

/// Whether `event` answers the action that a monitor in `phase` waits on.
pub open spec fn answers(phase: MonitorPhase, event: MonitorEvent) -> bool {
    match phase {
        MonitorPhase::Ready => event == MonitorEvent::Begin,
        MonitorPhase::Delaying => event == MonitorEvent::Woke,
        MonitorPhase::BackingOff => event == MonitorEvent::Woke,
        MonitorPhase::Spawning => event == MonitorEvent::Spawned,
        MonitorPhase::Watching => event == MonitorEvent::TimedOut || event == MonitorEvent::TaskExited,
        MonitorPhase::Aborting => event == MonitorEvent::Released,
        MonitorPhase::Releasing => event == MonitorEvent::Released,
        MonitorPhase::Finished => false,
    }
}

/// `now - since`, or zero where `since` is later.
pub open spec fn elapsed_since(now: nat, since: nat) -> nat {
    if now >= since { (now - since) as nat } else { 0 }
}

/// A new task instance is started: the first one is no restart; every later
/// one is recorded on the watchdog as a restart, at time `now`.
pub open spec fn launch(m: MonitorModel, w: WatchdogModel, now: nat) -> (MonitorModel, WatchdogModel, ActionModel) {
    if m.initial_start {
        (MonitorModel { phase: MonitorPhase::Spawning, initial_start: false, ..m }, w, ActionModel::SpawnTask)
    } else {
        (
            MonitorModel { phase: MonitorPhase::Spawning, last_restart: Some(now), ..m },
            after_restart(w),
            ActionModel::SpawnTask,
        )
    }
}

/// The top of the restart loop, also reached when a wait for the restart
/// interval ends: finish when the watchdog was stopped; else wait out the rest
/// of the minimum restart interval if the latest restart is more recent than
/// that; else start a task instance.
pub open spec fn loop_top(m: MonitorModel, w: WatchdogModel, now: nat) -> (MonitorModel, WatchdogModel, ActionModel) {
    if !w.running {
        (MonitorModel { phase: MonitorPhase::Finished, ..m }, w, ActionModel::Finish)
    } else {
        match (m.last_restart, m.restart_interval) {
            (Some(t), Some(f)) if elapsed_since(now, t) < f => (
                MonitorModel { phase: MonitorPhase::BackingOff, ..m },
                w,
                ActionModel::Sleep((f - elapsed_since(now, t)) as nat),
            ),
            _ => launch(m, w, now),
        }
    }
}

/// A watch period begins: the heartbeat counter is read.
pub open spec fn watch(m: MonitorModel, w: WatchdogModel) -> (MonitorModel, WatchdogModel, ActionModel) {
    (
        MonitorModel { phase: MonitorPhase::Watching, current_beat: w.beats, ..m },
        w,
        ActionModel::Watch(m.heartbeat_timeout),
    )
}

/// One step of the monitor on an event that answers its pending action, at
/// time `now` since the driver started. At the end of a watch period the
/// heartbeat counter is read again: unchanged since the period began, the
/// instance is unresponsive and is aborted; changed, a new period begins.
pub open spec fn step_model(m: MonitorModel, w: WatchdogModel, event: MonitorEvent, now: nat) -> (
    MonitorModel,
    WatchdogModel,
    ActionModel,
) {
    match m.phase {
        MonitorPhase::Ready => match m.delayed_start {
            Some(d) => (MonitorModel { phase: MonitorPhase::Delaying, ..m }, w, ActionModel::Sleep(d)),
            None => loop_top(m, w, now),
        },
        MonitorPhase::Delaying => loop_top(m, w, now),
        MonitorPhase::BackingOff => loop_top(m, w, now),
        MonitorPhase::Spawning => watch(m, w),
        MonitorPhase::Watching => if event == MonitorEvent::TaskExited {
            (MonitorModel { phase: MonitorPhase::Releasing, ..m }, w, ActionModel::ReleaseTask)
        } else if w.beats == m.current_beat {
            (MonitorModel { phase: MonitorPhase::Aborting, ..m }, w, ActionModel::AbortTask)
        } else {
            watch(m, w)
        },
        MonitorPhase::Aborting => loop_top(m, w, now),
        MonitorPhase::Releasing => loop_top(m, w, now),
        MonitorPhase::Finished => (m, w, ActionModel::Finish),
    }
}

/// The monitor of a durable task.
pub struct Monitor {
    phase: MonitorPhase,
    current_beat: i32,
    initial_start: bool,
    last_restart: Option<Span>,
    heartbeat_timeout: Span,
    delayed_start: Option<Span>,
    restart_interval: Option<Span>,
}

impl View for Monitor {
    type V = MonitorModel;

    closed spec fn view(&self) -> MonitorModel {
        MonitorModel {
            phase: self.phase,
            current_beat: self.current_beat,
            initial_start: self.initial_start,
            last_restart: opt_nanos(self.last_restart),
            heartbeat_timeout: self.heartbeat_timeout@,
            delayed_start: opt_nanos(self.delayed_start),
            restart_interval: opt_nanos(self.restart_interval),
        }
    }
}

impl Monitor {
    #[verifier::type_invariant]
    spec fn well_formed(self) -> bool {
        monitor_wf(self@)
    }

    /// A monitor that has not started, with the given heartbeat timeout,
    /// initial delay and minimum interval between restarts.
    pub fn new(heartbeat_timeout: Span, delayed_start: Option<Span>, restart_interval: Option<Span>) -> (r: Monitor)
        ensures
            r@ == initial_monitor(heartbeat_timeout@, opt_nanos(delayed_start), opt_nanos(restart_interval)),
            monitor_wf(r@),
    {
        Monitor {
            phase: MonitorPhase::Ready,
            current_beat: 0,
            initial_start: true,
            last_restart: None,
            heartbeat_timeout,
            delayed_start,
            restart_interval,
        }
    }

    /// Where the monitor stands.
    pub fn phase(&self) -> (r: MonitorPhase)
        ensures
            r == self@.phase,
            monitor_wf(self@),
    {
        proof {
            use_type_invariant(self);
        }
        self.phase
    }

    fn with_phase(&self, phase: MonitorPhase) -> (r: Monitor)
        requires
            monitor_wf(MonitorModel { phase, ..self@ }),
        ensures
            r@ == (MonitorModel { phase, ..self@ }),
    {
        Monitor { phase, ..*self }
    }

    fn loop_top(&self, watchdog: &mut WatchdogInner, now: Span) -> (r: (Monitor, MonitorAction))
        ensures
            (r.0@, final(watchdog)@, action_model(r.1)) == loop_top(self@, old(watchdog)@, now@),
    {
        proof {
            use_type_invariant(self);
        }
        if !watchdog.should_continue() {
            return (self.with_phase(MonitorPhase::Finished), MonitorAction::Finish);
        }
        match (self.last_restart, self.restart_interval) {
            (Some(t), Some(f)) => {
                let elapsed = now.saturating_sub(&t);
                if elapsed.shorter_than(&f) {
                    return (self.with_phase(MonitorPhase::BackingOff), MonitorAction::Sleep(f.saturating_sub(&elapsed)));
                }
            },
            _ => {},
        }
        self.launch(watchdog, now)
    }

    fn launch(&self, watchdog: &mut WatchdogInner, now: Span) -> (r: (Monitor, MonitorAction))
        ensures
            (r.0@, final(watchdog)@, action_model(r.1)) == launch(self@, old(watchdog)@, now@),
    {
        proof {
            use_type_invariant(self);
        }
        if self.initial_start {
            (Monitor { phase: MonitorPhase::Spawning, initial_start: false, ..*self }, MonitorAction::SpawnTask)
        } else {
            watchdog.record_restart();
            (Monitor { phase: MonitorPhase::Spawning, last_restart: Some(now), ..*self }, MonitorAction::SpawnTask)
        }
    }

    fn watch(&self, watchdog: &WatchdogInner) -> (r: (Monitor, MonitorAction))
        requires
            !self@.initial_start,
        ensures
            (r.0@, watchdog@, action_model(r.1)) == watch(self@, watchdog@),
    {
        proof {
            use_type_invariant(self);
        }
        let beat = watchdog.last_heartbeat();
        (Monitor { phase: MonitorPhase::Watching, current_beat: beat, ..*self }, MonitorAction::Watch(self.heartbeat_timeout))
    }

    /// Takes the event that answers the pending action, reported at `now`
    /// (time since the driver started), and names the next action. An event
    /// that does not answer the pending action changes nothing and gives
    /// `None`.
    pub fn step(&mut self, watchdog: &mut WatchdogInner, event: MonitorEvent, now: Span) -> (r: Option<MonitorAction>)
        ensures
            answers(old(self)@.phase, event) ==> r.is_some() && (final(self)@, final(watchdog)@, action_model(r.unwrap()))
                == step_model(old(self)@, old(watchdog)@, event, now@),
            !answers(old(self)@.phase, event) ==> r.is_none() && final(self)@ == old(self)@ && final(watchdog)@ == old(watchdog)@,
            monitor_wf(old(self)@),
            monitor_wf(final(self)@),
    {
        proof {
            use_type_invariant(&*self);
        }
        let answered = match self.phase {
            MonitorPhase::Ready => event == MonitorEvent::Begin,
            MonitorPhase::Delaying | MonitorPhase::BackingOff => event == MonitorEvent::Woke,
            MonitorPhase::Spawning => event == MonitorEvent::Spawned,
            MonitorPhase::Watching => event == MonitorEvent::TimedOut || event == MonitorEvent::TaskExited,
            MonitorPhase::Aborting | MonitorPhase::Releasing => event == MonitorEvent::Released,
            MonitorPhase::Finished => false,
        };
        if !answered {
            return None;
        }
        let (next, action) = match self.phase {
            MonitorPhase::Ready => match self.delayed_start {
                Some(d) => (self.with_phase(MonitorPhase::Delaying), MonitorAction::Sleep(d)),
                None => self.loop_top(watchdog, now),
            },
            MonitorPhase::Spawning => self.watch(watchdog),
            MonitorPhase::Watching => {
                if event == MonitorEvent::TaskExited {
                    (self.with_phase(MonitorPhase::Releasing), MonitorAction::ReleaseTask)
                } else if watchdog.last_heartbeat() == self.current_beat {
                    (self.with_phase(MonitorPhase::Aborting), MonitorAction::AbortTask)
                } else {
                    self.watch(watchdog)
                }
            },
            _ => self.loop_top(watchdog, now),
        };
        proof {
            use_type_invariant(&next);
        }
        *self = next;
        Some(action)
    }
}

/// Something that happens to a monitored task: the task sends a heartbeat,
/// the task is stopped through its handle, or the driver reports an event to
/// the monitor at a time since the driver started.
pub enum Occurrence {
    Beat,
    Stop,
    Event(MonitorEvent, nat),
}

/// One if the action is a spawn, else zero.
pub open spec fn spawn_count(a: ActionModel) -> nat {
    if a is SpawnTask { 1 } else { 0 }
}

/// The monitor and watchdog after one occurrence, and how many task instances
/// the monitor asked to spawn on it. An event that does not answer the
/// pending action changes nothing, as with `Monitor::step`.
pub open spec fn occur(m: MonitorModel, w: WatchdogModel, o: Occurrence) -> (MonitorModel, WatchdogModel, nat) {
    match o {
        Occurrence::Beat => (m, after_heartbeat(w), 0),
        Occurrence::Stop => (m, after_stop(w), 0),
        Occurrence::Event(e, t) => if answers(m.phase, e) {
            let (m2, w2, a) = step_model(m, w, e, t);
            (m2, w2, spawn_count(a))
        } else {
            (m, w, 0)
        },
    }
}

/// The monitor and the watchdog after a sequence of occurrences, and how many
/// task instances the monitor asked to spawn on the way.
pub open spec fn run(m: MonitorModel, w: WatchdogModel, occs: Seq<Occurrence>) -> (MonitorModel, WatchdogModel, nat)
    decreases occs.len(),
{
    if occs.len() == 0 {
        (m, w, 0)
    } else {
        let (m1, w1, n) = run(m, w, occs.drop_last());
        let (m2, w2, k) = occur(m1, w1, occs.last());
        (m2, w2, n + k)
    }
}

/// Running two sequences one after the other is running their concatenation.
pub proof fn lemma_run_append(m: MonitorModel, w: WatchdogModel, a: Seq<Occurrence>, b: Seq<Occurrence>)
    ensures
        run(m, w, a + b) == ({
            let (m1, w1, n1) = run(m, w, a);
            let (m2, w2, n2) = run(m1, w1, b);
            (m2, w2, n1 + n2)
        }),
    decreases b.len(),
{
    if b.len() == 0 {
        assert(a + b =~= a);
    } else {
        assert((a + b).drop_last() =~= a + b.drop_last());
        lemma_run_append(m, w, a, b.drop_last());
    }
}

/// Every step keeps a well-formed monitor well-formed.
pub proof fn lemma_run_keeps_wf(m: MonitorModel, w: WatchdogModel, occs: Seq<Occurrence>)
    requires
        monitor_wf(m),
    ensures
        monitor_wf(run(m, w, occs).0),
    decreases occs.len(),
{
    if occs.len() > 0 {
        lemma_run_keeps_wf(m, w, occs.drop_last());
    }
}

/// A run never lowers the number of spawns of any of its prefixes.
proof fn lemma_run_spawns_grow(m: MonitorModel, w: WatchdogModel, occs: Seq<Occurrence>)
    requires
        occs.len() > 0,
    ensures
        run(m, w, occs.drop_last()).2 <= run(m, w, occs).2,
{
}

/// The restart counter counts restarts, whatever heartbeats and stops happen
/// between the monitor's steps: starting from a monitor that has spawned
/// nothing yet, the first task instance is no restart, and every later one
/// adds exactly one to the watchdog's restart counter. So after any run that
/// spawned at least once, the number of instances is the number of restarts
/// plus one. (Stated where the counter does not wrap around.)
pub proof fn lemma_restarts_count_spawns(m: MonitorModel, w: WatchdogModel, occs: Seq<Occurrence>)
    requires
        m.initial_start,
        w.restarts + run(m, w, occs).2 <= i32::MAX + 1,
    ensures
        run(m, w, occs).0.initial_start == (run(m, w, occs).2 == 0),
        run(m, w, occs).2 == 0 ==> run(m, w, occs).1.restarts == w.restarts,
        run(m, w, occs).2 > 0 ==> run(m, w, occs).1.restarts == w.restarts + run(m, w, occs).2 - 1,
    decreases occs.len(),
{
    if occs.len() > 0 {
        lemma_run_spawns_grow(m, w, occs);
        lemma_restarts_count_spawns(m, w, occs.drop_last());
    }
}

/// A finished monitor stays finished: nothing moves it, and nothing more is
/// spawned or counted.
pub proof fn lemma_finished_is_final(m: MonitorModel, w: WatchdogModel, occs: Seq<Occurrence>)
    requires
        m.phase == MonitorPhase::Finished,
    ensures
        run(m, w, occs).0 == m,
        run(m, w, occs).1.restarts == w.restarts,
        run(m, w, occs).2 == 0,
    decreases occs.len(),
{
    if occs.len() > 0 {
        lemma_finished_is_final(m, w, occs.drop_last());
    }
}

/// Once the watchdog is stopped it stays stopped, and the monitor starts no
/// task instance again and counts no restart, whatever phase it is in.
pub proof fn lemma_stop_ends_restarts(m: MonitorModel, w: WatchdogModel, occs: Seq<Occurrence>)
    requires
        !w.running,
    ensures
        !run(m, w, occs).1.running,
        run(m, w, occs).1.restarts == w.restarts,
        run(m, w, occs).2 == 0,
    decreases occs.len(),
{
    if occs.len() > 0 {
        lemma_stop_ends_restarts(m, w, occs.drop_last());
    }
}

/// No start after a stop: whatever happened before a stop, everything after
/// it spawns nothing more and counts no further restart, and the task handle
/// reads as not running from the stop on.
pub proof fn lemma_no_start_after_stop(m: MonitorModel, w: WatchdogModel, before: Seq<Occurrence>, after: Seq<Occurrence>)
    ensures
        run(m, w, before.push(Occurrence::Stop) + after).2 == run(m, w, before).2,
        run(m, w, before.push(Occurrence::Stop) + after).1.restarts == run(m, w, before).1.restarts,
        !run(m, w, before.push(Occurrence::Stop) + after).1.running,
{
    lemma_run_append(m, w, before.push(Occurrence::Stop), after);
    assert(before.push(Occurrence::Stop).drop_last() =~= before);
    let (m1, w1, n1) = run(m, w, before.push(Occurrence::Stop));
    lemma_stop_ends_restarts(m1, w1, after);
}

/// A stopped watchdog is seen at the next point where the monitor would start
/// the task: after the initial delay, after the wait for the restart interval,
/// or after a task instance was released, the monitor finishes.
pub proof fn lemma_stop_finishes(m: MonitorModel, w: WatchdogModel, e: MonitorEvent, now: nat)
    requires
        !w.running,
        answers(m.phase, e),
        m.phase == MonitorPhase::Delaying || m.phase == MonitorPhase::BackingOff || m.phase == MonitorPhase::Aborting
            || m.phase == MonitorPhase::Releasing || (m.phase == MonitorPhase::Ready && m.delayed_start is None),
    ensures
        step_model(m, w, e, now) == (MonitorModel { phase: MonitorPhase::Finished, ..m }, w, ActionModel::Finish),
{
}

/// A watch period starts with a fresh reading of the heartbeat counter.
pub proof fn lemma_period_starts_with_reading(m: MonitorModel, w: WatchdogModel, now: nat)
    requires
        m.phase == MonitorPhase::Spawning,
    ensures
        step_model(m, w, MonitorEvent::Spawned, now).0.phase == MonitorPhase::Watching,
        step_model(m, w, MonitorEvent::Spawned, now).0.current_beat == w.beats,
        step_model(m, w, MonitorEvent::Spawned, now).2 == ActionModel::Watch(m.heartbeat_timeout),
{
}

/// A silent instance is aborted at the end of the first full period in which
/// it sends no heartbeat; when the instance ends by itself instead, its
/// handle is released.
pub proof fn lemma_silent_instance_aborted(m: MonitorModel, w: WatchdogModel, now: nat)
    requires
        m.phase == MonitorPhase::Watching,
        m.current_beat == w.beats,
    ensures
        step_model(m, w, MonitorEvent::TimedOut, now) == (MonitorModel { phase: MonitorPhase::Aborting, ..m }, w, ActionModel::AbortTask),
        step_model(m, w, MonitorEvent::TaskExited, now) == (MonitorModel { phase: MonitorPhase::Releasing, ..m }, w, ActionModel::ReleaseTask),
{
}

/// A period in which the instance sends `k` heartbeats, followed by its
/// timeout.
pub open spec fn beating_period(k: nat, now: nat) -> Seq<Occurrence>
    decreases k,
{
    if k == 0 {
        seq![Occurrence::Event(MonitorEvent::TimedOut, now)]
    } else {
        seq![Occurrence::Beat] + beating_period((k - 1) as nat, now)
    }
}

/// Periods with the given numbers of heartbeats, one after the other.
pub open spec fn beating_periods(ks: Seq<nat>, now: nat) -> Seq<Occurrence>
    decreases ks.len(),
{
    if ks.len() == 0 {
        seq![]
    } else {
        beating_periods(ks.drop_last(), now) + beating_period(ks.last(), now)
    }
}

proof fn lemma_beats_then_timeout(m: MonitorModel, w: WatchdogModel, k: nat, now: nat)
    requires
        m.phase == MonitorPhase::Watching,
    ensures
        run(m, w, beating_period(k, now)) == occur(m, heartbeats(w, k), Occurrence::Event(MonitorEvent::TimedOut, now)),
    decreases k,
{
    if k == 0 {
        assert(beating_period(k, now).drop_last() =~= Seq::<Occurrence>::empty());
        assert(run(m, w, beating_period(k, now).drop_last()) == (m, w, 0nat));
    } else {
        let one = seq![Occurrence::Beat];
        let rest = beating_period((k - 1) as nat, now);
        lemma_run_append(m, w, one, rest);
        lemma_beats_then_timeout(m, after_heartbeat(w), (k - 1) as nat, now);
        lemma_heartbeats_shift(w, (k - 1) as nat);
        assert(one.drop_last() =~= Seq::<Occurrence>::empty());
        assert(one.last() == Occurrence::Beat);
        assert(run(m, w, one.drop_last()) == (m, w, 0nat));
        assert(run(m, w, one) == (m, after_heartbeat(w), 0nat));
        assert(one + rest =~= beating_period(k, now));
    }
}

/// Heartbeats may be counted from the front as well as from the back.
proof fn lemma_heartbeats_shift(w: WatchdogModel, k: nat)
    ensures
        heartbeats(after_heartbeat(w), k) == heartbeats(w, k + 1),
    decreases k,
{
    if k > 0 {
        lemma_heartbeats_shift(w, (k - 1) as nat);
        assert(heartbeats(w, k + 1) == after_heartbeat(heartbeats(w, k)));
    } else {
        assert(heartbeats(w, 1) == after_heartbeat(heartbeats(w, 0)));
    }
}

/// An instance that sends at least one heartbeat in every watch period (and
/// fewer than 2^32, so that the counter cannot come round to the same value)
/// is never aborted: after any number of such periods it is still watched,
/// the latest period started with a fresh reading, and nothing was spawned.
pub proof fn lemma_beating_instance_never_aborted(m: MonitorModel, w: WatchdogModel, ks: Seq<nat>, now: nat)
    requires
        m.phase == MonitorPhase::Watching,
        m.current_beat == w.beats,
        forall|i: int| 0 <= i < ks.len() ==> 0 < #[trigger] ks[i] < i32_range(),
    ensures
        run(m, w, beating_periods(ks, now)).0.phase == MonitorPhase::Watching,
        run(m, w, beating_periods(ks, now)).0.current_beat == run(m, w, beating_periods(ks, now)).1.beats,
        run(m, w, beating_periods(ks, now)).1.restarts == w.restarts,
        run(m, w, beating_periods(ks, now)).2 == 0,
    decreases ks.len(),
{
    if ks.len() > 0 {
        let prefix = ks.drop_last();
        lemma_beating_instance_never_aborted(m, w, prefix, now);
        lemma_run_append(m, w, beating_periods(prefix, now), beating_period(ks.last(), now));
        let (m1, w1, n1) = run(m, w, beating_periods(prefix, now));
        lemma_beats_then_timeout(m1, w1, ks.last(), now);
        lemma_heartbeats(w1, ks.last());
    }
}

/// An instance that ends while the watchdog runs is followed by exactly one
/// more counted start: at once when no restart interval holds it back, or
/// after the wait for the rest of the interval.
pub proof fn lemma_exit_restarts(m: MonitorModel, w: WatchdogModel, now: nat)
    requires
        monitor_wf(m),
        w.running,
        m.phase == MonitorPhase::Releasing || m.phase == MonitorPhase::Aborting || m.phase == MonitorPhase::BackingOff,
    ensures
        step_model(m, w, MonitorEvent::Released, now).2 is SpawnTask ==> step_model(m, w, MonitorEvent::Released, now).1
            == after_restart(w),
        step_model(m, w, MonitorEvent::Released, now).2 is SpawnTask || step_model(m, w, MonitorEvent::Released, now).2 is Sleep,
        step_model(m, w, MonitorEvent::Released, now).2 is Sleep ==> step_model(m, w, MonitorEvent::Released, now).0.phase
            == MonitorPhase::BackingOff && step_model(m, w, MonitorEvent::Released, now).1 == w,
        m.restart_interval is None ==> step_model(m, w, MonitorEvent::Released, now).2 is SpawnTask,
{
}

/// Restart spacing: a restart happens only when at least the minimum restart
/// interval has passed since the previous one; otherwise the monitor sleeps
/// exactly the rest of the interval. The restart is then recorded at its own
/// time.
pub proof fn lemma_restart_spacing(m: MonitorModel, w: WatchdogModel, e: MonitorEvent, now: nat)
    requires
        monitor_wf(m),
        answers(m.phase, e),
        m.last_restart is Some,
        m.restart_interval is Some,
    ensures
        step_model(m, w, e, now).2 is SpawnTask ==> elapsed_since(now, m.last_restart->0) >= m.restart_interval->0
            && step_model(m, w, e, now).0.last_restart == Some(now),
        step_model(m, w, e, now).2 is Sleep && m.phase != MonitorPhase::Ready ==> step_model(m, w, e, now).2
            == ActionModel::Sleep((m.restart_interval->0 - elapsed_since(now, m.last_restart->0)) as nat),
{
}

/// The first step: a fresh monitor sleeps through the initial delay when it
/// has one; without one it spawns the first instance at once when the
/// watchdog is running, without counting a restart.
pub proof fn lemma_first_step(w: WatchdogModel, timeout: nat, delay: Option<nat>, interval: Option<nat>, now: nat)
    ensures
        monitor_wf(initial_monitor(timeout, delay, interval)),
        delay matches Some(d) ==> step_model(initial_monitor(timeout, delay, interval), w, MonitorEvent::Begin, now).2
            == ActionModel::Sleep(d),
        delay is None && w.running ==> step_model(initial_monitor(timeout, delay, interval), w, MonitorEvent::Begin, now).2
            is SpawnTask,
        step_model(initial_monitor(timeout, delay, interval), w, MonitorEvent::Begin, now).1 == w,
{
}

/// The monitor's settings never change: across any run, the heartbeat
/// timeout, the initial delay and the minimum restart interval stay those the
/// monitor was made with, whatever happens.
pub proof fn lemma_settings_fixed(m: MonitorModel, w: WatchdogModel, occs: Seq<Occurrence>)
    ensures
        run(m, w, occs).0.heartbeat_timeout == m.heartbeat_timeout,
        run(m, w, occs).0.delayed_start == m.delayed_start,
        run(m, w, occs).0.restart_interval == m.restart_interval,
    decreases occs.len(),
{
    if occs.len() > 0 {
        lemma_settings_fixed(m, w, occs.drop_last());
    }
}

/// Every watch period lasts the heartbeat timeout the monitor was made with:
/// after any run from a fresh monitor, whenever the next step asks to watch,
/// it asks to watch for exactly that timeout.
pub proof fn lemma_every_watch_is_timeout(
    t: nat,
    d: Option<nat>,
    f: Option<nat>,
    w: WatchdogModel,
    occs: Seq<Occurrence>,
    e: MonitorEvent,
    now: nat,
)
    ensures
        ({
            let (m1, w1, n) = run(initial_monitor(t, d, f), w, occs);
            step_model(m1, w1, e, now).2 is Watch ==> step_model(m1, w1, e, now).2 == ActionModel::Watch(t)
        }),
{
    lemma_settings_fixed(initial_monitor(t, d, f), w, occs);
}

/// The initial delay delays only the first start: a fresh monitor with a
/// delay sleeps exactly that delay, and when it wakes with the watchdog
/// running it starts the first instance at once, whatever the restart
/// interval, without counting a restart.
pub proof fn lemma_delay_then_first_start(t: nat, d: nat, f: Option<nat>, w: WatchdogModel, begin: nat, woke: nat)
    requires
        w.running,
    ensures
        ({
            let (m1, w1, a1) = step_model(initial_monitor(t, Some(d), f), w, MonitorEvent::Begin, begin);
            &&& a1 == ActionModel::Sleep(d)
            &&& w1 == w
            &&& answers(m1.phase, MonitorEvent::Woke)
            &&& step_model(m1, w1, MonitorEvent::Woke, woke).2 is SpawnTask
            &&& step_model(m1, w1, MonitorEvent::Woke, woke).1 == w
        }),
{
}

/// Without a minimum restart interval, an instance that ended (by itself or
/// by an abort) is restarted at once, and counted, at every restart of any
/// run from a fresh monitor, as long as the watchdog runs.
pub proof fn lemma_no_interval_restarts_at_once(
    t: nat,
    d: Option<nat>,
    w: WatchdogModel,
    occs: Seq<Occurrence>,
    now: nat,
)
    ensures
        ({
            let (m1, w1, n) = run(initial_monitor(t, d, None), w, occs);
            (m1.phase == MonitorPhase::Releasing || m1.phase == MonitorPhase::Aborting) && w1.running ==> {
                &&& step_model(m1, w1, MonitorEvent::Released, now).2 is SpawnTask
                &&& step_model(m1, w1, MonitorEvent::Released, now).1 == after_restart(w1)
            }
        }),
{
    let m0 = initial_monitor(t, d, None);
    lemma_settings_fixed(m0, w, occs);
    lemma_run_keeps_wf(m0, w, occs);
}

/// Whether an occurrence, after the given monitor and watchdog, is a step on
/// which the watchdog's restart counter moves.
pub open spec fn is_restart(m: MonitorModel, w: WatchdogModel, o: Occurrence) -> bool {
    match o {
        Occurrence::Event(e, t) => answers(m.phase, e) && step_model(m, w, e, t).1.restarts != w.restarts,
        _ => false,
    }
}

/// The times of the steps of a run on which the restart counter moved, in
/// order.
pub open spec fn restart_times(m: MonitorModel, w: WatchdogModel, occs: Seq<Occurrence>) -> Seq<nat>
    decreases occs.len(),
{
    if occs.len() == 0 {
        seq![]
    } else {
        let (m1, w1, n) = run(m, w, occs.drop_last());
        let prev = restart_times(m, w, occs.drop_last());
        if is_restart(m1, w1, occs.last()) {
            prev.push(occs.last()->Event_1)
        } else {
            prev
        }
    }
}

/// The recorded time of the latest restart changes only on a restart, and
/// then becomes that step's time.
pub proof fn lemma_last_restart_moves_only_on_restart(m: MonitorModel, w: WatchdogModel, e: MonitorEvent, now: nat)
    requires
        answers(m.phase, e),
    ensures
        step_model(m, w, e, now).0.last_restart != m.last_restart ==> step_model(m, w, e, now).1.restarts != w.restarts
            && step_model(m, w, e, now).0.last_restart == Some(now),
        step_model(m, w, e, now).1.restarts != w.restarts ==> step_model(m, w, e, now).0.last_restart == Some(now)
            && step_model(m, w, e, now).2 is SpawnTask,
{
}

/// Restarts are spaced by the minimum restart interval: in any run from a
/// fresh monitor with interval `f`, whatever heartbeats, stops and events
/// happen, at least `f` passes between any two consecutive restarts (by the
/// driver's clock; so the later one is at least `f` after the earlier one
/// whenever `f` is not zero). The first restart is not held back.
pub proof fn lemma_restarts_spaced(t: nat, d: Option<nat>, f: nat, w: WatchdogModel, occs: Seq<Occurrence>)
    ensures
        forall|i: int|
            0 <= i < restart_times(initial_monitor(t, d, Some(f)), w, occs).len() - 1 ==> elapsed_since(
                #[trigger] restart_times(initial_monitor(t, d, Some(f)), w, occs)[i + 1],
                restart_times(initial_monitor(t, d, Some(f)), w, occs)[i],
            ) >= f,
        f > 0 ==> forall|i: int|
            0 <= i < restart_times(initial_monitor(t, d, Some(f)), w, occs).len() - 1 ==> #[trigger] restart_times(
                initial_monitor(t, d, Some(f)),
                w,
                occs,
            )[i] + f <= restart_times(initial_monitor(t, d, Some(f)), w, occs)[i + 1],
{
    lemma_restarts_spaced_from(initial_monitor(t, d, Some(f)), w, occs, f);
}

proof fn lemma_restarts_spaced_from(m: MonitorModel, w: WatchdogModel, occs: Seq<Occurrence>, f: nat)
    requires
        m.restart_interval == Some(f),
        m.last_restart is None,
    ensures
        restart_times(m, w, occs).len() == 0 ==> run(m, w, occs).0.last_restart is None,
        restart_times(m, w, occs).len() > 0 ==> run(m, w, occs).0.last_restart == Some(
            restart_times(m, w, occs).last(),
        ),
        forall|i: int|
            0 <= i < restart_times(m, w, occs).len() - 1 ==> elapsed_since(
                #[trigger] restart_times(m, w, occs)[i + 1],
                restart_times(m, w, occs)[i],
            ) >= f,
        f > 0 ==> forall|i: int|
            0 <= i < restart_times(m, w, occs).len() - 1 ==> #[trigger] restart_times(m, w, occs)[i] + f
                <= restart_times(m, w, occs)[i + 1],
    decreases occs.len(),
{
    if occs.len() > 0 {
        let prefix = occs.drop_last();
        lemma_restarts_spaced_from(m, w, prefix, f);
        lemma_settings_fixed(m, w, prefix);
        let (m1, w1, n) = run(m, w, prefix);
        let prev = restart_times(m, w, prefix);
        let o = occs.last();
        if let Occurrence::Event(e, now) = o {
            if answers(m1.phase, e) {
                lemma_last_restart_moves_only_on_restart(m1, w1, e, now);
                if is_restart(m1, w1, o) {
                    let times = restart_times(m, w, occs);
                    assert(times == prev.push(now));
                    if prev.len() > 0 {
                        assert(elapsed_since(now, prev.last()) >= f);
                    }
                    assert forall|i: int| 0 <= i < times.len() - 1 implies elapsed_since(
                        #[trigger] times[i + 1],
                        times[i],
                    ) >= f by {
                        if i + 1 < prev.len() {
                            assert(times[i + 1] == prev[i + 1]);
                            assert(times[i] == prev[i]);
                        } else {
                            assert(times[i] == prev.last());
                        }
                    }
                }
            }
        }
    }
}

/// What each kind of action requires: the monitor starts an instance only
/// while the watchdog runs, finishes only once it is stopped, aborts only an
/// instance whose heartbeat counter has not moved during a whole watch period,
/// and touches nothing of the watchdog but its restart counter, which moves by
/// one exactly on a start that is not the first.
pub proof fn lemma_actions_follow_state(m: MonitorModel, w: WatchdogModel, e: MonitorEvent, now: nat)
    requires
        answers(m.phase, e),
    ensures
        step_model(m, w, e, now).2 is SpawnTask ==> w.running,
        step_model(m, w, e, now).2 is Finish ==> !w.running,
        step_model(m, w, e, now).2 is AbortTask ==> m.phase == MonitorPhase::Watching && e == MonitorEvent::TimedOut
            && w.beats == m.current_beat,
        step_model(m, w, e, now).1 == w || (step_model(m, w, e, now).1 == after_restart(w) && step_model(m, w, e, now).2 is SpawnTask
            && !m.initial_start),
        step_model(m, w, e, now).2 is SpawnTask && !m.initial_start ==> step_model(m, w, e, now).1 == after_restart(w),
        step_model(m, w, e, now).2 is SpawnTask ==> !step_model(m, w, e, now).0.initial_start,
{
}

/// An instance that ends by itself, while it is watched, always has its
/// handle released next, and nothing else changes.
pub proof fn lemma_exit_is_released(m: MonitorModel, w: WatchdogModel, now: nat)
    requires
        m.phase == MonitorPhase::Watching,
    ensures
        step_model(m, w, MonitorEvent::TaskExited, now) == (MonitorModel { phase: MonitorPhase::Releasing, ..m }, w, ActionModel::ReleaseTask),
{
}

} // verus!

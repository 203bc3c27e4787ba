//! The builder that configures a durable task before it is spawned.
use crate::monitor::{initial_monitor, opt_nanos, Monitor};
use crate::span::Span;
use vstd::prelude::*;

verus! {

/// Default heartbeat timeout, in seconds.
pub const DEFAULT_HEARTBEAT_TIMEOUT_SECS: u64 = 60;

/// The default heartbeat timeout in nanoseconds: one minute.
pub open spec fn default_heartbeat_timeout() -> nat {
    60 * 1_000_000_000
}

/// What a builder is configured with, with spans as numbers of nanoseconds.
pub struct SpawnSettings {
    /// How long a task may go without a heartbeat before it is restarted.
    pub heartbeat_timeout: nat,
    /// How long to wait before the task is first started.
    pub delayed_start: Option<nat>,
    /// The minimum time between restarts.
    pub restart_interval: Option<nat>,
}

/// Builder for configuring and spawning durable tasks.
///
/// `F` makes one instance of the task each time it is called; the driver
/// that spawns the task calls it once per start and restart.
#[must_use]
pub struct DurableSpawnBuilder<F> {
    task_creator: F,
    heartbeat_timeout: Span,
    delayed_start: Option<Span>,
    maximum_restart_frequency: Option<Span>,
}

impl<F> DurableSpawnBuilder<F> {
    /// The settings of this builder.
    pub closed spec fn settings(&self) -> SpawnSettings {
        SpawnSettings {
            heartbeat_timeout: self.heartbeat_timeout@,
            delayed_start: opt_nanos(self.delayed_start),
            restart_interval: opt_nanos(self.maximum_restart_frequency),
        }
    }

    /// The function that makes task instances.
    pub closed spec fn creator(&self) -> F {
        self.task_creator
    }

    /// Creates a new builder for a durable task, with the default heartbeat
    /// timeout, no initial delay and no minimum restart interval.
    pub fn new(task_creator: F) -> (r: Self)
        ensures
            r.creator() == task_creator,
            r.settings() == (SpawnSettings {
                heartbeat_timeout: default_heartbeat_timeout(),
                delayed_start: None,
                restart_interval: None,
            }),
    {
        DurableSpawnBuilder {
            task_creator,
            heartbeat_timeout: Span::from_secs(DEFAULT_HEARTBEAT_TIMEOUT_SECS),
            delayed_start: None,
            maximum_restart_frequency: None,
        }
    }

    /// Sets how long to wait for a heartbeat before the task is considered
    /// hung and restarted. The timeout must be non-zero.
    pub fn heartbeat_timeout(self, timeout: Span) -> (r: Self)
        requires
            timeout@ != 0,
        ensures
            r.creator() == self.creator(),
            r.settings() == (SpawnSettings { heartbeat_timeout: timeout@, ..self.settings() }),
    {
        let mut b = self;
        b.heartbeat_timeout = timeout;
        b
    }

    /// Sets a delay before the task is first started.
    pub fn delayed_start(self, delay: Span) -> (r: Self)
        ensures
            r.creator() == self.creator(),
            r.settings() == (SpawnSettings { delayed_start: Some(delay@), ..self.settings() }),
    {
        let mut b = self;
        b.delayed_start = Some(delay);
        b
    }

    /// Sets the minimum time between task restarts, which keeps a task that
    /// fails right after starting from being restarted in a tight loop.
    pub fn maximum_restart_frequency(self, frequency: Span) -> (r: Self)
        ensures
            r.creator() == self.creator(),
            r.settings() == (SpawnSettings { restart_interval: Some(frequency@), ..self.settings() }),
    {
        let mut b = self;
        b.maximum_restart_frequency = Some(frequency);
        b
    }

    /// The configured heartbeat timeout.
    pub fn get_heartbeat_timeout(&self) -> (r: Span)
        ensures
            r@ == self.settings().heartbeat_timeout,
    {
        self.heartbeat_timeout
    }

    /// The configured initial delay, if any.
    pub fn get_delayed_start(&self) -> (r: Option<Span>)
        ensures
            opt_nanos(r) == self.settings().delayed_start,
    {
        self.delayed_start
    }

    /// The configured minimum restart interval, if any.
    pub fn get_maximum_restart_frequency(&self) -> (r: Option<Span>)
        ensures
            opt_nanos(r) == self.settings().restart_interval,
    {
        self.maximum_restart_frequency
    }

    /// Splits the builder into the function that makes task instances and a
    /// fresh monitor configured with the builder's settings.
    pub fn into_parts(self) -> (r: (F, Monitor))
        ensures
            r.0 == self.creator(),
            r.1@ == initial_monitor(
                self.settings().heartbeat_timeout,
                self.settings().delayed_start,
                self.settings().restart_interval,
            ),
    {
        let monitor = Monitor::new(self.heartbeat_timeout, self.delayed_start, self.maximum_restart_frequency);
        (self.task_creator, monitor)
    }
}

} // verus!

use durable_spawn::builder::DurableSpawnBuilder;
use durable_spawn::monitor::{Monitor, MonitorAction, MonitorEvent, MonitorPhase};
use durable_spawn::span::Span;
use durable_spawn::watchdog::WatchdogInner;
use std::time::Duration;

fn ms(n: u64) -> Span {
    Span::from_millis(n)
}

// ---------------------------------------------------------------- spans

#[test]
fn span_constructors() {
    assert_eq!(Span::from_secs(2).as_nanos(), 2_000_000_000);
    assert_eq!(Span::from_millis(1500).as_nanos(), 1_500_000_000);
    assert_eq!(Span::from_nanos(7).as_nanos(), 7);
    assert_eq!(Span::zero().as_nanos(), 0);
    assert!(Span::zero().is_zero());
    assert!(!Span::from_nanos(1).is_zero());
    assert_eq!(Span::new(1, 2_500_000_000).as_nanos(), 3_500_000_000);
}

#[test]
fn span_parts_round_trip() {
    let s = Span::new(3, 250);
    assert_eq!(s.as_secs(), 3);
    assert_eq!(s.subsec_nanos(), 250);
    assert_eq!(Span::new(s.as_secs(), s.subsec_nanos()), s);
    let longest = Span::new(u64::MAX, 999_999_999);
    assert_eq!(longest.as_secs(), u64::MAX);
    assert_eq!(longest.subsec_nanos(), 999_999_999);
    let d = Duration::new(longest.as_secs(), longest.subsec_nanos());
    assert_eq!(d, Duration::MAX);
}

#[test]
fn span_compare_and_subtract() {
    assert!(ms(50).shorter_than(&ms(100)));
    assert!(!ms(100).shorter_than(&ms(100)));
    assert_eq!(ms(100).saturating_sub(&ms(30)), ms(70));
    assert_eq!(ms(30).saturating_sub(&ms(100)), Span::zero());
}

// ---------------------------------------------------------------- watchdog

#[test]
fn watchdog_starts_fresh() {
    let w = WatchdogInner::new();
    assert_eq!(w.last_heartbeat(), 0);
    assert!(w.should_continue());
    let stats = w.get_stats();
    assert_eq!(stats.restarts, 0);
    assert!(stats.is_running);
}

#[test]
fn watchdog_heartbeat_counts() {
    let mut w = WatchdogInner::new();
    w.heartbeat();
    w.heartbeat();
    w.heartbeat();
    assert_eq!(w.last_heartbeat(), 3);
    assert_eq!(w.get_stats().restarts, 0);
}

#[test]
fn watchdog_stop_is_final() {
    let mut w = WatchdogInner::new();
    w.stop();
    assert!(!w.should_continue());
    w.heartbeat();
    w.record_restart();
    assert!(!w.should_continue());
    w.stop();
    assert!(!w.should_continue());
    let stats = w.get_stats();
    assert!(!stats.is_running);
    assert_eq!(stats.restarts, 1);
    assert_eq!(w.last_heartbeat(), 1);
}

#[test]
fn watchdog_restart_counter() {
    let mut w = WatchdogInner::new();
    w.record_restart();
    w.record_restart();
    assert_eq!(w.get_stats().restarts, 2);
    assert_eq!(w.last_heartbeat(), 0);
}

#[test]
fn watchdog_created_at_is_kept() {
    let w = WatchdogInner::new();
    let a = w.get_stats().created_at;
    let b = w.get_stats().created_at;
    assert_eq!(a, b);
    assert!(a.elapsed() < Duration::from_secs(60));
}

// ---------------------------------------------------------------- builder

#[test]
fn builder_defaults() {
    let b = DurableSpawnBuilder::new(7u32);
    assert_eq!(b.get_heartbeat_timeout(), Span::from_secs(60));
    assert_eq!(b.get_delayed_start(), None);
    assert_eq!(b.get_maximum_restart_frequency(), None);
}

#[test]
fn builder_settings() {
    let b = DurableSpawnBuilder::new(7u32)
        .heartbeat_timeout(Span::from_secs(1))
        .delayed_start(ms(250))
        .maximum_restart_frequency(ms(100));
    assert_eq!(b.get_heartbeat_timeout(), Span::from_secs(1));
    assert_eq!(b.get_delayed_start(), Some(ms(250)));
    assert_eq!(b.get_maximum_restart_frequency(), Some(ms(100)));
    let (creator, monitor) = b.into_parts();
    assert_eq!(creator, 7);
    assert_eq!(monitor.phase(), MonitorPhase::Ready);
}

// ---------------------------------------------------------------- monitor

fn step(m: &mut Monitor, w: &mut WatchdogInner, e: MonitorEvent, now: Span) -> MonitorAction {
    m.step(w, e, now).expect("event answers the pending action")
}

#[test]
fn monitor_heartbeating_task_is_not_restarted() {
    // A task that heartbeats every period keeps running; after a stop the
    // monitor finishes once the instance is released.
    let mut w = WatchdogInner::new();
    let mut m = Monitor::new(Span::from_secs(1), None, None);
    assert_eq!(step(&mut m, &mut w, MonitorEvent::Begin, ms(0)), MonitorAction::SpawnTask);
    // The instance has not run yet when the monitor takes its first reading;
    // it then beats during every period.
    assert_eq!(step(&mut m, &mut w, MonitorEvent::Spawned, ms(1)), MonitorAction::Watch(Span::from_secs(1)));
    for k in 0..5u64 {
        w.heartbeat();
        let a = step(&mut m, &mut w, MonitorEvent::TimedOut, ms(1000 * (k + 1)));
        assert_eq!(a, MonitorAction::Watch(Span::from_secs(1)));
    }
    assert_eq!(w.get_stats().restarts, 0);
    assert!(w.get_stats().is_running);
    w.stop();
    assert_eq!(step(&mut m, &mut w, MonitorEvent::TaskExited, ms(5500)), MonitorAction::ReleaseTask);
    assert_eq!(step(&mut m, &mut w, MonitorEvent::Released, ms(5501)), MonitorAction::Finish);
    assert_eq!(m.phase(), MonitorPhase::Finished);
    assert!(!w.get_stats().is_running);
    assert_eq!(w.get_stats().restarts, 0);
    // A finished monitor answers nothing.
    assert_eq!(m.step(&mut w, MonitorEvent::Begin, ms(6000)), None);
}

#[test]
fn monitor_restarts_on_early_return() {
    // The task returns early each time; restarts are spaced by 100 ms.
    let mut w = WatchdogInner::new();
    let mut m = Monitor::new(Span::from_secs(1), None, Some(ms(100)));
    let mut executions: i32 = 0;
    let mut now: u64 = 0;
    let mut action = step(&mut m, &mut w, MonitorEvent::Begin, ms(now));
    while now < 500 {
        match action {
            MonitorAction::SpawnTask => {
                executions += 1;
                action = step(&mut m, &mut w, MonitorEvent::Spawned, ms(now));
            }
            MonitorAction::Watch(_) => {
                w.heartbeat();
                now += 50;
                action = step(&mut m, &mut w, MonitorEvent::TaskExited, ms(now));
            }
            MonitorAction::ReleaseTask => {
                action = step(&mut m, &mut w, MonitorEvent::Released, ms(now));
            }
            MonitorAction::Sleep(d) => {
                now += (d.as_nanos() / 1_000_000) as u64;
                action = step(&mut m, &mut w, MonitorEvent::Woke, ms(now));
            }
            other => panic!("unexpected action {:?}", other),
        }
    }
    let stats = w.get_stats();
    assert!(stats.is_running);
    assert!(stats.restarts > 0);
    assert!(executions > 1);
    assert_eq!(executions, stats.restarts + 1);
}

#[test]
fn monitor_backoff_sleeps_rest_of_interval() {
    let mut w = WatchdogInner::new();
    let mut m = Monitor::new(Span::from_secs(1), None, Some(ms(100)));
    assert_eq!(step(&mut m, &mut w, MonitorEvent::Begin, ms(0)), MonitorAction::SpawnTask);
    assert_eq!(step(&mut m, &mut w, MonitorEvent::Spawned, ms(0)), MonitorAction::Watch(Span::from_secs(1)));
    assert_eq!(step(&mut m, &mut w, MonitorEvent::TaskExited, ms(10)), MonitorAction::ReleaseTask);
    // First instance ended: no restart recorded yet, so no wait.
    assert_eq!(step(&mut m, &mut w, MonitorEvent::Released, ms(10)), MonitorAction::SpawnTask);
    assert_eq!(w.get_stats().restarts, 1);
    assert_eq!(step(&mut m, &mut w, MonitorEvent::Spawned, ms(10)), MonitorAction::Watch(Span::from_secs(1)));
    assert_eq!(step(&mut m, &mut w, MonitorEvent::TaskExited, ms(40)), MonitorAction::ReleaseTask);
    // Latest restart at 10 ms, now 40 ms: wait the remaining 70 ms.
    assert_eq!(step(&mut m, &mut w, MonitorEvent::Released, ms(40)), MonitorAction::Sleep(ms(70)));
    assert_eq!(m.phase(), MonitorPhase::BackingOff);
    assert_eq!(step(&mut m, &mut w, MonitorEvent::Woke, ms(110)), MonitorAction::SpawnTask);
    assert_eq!(w.get_stats().restarts, 2);
    // Ended after the interval had passed: restart at once.
    assert_eq!(step(&mut m, &mut w, MonitorEvent::Spawned, ms(110)), MonitorAction::Watch(Span::from_secs(1)));
    assert_eq!(step(&mut m, &mut w, MonitorEvent::TaskExited, ms(300)), MonitorAction::ReleaseTask);
    assert_eq!(step(&mut m, &mut w, MonitorEvent::Released, ms(300)), MonitorAction::SpawnTask);
    assert_eq!(w.get_stats().restarts, 3);
}

#[test]
fn monitor_aborts_unresponsive_task() {
    let mut w = WatchdogInner::new();
    let mut m = Monitor::new(ms(200), None, None);
    assert_eq!(step(&mut m, &mut w, MonitorEvent::Begin, ms(0)), MonitorAction::SpawnTask);
    assert_eq!(step(&mut m, &mut w, MonitorEvent::Spawned, ms(0)), MonitorAction::Watch(ms(200)));
    // Counter read at 0 equals the initial reading 0: the task is hung.
    assert_eq!(step(&mut m, &mut w, MonitorEvent::TimedOut, ms(200)), MonitorAction::AbortTask);
    assert_eq!(m.phase(), MonitorPhase::Aborting);
    assert_eq!(step(&mut m, &mut w, MonitorEvent::Released, ms(200)), MonitorAction::SpawnTask);
    assert_eq!(w.get_stats().restarts, 1);
}

#[test]
fn monitor_aborts_after_first_silent_period() {
    let mut w = WatchdogInner::new();
    let mut m = Monitor::new(ms(200), None, None);
    step(&mut m, &mut w, MonitorEvent::Begin, ms(0));
    w.heartbeat(); // beats = 1 before the first reading
    assert_eq!(step(&mut m, &mut w, MonitorEvent::Spawned, ms(0)), MonitorAction::Watch(ms(200)));
    // One heartbeat during the first period: a new period starts.
    w.heartbeat();
    assert_eq!(step(&mut m, &mut w, MonitorEvent::TimedOut, ms(200)), MonitorAction::Watch(ms(200)));
    // No heartbeat during the second period: aborted at its end.
    assert_eq!(step(&mut m, &mut w, MonitorEvent::TimedOut, ms(400)), MonitorAction::AbortTask);
    assert_eq!(step(&mut m, &mut w, MonitorEvent::Released, ms(400)), MonitorAction::SpawnTask);
    assert_eq!(w.get_stats().restarts, 1);
}

#[test]
fn monitor_beating_in_every_period_is_never_aborted() {
    // Beats every 100 ms with a 1 s timeout, starting after the first reading.
    let mut w = WatchdogInner::new();
    let mut m = Monitor::new(Span::from_secs(1), None, None);
    step(&mut m, &mut w, MonitorEvent::Begin, ms(0));
    step(&mut m, &mut w, MonitorEvent::Spawned, ms(0));
    for period in 1..=20u64 {
        for _ in 0..10 {
            w.heartbeat();
        }
        let a = step(&mut m, &mut w, MonitorEvent::TimedOut, ms(1000 * period));
        assert_eq!(a, MonitorAction::Watch(Span::from_secs(1)));
    }
    assert_eq!(w.get_stats().restarts, 0);
    assert_eq!(w.last_heartbeat(), 200);
}

#[test]
fn monitor_initial_delay() {
    let mut w = WatchdogInner::new();
    let mut m = Monitor::new(Span::from_secs(1), Some(ms(300)), None);
    assert_eq!(step(&mut m, &mut w, MonitorEvent::Begin, ms(0)), MonitorAction::Sleep(ms(300)));
    assert_eq!(m.phase(), MonitorPhase::Delaying);
    assert_eq!(step(&mut m, &mut w, MonitorEvent::Woke, ms(300)), MonitorAction::SpawnTask);
    assert_eq!(w.get_stats().restarts, 0);
}

#[test]
fn monitor_stopped_before_start_never_spawns() {
    let mut w = WatchdogInner::new();
    w.stop();
    let mut m = Monitor::new(Span::from_secs(1), None, Some(ms(100)));
    assert_eq!(step(&mut m, &mut w, MonitorEvent::Begin, ms(0)), MonitorAction::Finish);
    let mut w2 = WatchdogInner::new();
    w2.stop();
    let mut m2 = Monitor::new(Span::from_secs(1), Some(ms(10)), None);
    assert_eq!(step(&mut m2, &mut w2, MonitorEvent::Begin, ms(0)), MonitorAction::Sleep(ms(10)));
    assert_eq!(step(&mut m2, &mut w2, MonitorEvent::Woke, ms(10)), MonitorAction::Finish);
}

#[test]
fn monitor_ignores_unexpected_events() {
    let mut w = WatchdogInner::new();
    let mut m = Monitor::new(Span::from_secs(1), None, None);
    assert_eq!(m.step(&mut w, MonitorEvent::Spawned, ms(0)), None);
    assert_eq!(m.phase(), MonitorPhase::Ready);
    assert_eq!(step(&mut m, &mut w, MonitorEvent::Begin, ms(0)), MonitorAction::SpawnTask);
    assert_eq!(m.step(&mut w, MonitorEvent::TimedOut, ms(0)), None);
    assert_eq!(m.step(&mut w, MonitorEvent::Released, ms(0)), None);
    assert_eq!(m.phase(), MonitorPhase::Spawning);
    assert_eq!(w.get_stats().restarts, 0);
}

#[test]
fn monitor_stop_during_backoff_finishes() {
    let mut w = WatchdogInner::new();
    let mut m = Monitor::new(Span::from_secs(1), None, Some(ms(100)));
    step(&mut m, &mut w, MonitorEvent::Begin, ms(0));
    step(&mut m, &mut w, MonitorEvent::Spawned, ms(0));
    step(&mut m, &mut w, MonitorEvent::TaskExited, ms(0));
    assert_eq!(step(&mut m, &mut w, MonitorEvent::Released, ms(0)), MonitorAction::SpawnTask);
    step(&mut m, &mut w, MonitorEvent::Spawned, ms(0));
    step(&mut m, &mut w, MonitorEvent::TaskExited, ms(20));
    assert_eq!(step(&mut m, &mut w, MonitorEvent::Released, ms(20)), MonitorAction::Sleep(ms(80)));
    w.stop();
    // The stop is honoured when the wait ends: no further start.
    assert_eq!(step(&mut m, &mut w, MonitorEvent::Woke, ms(100)), MonitorAction::Finish);
    assert_eq!(m.phase(), MonitorPhase::Finished);
    assert_eq!(w.get_stats().restarts, 1);
}

#[test]
fn monitor_stop_at_half_second_with_one_second_interval() {
    // The task returns at once each time; restarts at least 1 s apart; stop at
    // 500 ms: two starts, one restart, nothing after the stop.
    let mut w = WatchdogInner::new();
    let mut m = Monitor::new(Span::from_secs(60), None, Some(Span::from_secs(1)));
    let mut calls: i32 = 0;
    let mut now: u64 = 0;
    let mut stopped = false;
    let mut action = step(&mut m, &mut w, MonitorEvent::Begin, ms(now));
    loop {
        if !stopped && now >= 500 {
            w.stop();
            stopped = true;
        }
        match action {
            MonitorAction::SpawnTask => {
                assert!(!stopped);
                calls += 1;
                action = step(&mut m, &mut w, MonitorEvent::Spawned, ms(now));
            }
            MonitorAction::Watch(_) => {
                action = step(&mut m, &mut w, MonitorEvent::TaskExited, ms(now));
            }
            MonitorAction::ReleaseTask => {
                action = step(&mut m, &mut w, MonitorEvent::Released, ms(now));
            }
            MonitorAction::Sleep(d) => {
                let wake = now + (d.as_nanos() / 1_000_000) as u64;
                if !stopped && wake >= 500 {
                    // The handle stops the task at 500 ms, during the wait.
                    w.stop();
                    stopped = true;
                }
                now = wake;
                action = step(&mut m, &mut w, MonitorEvent::Woke, ms(now));
            }
            MonitorAction::Finish => break,
            other => panic!("unexpected action {:?}", other),
        }
    }
    let stats = w.get_stats();
    assert_eq!(calls, 2);
    assert_eq!(stats.restarts, 1);
    assert!(!stats.is_running);
}

#[test]
fn monitor_early_wake_waits_again() {
    let mut w = WatchdogInner::new();
    let mut m = Monitor::new(Span::from_secs(1), None, Some(ms(100)));
    step(&mut m, &mut w, MonitorEvent::Begin, ms(0));
    step(&mut m, &mut w, MonitorEvent::Spawned, ms(0));
    step(&mut m, &mut w, MonitorEvent::TaskExited, ms(0));
    assert_eq!(step(&mut m, &mut w, MonitorEvent::Released, ms(0)), MonitorAction::SpawnTask);
    step(&mut m, &mut w, MonitorEvent::Spawned, ms(0));
    step(&mut m, &mut w, MonitorEvent::TaskExited, ms(0));
    assert_eq!(step(&mut m, &mut w, MonitorEvent::Released, ms(0)), MonitorAction::Sleep(ms(100)));
    // Woken after only 90 ms: the remaining 10 ms are waited out.
    assert_eq!(step(&mut m, &mut w, MonitorEvent::Woke, ms(90)), MonitorAction::Sleep(ms(10)));
    assert_eq!(step(&mut m, &mut w, MonitorEvent::Woke, ms(100)), MonitorAction::SpawnTask);
    assert_eq!(w.get_stats().restarts, 2);
}

#[test]
fn watchdog_stats_over_a_sequence() {
    let mut w = WatchdogInner::new();
    let s1 = w.get_stats();
    w.heartbeat();
    w.record_restart();
    w.heartbeat();
    assert!(w.should_continue());
    w.stop();
    w.record_restart();
    w.heartbeat();
    let s2 = w.get_stats();
    assert_eq!(s2.created_at, s1.created_at);
    assert_eq!(s2.restarts, s1.restarts + 2);
    assert!(s1.is_running);
    assert!(!s2.is_running);
    assert!(!w.should_continue());
    assert_eq!(w.last_heartbeat(), 3);
}

# durable_spawn

Durable tasks that are restarted when they return, panic or stop sending
heartbeats.

- `src/` is the verified library:
  - `span.rs`: `Span`, a length of time with the range of `std::time::Duration`;
  - `watchdog.rs`: `WatchdogInner` (heartbeat counter, restart counter,
    running flag) and `TaskStats`, with laws over sequences of operations;
  - `monitor.rs`: `Monitor`, the state machine that decides when to spawn,
    watch, abort and restart the task, with its laws over runs in which
    heartbeats and stops fall between the monitor's steps: starts are
    restarts plus one, no start after a stop, an instance that beats in
    every period is never aborted and a silent one is aborted at the end of
    its first silent period, restarts are spaced by the minimum interval;
  - `builder.rs`: `DurableSpawnBuilder`, the configuration of a task.
- `app/` is the tokio driver: it shares the watchdog behind a mutex, performs
  the monitor's actions (spawn, sleep, select, abort) and reports back.
- `tests/` exercises the library on concrete values.

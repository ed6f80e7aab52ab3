# computer_use

Recording and replay of desktop actions, and a periodic screen watcher,
with their decisions verified by Verus.

- `src/actions.rs`: points, input actions, screenshots and actor options.
- `src/time_span.rs`: a span of time with nanosecond precision.
- `src/recording.rs`: recorded steps and the recording session.
- `src/automation.rs`: the replay state machine (`AutomationLoop`) and its laws.
- `src/screen_watcher.rs`: interval clamping, the watcher state machine and its laws.
- `app/`: the actor interface and the tokio-based drivers that perform what
  the state machines decide.
- `tests/`: scenario tests of the library.

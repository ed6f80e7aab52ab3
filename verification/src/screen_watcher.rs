//! The decisions of a continuous screen-watching loop.
//!
//! - [`ScreenWatcherConfig`]: configuration for interval and screenshot constraints.
//! - [`ScreenWatchEvent`]: events emitted by the watcher (captured screenshot or error).
//! - [`ScreenWatchCommand`]: commands that pause, resume, retime or stop a running watcher.
//! - [`ScreenWatcher`]: the watcher's state, and [`ScreenWatcher::step`], which maps each
//!   input of the loop (a command, a timer tick, a finished capture, a delivery) to the
//!   next state and the work the loop's driver performs next.
use crate::actions::{capture_options, ActionResult, Options, Screenshot, ScreenshotParams};
use crate::time_span::{TimeSpan, NANOS_PER_SEC};
use vstd::prelude::*;

verus! {

/// The shortest capture interval, in seconds.
pub const MIN_INTERVAL_SECS: u64 = 2;

/// The longest capture interval, in seconds.
pub const MAX_INTERVAL_SECS: u64 = 60;

/// The shortest capture interval, in nanoseconds.
pub open spec fn min_interval_nanos() -> nat {
    (MIN_INTERVAL_SECS as nat) * (NANOS_PER_SEC as nat)
}

/// The longest capture interval, in nanoseconds.
pub open spec fn max_interval_nanos() -> nat {
    (MAX_INTERVAL_SECS as nat) * (NANOS_PER_SEC as nat)
}

/// `n` nanoseconds brought into the allowed interval range.
pub open spec fn clamped_nanos(n: nat) -> nat {
    if n < min_interval_nanos() {
        min_interval_nanos()
    } else if n > max_interval_nanos() {
        max_interval_nanos()
    } else {
        n
    }
}

/// Whether a span lies within the allowed interval range.
pub open spec fn interval_in_range(d: TimeSpan) -> bool {
    min_interval_nanos() <= d@ <= max_interval_nanos()
}

/// `d` brought into the allowed interval range.
pub open spec fn clamped(d: TimeSpan) -> TimeSpan {
    if d@ < min_interval_nanos() {
        TimeSpan::of_secs(MIN_INTERVAL_SECS)
    } else if d@ > max_interval_nanos() {
        TimeSpan::of_secs(MAX_INTERVAL_SECS)
    } else {
        d
    }
}

/// The length of a clamped span is the clamped length, and it lies in the range.
pub proof fn lemma_clamped_length(d: TimeSpan)
    ensures
        clamped(d)@ == clamped_nanos(d@),
        interval_in_range(clamped(d)),
{
    TimeSpan::lemma_of_secs(MIN_INTERVAL_SECS);
    TimeSpan::lemma_of_secs(MAX_INTERVAL_SECS);
}

/// The shortest capture interval.
pub fn min_interval() -> (d: TimeSpan)
    ensures
        d == TimeSpan::of_secs(MIN_INTERVAL_SECS),
        d@ == min_interval_nanos(),
{
    TimeSpan::from_secs(MIN_INTERVAL_SECS)
}

/// The longest capture interval.
pub fn max_interval() -> (d: TimeSpan)
    ensures
        d == TimeSpan::of_secs(MAX_INTERVAL_SECS),
        d@ == max_interval_nanos(),
{
    TimeSpan::from_secs(MAX_INTERVAL_SECS)
}

/// Brings `d` into the range from [`min_interval`] to [`max_interval`]: a span
/// in the range is kept as it is, a shorter one becomes the minimum and a
/// longer one the maximum.
pub fn clamp_interval(d: TimeSpan) -> (r: TimeSpan)
    ensures
        r == clamped(d),
        r@ == clamped_nanos(d@),
        interval_in_range(r),
{
    proof {
        lemma_clamped_length(d);
    }
    let min = min_interval();
    let max = max_interval();
    if d.shorter_than(&min) {
        min
    } else if max.shorter_than(&d) {
        max
    } else {
        d
    }
}

/// Configuration for a [`ScreenWatcher`] session.
#[derive(Debug, Clone, Copy, PartialEq, Eq, Structural)]
pub struct ScreenWatcherConfig {
    /// How often to capture a screenshot; clamped to 2 s – 60 s.
    pub interval: TimeSpan,
    /// Constraints applied to each captured screenshot (resolution caps, region).
    pub screenshot_params: ScreenshotParams,
}

/// Events emitted by a running watcher.
#[derive(Debug, Clone, PartialEq, Eq)]
pub enum ScreenWatchEvent {
    /// A periodic (or on-demand) screenshot was captured.
    Screenshot(Screenshot),
    /// Screenshot capture failed for this interval. The watcher continues running.
    CaptureError(String),
}

/// Commands that can be sent to a running watcher.
#[derive(Debug, Clone, Copy, PartialEq, Eq, Structural)]
pub enum ScreenWatchCommand {
    /// Suspend periodic capture; the watcher keeps running and on-demand
    /// capture still works.
    Pause,
    /// Resume periodic capture; the interval timer restarts from zero.
    Resume,
    /// Change the capture interval, clamped to 2 s – 60 s; the timer restarts
    /// from zero with the new interval.
    SetInterval(TimeSpan),
    /// Stop the watcher.
    Stop,
}

/// What came of handing an event to the receiver.
#[derive(Debug, Clone, Copy, PartialEq, Eq, Structural)]
pub enum DeliveryOutcome {
    /// The receiver has the event.
    Delivered,
    /// The receiver's buffer was full: the event is dropped and the tick skipped.
    ChannelFull,
    /// The receiver is gone.
    ChannelClosed,
}

/// One input of the watch loop.
#[derive(Debug, PartialEq, Eq)]
pub enum WatchInput {
    /// What the command channel delivered: `None` once it has closed.
    Command(Option<ScreenWatchCommand>),
    /// The interval timer fired.
    Tick,
    /// The actor finished the capture that [`WatchOutput::Capture`] asked for.
    Captured(Result<ActionResult, String>),
    /// What came of sending the event of [`WatchOutput::Emit`].
    Delivered(DeliveryOutcome),
}

/// What the watch loop waits for.
#[derive(Debug, Clone, Copy, PartialEq, Eq, Structural)]
pub enum WatchPhase {
    /// A command or a tick.
    Idle,
    /// The outcome of the capture it asked for.
    AwaitingCapture,
    /// The outcome of sending the event it emitted.
    AwaitingDelivery,
}

/// What the driver of the watch loop does next.
#[derive(Debug, Clone, PartialEq, Eq)]
pub enum WatchOutput {
    /// Nothing: wait for the next command or tick.
    Wait,
    /// Restart the interval timer with this period: the next tick fires one
    /// period from now, and a tick that is missed is skipped.
    RestartTimer(TimeSpan),
    /// Ask the actor for a screenshot under these options.
    Capture(Options),
    /// Send this event to the receiver, without waiting for room in its buffer.
    Emit(ScreenWatchEvent),
    /// End the loop.
    Stop,
}

/// The input the watch loop takes next when `pending_command` is what the
/// command channel holds (`Some(None)` once it has closed) and `tick_due`
/// says whether the timer has fired: a command goes before a due tick.
pub open spec fn arbitrated_input(pending_command: Option<Option<ScreenWatchCommand>>, tick_due: bool) -> Option<WatchInput> {
    match pending_command {
        Some(c) => Some(WatchInput::Command(c)),
        None => if tick_due {
            Some(WatchInput::Tick)
        } else {
            None
        },
    }
}

/// The input the watch loop handles next: a command waiting on the command
/// channel (or its closing) before a due tick, the tick when no command
/// waits, and nothing when neither is there.
pub fn next_input(pending_command: Option<Option<ScreenWatchCommand>>, tick_due: bool) -> (input: Option<WatchInput>)
    ensures
        input == arbitrated_input(pending_command, tick_due),
{
    match pending_command {
        Some(c) => Some(WatchInput::Command(c)),
        None => if tick_due {
            Some(WatchInput::Tick)
        } else {
            None
        },
    }
}

/// The message of the event emitted when the actor reports no screenshot.
pub open spec fn no_screenshot_message() -> Seq<char> {
    "Actor produced no screenshot"@
}

/// Whether `event` is the one that reports the capture outcome `result`.
pub open spec fn is_capture_event(result: Result<ActionResult, String>, event: ScreenWatchEvent) -> bool {
    match result {
        Ok(r) => match r.screenshot {
            Some(s) => event == ScreenWatchEvent::Screenshot(s),
            None => event matches ScreenWatchEvent::CaptureError(m) && m@ == no_screenshot_message(),
        },
        Err(e) => event == ScreenWatchEvent::CaptureError(e),
    }
}

/// The event that reports the outcome of one capture: the screenshot, or a
/// capture error when the actor failed or produced no screenshot.
pub fn capture_event(result: Result<ActionResult, String>) -> (event: ScreenWatchEvent)
    ensures
        is_capture_event(result, event),
{
    match result {
        Ok(r) => match r.screenshot {
            Some(s) => ScreenWatchEvent::Screenshot(s),
            None => ScreenWatchEvent::CaptureError("Actor produced no screenshot".to_owned()),
        },
        Err(e) => ScreenWatchEvent::CaptureError(e),
    }
}

/// The message of the error returned when an on-demand capture yields no screenshot.
pub open spec fn no_screenshot_produced_message() -> Seq<char> {
    "No screenshot produced by actor"@
}

/// Whether `out` is what an on-demand capture with outcome `result` returns.
pub open spec fn is_capture_now_result(
    result: Result<ActionResult, String>,
    out: Result<Screenshot, String>,
) -> bool {
    match result {
        Ok(r) => match r.screenshot {
            Some(s) => out == Ok::<Screenshot, String>(s),
            None => out matches Err(m) && m@ == no_screenshot_produced_message(),
        },
        Err(e) => out == Err::<Screenshot, String>(e),
    }
}

/// The state of a screen watcher, as the contracts see it.
pub struct WatcherView {
    pub interval: TimeSpan,
    pub screenshot_params: ScreenshotParams,
    pub paused: bool,
    pub phase: WatchPhase,
}

/// Whether the watch loop, in `phase`, waits for `input`.
pub open spec fn watch_awaits(phase: WatchPhase, input: WatchInput) -> bool {
    match phase {
        WatchPhase::Idle => input is Command || input is Tick,
        WatchPhase::AwaitingCapture => input is Captured,
        WatchPhase::AwaitingDelivery => input is Delivered,
    }
}

/// The state after the watch loop handles the awaited `input` in state `s`.
pub open spec fn watch_next(s: WatcherView, input: WatchInput) -> WatcherView {
    match input {
        WatchInput::Command(Some(ScreenWatchCommand::Pause)) => WatcherView { paused: true, ..s },
        WatchInput::Command(Some(ScreenWatchCommand::Resume)) => WatcherView { paused: false, ..s },
        WatchInput::Command(Some(ScreenWatchCommand::SetInterval(d))) => WatcherView { interval: clamped(d), ..s },
        WatchInput::Command(_) => s,
        WatchInput::Tick => if s.paused {
            s
        } else {
            WatcherView { phase: WatchPhase::AwaitingCapture, ..s }
        },
        WatchInput::Captured(_) => WatcherView { phase: WatchPhase::AwaitingDelivery, ..s },
        WatchInput::Delivered(_) => WatcherView { phase: WatchPhase::Idle, ..s },
    }
}

/// Whether `out` is what the watch loop does after handling `input` in state
/// `s`, whose next state is `next`.
pub open spec fn is_watch_output(s: WatcherView, input: WatchInput, next: WatcherView, out: WatchOutput) -> bool {
    match input {
        WatchInput::Command(Some(ScreenWatchCommand::Pause)) => out == WatchOutput::Wait,
        WatchInput::Command(Some(ScreenWatchCommand::Resume)) => out == WatchOutput::RestartTimer(s.interval),
        WatchInput::Command(Some(ScreenWatchCommand::SetInterval(d))) => out == WatchOutput::RestartTimer(next.interval),
        WatchInput::Command(Some(ScreenWatchCommand::Stop)) => out == WatchOutput::Stop,
        WatchInput::Command(None) => out == WatchOutput::Stop,
        WatchInput::Tick => out == if s.paused {
            WatchOutput::Wait
        } else {
            WatchOutput::Capture(capture_options(s.screenshot_params))
        },
        WatchInput::Captured(r) => out matches WatchOutput::Emit(e) && is_capture_event(r, e),
        WatchInput::Delivered(d) => out == match d {
            DeliveryOutcome::ChannelClosed => WatchOutput::Stop,
            _ => WatchOutput::Wait,
        },
    }
}

/// Drives periodic screenshot capture: holds the effective interval, the
/// screenshot constraints, whether periodic capture is paused, and what the
/// watch loop waits for.
pub struct ScreenWatcher {
    interval: TimeSpan,
    screenshot_params: ScreenshotParams,
    paused: bool,
    phase: WatchPhase,
}

impl View for ScreenWatcher {
    type V = WatcherView;

    closed spec fn view(&self) -> WatcherView {
        WatcherView {
            interval: self.interval,
            screenshot_params: self.screenshot_params,
            paused: self.paused,
            phase: self.phase,
        }
    }
}

impl ScreenWatcher {
    #[verifier::type_invariant]
    spec fn interval_is_clamped(self) -> bool {
        interval_in_range(self.interval)
    }

    /// Creates a new, unpaused watcher; the interval of `config` is clamped
    /// to 2 s – 60 s.
    pub fn new(config: ScreenWatcherConfig) -> (w: ScreenWatcher)
        ensures
            w@.interval == clamped(config.interval),
            w@.screenshot_params == config.screenshot_params,
            !w@.paused,
            w@.phase == WatchPhase::Idle,
    {
        ScreenWatcher {
            interval: clamp_interval(config.interval),
            screenshot_params: config.screenshot_params,
            paused: false,
            phase: WatchPhase::Idle,
        }
    }

    /// The effective capture interval (after clamping).
    pub fn interval(&self) -> (d: TimeSpan)
        ensures
            d == self@.interval,
            interval_in_range(d),
    {
        proof {
            use_type_invariant(self);
        }
        self.interval
    }

    /// Whether periodic capture is paused.
    pub fn is_paused(&self) -> (b: bool)
        ensures
            b == self@.paused,
    {
        self.paused
    }

    /// What the watch loop waits for.
    pub fn phase(&self) -> (p: WatchPhase)
        ensures
            p == self@.phase,
    {
        self.phase
    }

    /// Suspends periodic capture. Has no effect if already paused.
    pub fn pause(&mut self)
        ensures
            final(self)@ == (WatcherView { paused: true, ..old(self)@ }),
    {
        proof {
            use_type_invariant(&*self);
        }
        self.paused = true;
    }

    /// Resumes periodic capture. Has no effect if not paused.
    pub fn resume(&mut self)
        ensures
            final(self)@ == (WatcherView { paused: false, ..old(self)@ }),
    {
        proof {
            use_type_invariant(&*self);
        }
        self.paused = false;
    }

    /// Changes the capture interval, clamped to 2 s – 60 s.
    pub fn set_interval(&mut self, d: TimeSpan)
        ensures
            final(self)@ == (WatcherView { interval: clamped(d), ..old(self)@ }),
    {
        self.interval = clamp_interval(d);
    }

    /// The options under which the actor is asked for a screenshot, whether
    /// periodic or on demand; they do not depend on the pause state.
    pub fn capture_options(&self) -> (o: Options)
        ensures
            o == capture_options(self@.screenshot_params),
    {
        Options { screenshot_params: Some(self.screenshot_params) }
    }

    /// What an on-demand capture returns for the actor's outcome `result`:
    /// the screenshot, the actor's error, or an error when the actor produced
    /// no screenshot.
    pub fn capture_now_result(result: Result<ActionResult, String>) -> (out: Result<Screenshot, String>)
        ensures
            is_capture_now_result(result, out),
    {
        match result {
            Ok(r) => match r.screenshot {
                Some(s) => Ok(s),
                None => Err("No screenshot produced by actor".to_owned()),
            },
            Err(e) => Err(e),
        }
    }

    /// Whether the watch loop waits for `input` now.
    pub fn awaits(&self, input: &WatchInput) -> (b: bool)
        ensures
            b == watch_awaits(self@.phase, *input),
    {
        match self.phase {
            WatchPhase::Idle => matches!(input, WatchInput::Command(_)) || matches!(input, WatchInput::Tick),
            WatchPhase::AwaitingCapture => matches!(input, WatchInput::Captured(_)),
            WatchPhase::AwaitingDelivery => matches!(input, WatchInput::Delivered(_)),
        }
    }

    /// Handles the input the watch loop waits for: updates the state and says
    /// what the loop's driver does next.
    pub fn step(&mut self, input: WatchInput) -> (out: WatchOutput)
        requires
            watch_awaits(old(self)@.phase, input),
        ensures
            final(self)@ == watch_next(old(self)@, input),
            is_watch_output(old(self)@, input, final(self)@, out),
    {
        proof {
            use_type_invariant(&*self);
        }
        match input {
            WatchInput::Command(Some(ScreenWatchCommand::Pause)) => {
                self.pause();
                WatchOutput::Wait
            },
            WatchInput::Command(Some(ScreenWatchCommand::Resume)) => {
                self.resume();
                WatchOutput::RestartTimer(self.interval)
            },
            WatchInput::Command(Some(ScreenWatchCommand::SetInterval(d))) => {
                self.set_interval(d);
                WatchOutput::RestartTimer(self.interval)
            },
            WatchInput::Command(Some(ScreenWatchCommand::Stop)) => WatchOutput::Stop,
            WatchInput::Command(None) => WatchOutput::Stop,
            WatchInput::Tick => {
                if self.paused {
                    WatchOutput::Wait
                } else {
                    self.phase = WatchPhase::AwaitingCapture;
                    WatchOutput::Capture(self.capture_options())
                }
            },
            WatchInput::Captured(r) => {
                self.phase = WatchPhase::AwaitingDelivery;
                WatchOutput::Emit(capture_event(r))
            },
            WatchInput::Delivered(d) => {
                self.phase = WatchPhase::Idle;
                match d {
                    DeliveryOutcome::ChannelClosed => WatchOutput::Stop,
                    _ => WatchOutput::Wait,
                }
            },
        }
    }
}

/// Clamping an interval is idempotent, keeps a span in the range unchanged,
/// and always yields a span in the range.
pub proof fn lemma_clamp_interval_idempotent(d: TimeSpan)
    ensures
        clamped(clamped(d)) == clamped(d),
        interval_in_range(d) ==> clamped(d) == d,
        interval_in_range(clamped(d)),
{
    lemma_clamped_length(d);
    lemma_clamped_length(clamped(d));
}

/// Every input keeps the interval of a watcher within 2 s – 60 s, and only
/// `SetInterval` changes it.
pub proof fn lemma_interval_stays_in_range(s: WatcherView, input: WatchInput)
    requires
        interval_in_range(s.interval),
    ensures
        interval_in_range(watch_next(s, input).interval),
        !(input matches WatchInput::Command(Some(ScreenWatchCommand::SetInterval(_)))) ==> watch_next(s, input).interval == s.interval,
{
    if let WatchInput::Command(Some(ScreenWatchCommand::SetInterval(d))) = input {
        lemma_clamped_length(d);
    }
}

/// A paused watcher captures and sends nothing: from a paused, idle state,
/// every awaited input other than `Resume` leaves it paused and idle, and
/// none leads to a capture or an event.
pub proof fn lemma_paused_watcher_sends_nothing(s: WatcherView, input: WatchInput, out: WatchOutput)
    requires
        s.paused,
        s.phase == WatchPhase::Idle,
        watch_awaits(s.phase, input),
        input != WatchInput::Command(Some(ScreenWatchCommand::Resume)),
        is_watch_output(s, input, watch_next(s, input), out),
    ensures
        watch_next(s, input).paused,
        watch_next(s, input).phase == WatchPhase::Idle,
        !(out is Capture),
        !(out is Emit),
{
}

/// Events come only from captures the loop asked for: an event is emitted
/// only for the outcome of a capture, only while the loop waits for one, and
/// the loop waits for one only after a tick while unpaused.
pub proof fn lemma_events_follow_unpaused_ticks(s: WatcherView, input: WatchInput, out: WatchOutput)
    requires
        watch_awaits(s.phase, input),
        is_watch_output(s, input, watch_next(s, input), out),
    ensures
        out is Emit ==> input is Captured && s.phase == WatchPhase::AwaitingCapture,
        out is Capture ==> input == WatchInput::Tick && !s.paused,
        watch_next(s, input).phase == WatchPhase::AwaitingCapture ==> input == WatchInput::Tick && !s.paused,
{
}

/// Resuming unpauses the watcher and restarts the timer with the current
/// interval, after which a tick leads to a capture under the watcher's
/// screenshot constraints. Setting the interval restarts the timer with the
/// new, clamped interval.
pub proof fn lemma_resume_restarts_timer(s: WatcherView, d: TimeSpan, out: WatchOutput, tick_out: WatchOutput)
    ensures
        ({
            let input = WatchInput::Command(Some(ScreenWatchCommand::Resume));
            let next = watch_next(s, input);
            &&& !next.paused
            &&& next.interval == s.interval
            &&& (is_watch_output(s, input, next, out) ==> out == WatchOutput::RestartTimer(s.interval))
            &&& (is_watch_output(next, WatchInput::Tick, watch_next(next, WatchInput::Tick), tick_out)
                ==> tick_out == WatchOutput::Capture(capture_options(s.screenshot_params)))
        }),
        ({
            let input = WatchInput::Command(Some(ScreenWatchCommand::SetInterval(d)));
            let next = watch_next(s, input);
            &&& next.interval == clamped(d)
            &&& next.paused == s.paused
            &&& (is_watch_output(s, input, next, out) ==> out == WatchOutput::RestartTimer(clamped(d)))
        }),
{
}

/// A command goes before a tick that is due at the same time. With a pending
/// `Pause`, the watcher pauses and the due tick captures nothing; with a
/// pending `Stop` or a closed command channel, the loop ends without a
/// capture; with a pending `Resume` or `SetInterval`, the timer restarts, so
/// the due tick gives way to one a full period later.
pub proof fn lemma_commands_before_ticks(
    s: WatcherView,
    c: Option<ScreenWatchCommand>,
    out: WatchOutput,
    tick_out: WatchOutput,
)
    requires
        s.phase == WatchPhase::Idle,
    ensures
        arbitrated_input(Some(c), true) == Some(WatchInput::Command(c)),
        arbitrated_input(None, true) == Some(WatchInput::Tick),
        arbitrated_input(None, false) is None,
        ({
            let input = WatchInput::Command(c);
            let next = watch_next(s, input);
            &&& next.phase == WatchPhase::Idle
            &&& (c == Some(ScreenWatchCommand::Pause)
                && is_watch_output(next, WatchInput::Tick, watch_next(next, WatchInput::Tick), tick_out)
                ==> tick_out == WatchOutput::Wait)
            &&& (is_watch_output(s, input, next, out) ==> {
                &&& (c == Some(ScreenWatchCommand::Pause) ==> out == WatchOutput::Wait)
                &&& (c == Some(ScreenWatchCommand::Stop) || c is None ==> out == WatchOutput::Stop)
                &&& (c == Some(ScreenWatchCommand::Resume) || (c is Some && c->0 is SetInterval)
                    ==> out == WatchOutput::RestartTimer(next.interval))
            })
        }),
{
}

/// Pausing twice is pausing once, resuming twice is resuming once, and a
/// pause followed by a resume leaves the watcher as a resume alone does.
pub proof fn lemma_pause_resume_round_trip(s: WatcherView)
    ensures
        ({
            let pause = WatchInput::Command(Some(ScreenWatchCommand::Pause));
            let resume = WatchInput::Command(Some(ScreenWatchCommand::Resume));
            &&& watch_next(watch_next(s, pause), pause) == watch_next(s, pause)
            &&& watch_next(watch_next(s, resume), resume) == watch_next(s, resume)
            &&& watch_next(watch_next(s, pause), resume) == watch_next(s, resume)
            &&& (!s.paused ==> watch_next(watch_next(s, pause), resume) == s)
        }),
{
}

/// The loop ends on a `Stop` command, when the command channel closes, and
/// when the receiver is gone. A full receiver does not end it: the event is
/// dropped and the loop goes back to waiting. Nor does a failed capture: the
/// loop reports a capture error and goes on once the report is handed over.
pub proof fn lemma_watch_loop_stops(s: WatcherView, e: String, out: WatchOutput)
    ensures
        is_watch_output(s, WatchInput::Command(Some(ScreenWatchCommand::Stop)), s, out) ==> out == WatchOutput::Stop,
        is_watch_output(s, WatchInput::Command(None), s, out) ==> out == WatchOutput::Stop,
        is_watch_output(s, WatchInput::Delivered(DeliveryOutcome::ChannelClosed), s, out) ==> out == WatchOutput::Stop,
        is_watch_output(s, WatchInput::Delivered(DeliveryOutcome::ChannelFull), s, out) ==> out == WatchOutput::Wait,
        is_watch_output(s, WatchInput::Delivered(DeliveryOutcome::Delivered), s, out) ==> out == WatchOutput::Wait,
        watch_next(s, WatchInput::Delivered(DeliveryOutcome::ChannelFull)).phase == WatchPhase::Idle,
        watch_next(s, WatchInput::Command(Some(ScreenWatchCommand::Stop))) == s,
        watch_next(s, WatchInput::Command(None)) == s,
        watch_next(s, WatchInput::Captured(Err(e))) == (WatcherView { phase: WatchPhase::AwaitingDelivery, ..s }),
        is_watch_output(s, WatchInput::Captured(Err(e)), s, out) ==> out == WatchOutput::Emit(ScreenWatchEvent::CaptureError(e)),
{
}

/// A span longer than 60 s clamps to exactly 60 s, one shorter than 2 s to
/// exactly 2 s, and one in between is kept; clamping keeps the order of spans.
pub proof fn lemma_clamp_interval_bounds(d: TimeSpan, e: TimeSpan)
    ensures
        d@ > 60 * 1_000_000_000 ==> clamped(d) == TimeSpan::of_secs(60) && clamped(d)@ == 60 * 1_000_000_000,
        d@ < 2 * 1_000_000_000 ==> clamped(d) == TimeSpan::of_secs(2) && clamped(d)@ == 2 * 1_000_000_000,
        2 * 1_000_000_000 <= d@ <= 60 * 1_000_000_000 ==> clamped(d) == d,
        d@ <= e@ ==> clamped(d)@ <= clamped(e)@,
        clamped_nanos(d@) == clamped(d)@,
{
    lemma_clamped_length(d);
    lemma_clamped_length(e);
    TimeSpan::lemma_of_secs(2);
    TimeSpan::lemma_of_secs(60);
}

/// A pending command, or the closing of the command channel, is the next
/// input whether or not a tick is due; a due tick is the next input only when
/// no command waits, and with neither there is no input.
pub proof fn lemma_next_input_prefers_commands(c: Option<ScreenWatchCommand>, tick_due: bool)
    ensures
        arbitrated_input(Some(c), tick_due) == Some(WatchInput::Command(c)),
        arbitrated_input(None, true) == Some(WatchInput::Tick),
        arbitrated_input(None, false) == None::<WatchInput>,
{
}

/// Only the commands change the watcher's settings: handling a capture result
/// or a delivery outcome changes nothing but what the loop waits for; only
/// `Pause` and `Resume` change the pause state; only `SetInterval` changes
/// the interval; nothing changes the screenshot constraints; and an unpaused
/// tick only starts a capture.
pub proof fn lemma_only_commands_change_settings(s: WatcherView, input: WatchInput)
    ensures
        input matches WatchInput::Delivered(d) ==> watch_next(s, input) == (WatcherView { phase: WatchPhase::Idle, ..s }),
        input is Captured ==> watch_next(s, input) == (WatcherView { phase: WatchPhase::AwaitingDelivery, ..s }),
        input == WatchInput::Tick && !s.paused ==> watch_next(s, input) == (WatcherView { phase: WatchPhase::AwaitingCapture, ..s }),
        input == WatchInput::Tick && s.paused ==> watch_next(s, input) == s,
        watch_next(s, input).paused != s.paused ==> input == WatchInput::Command(Some(ScreenWatchCommand::Pause))
            || input == WatchInput::Command(Some(ScreenWatchCommand::Resume)),
        watch_next(s, input).interval != s.interval ==> input is Command && input->Command_0 is Some
            && input->Command_0->Some_0 is SetInterval,
        watch_next(s, input).screenshot_params == s.screenshot_params,
{
}

/// Capture repeats every interval: from an unpaused, idle watcher, a tick
/// asks for a screenshot under the watcher's constraints, and once its result
/// is reported and handed on (delivered, or dropped on a full channel) the
/// watcher is back in the state it started from, so the next tick captures again.
pub proof fn lemma_capture_cycle_repeats(
    s: WatcherView,
    r: Result<ActionResult, String>,
    d: DeliveryOutcome,
    tick_out: WatchOutput,
    delivery_out: WatchOutput,
)
    requires
        !s.paused,
        s.phase == WatchPhase::Idle,
        d != DeliveryOutcome::ChannelClosed,
    ensures
        ({
            let s1 = watch_next(s, WatchInput::Tick);
            let s2 = watch_next(s1, WatchInput::Captured(r));
            let s3 = watch_next(s2, WatchInput::Delivered(d));
            &&& s3 == s
            &&& (is_watch_output(s, WatchInput::Tick, s1, tick_out)
                ==> tick_out == WatchOutput::Capture(Options { screenshot_params: Some(s.screenshot_params) }))
            &&& (is_watch_output(s2, WatchInput::Delivered(d), s3, delivery_out) ==> delivery_out == WatchOutput::Wait)
        }),
{
}

/// What a capture yields, whatever else the actor's result holds: its
/// screenshot when there is one (an event with it, and `Ok` of it on demand);
/// the actor's error when it failed; and an error with a fixed message when it
/// produced no screenshot.
pub proof fn lemma_capture_outcomes(
    r: ActionResult,
    e: String,
    event: ScreenWatchEvent,
    out: Result<Screenshot, String>,
)
    ensures
        r.screenshot matches Some(shot) ==> (is_capture_now_result(Ok(r), out) ==> out == Ok::<Screenshot, String>(shot)),
        r.screenshot matches Some(shot) ==> (is_capture_event(Ok(r), event) ==> event == ScreenWatchEvent::Screenshot(shot)),
        r.screenshot is None && is_capture_now_result(Ok(r), out) ==> out is Err
            && out->Err_0@ == "No screenshot produced by actor"@,
        r.screenshot is None && is_capture_event(Ok(r), event) ==> event is CaptureError
            && event->CaptureError_0@ == "Actor produced no screenshot"@,
        is_capture_now_result(Err(e), out) ==> out == Err::<Screenshot, String>(e),
        is_capture_event(Err(e), event) ==> event == ScreenWatchEvent::CaptureError(e),
{
}

/// The loop takes inputs in turn: while idle it takes only commands and
/// ticks; while a capture is outstanding it takes only the capture's result,
/// so no command or tick is handled in between; and while an event is being
/// handed on it takes only the delivery outcome.
pub proof fn lemma_inputs_in_turn(input: WatchInput)
    ensures
        watch_awaits(WatchPhase::Idle, input) <==> input is Command || input == WatchInput::Tick,
        watch_awaits(WatchPhase::AwaitingCapture, input) <==> input is Captured,
        watch_awaits(WatchPhase::AwaitingDelivery, input) <==> input is Delivered,
{
}

} // verus!

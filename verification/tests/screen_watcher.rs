use computer_use::actions::{ActionResult, Options, Point, ScreenRegion, Screenshot, ScreenshotParams};
use computer_use::screen_watcher::{
    capture_event, clamp_interval, max_interval, min_interval, next_input, DeliveryOutcome, ScreenWatchCommand,
    ScreenWatchEvent, ScreenWatcher, ScreenWatcherConfig, WatchInput, WatchOutput, WatchPhase, MAX_INTERVAL_SECS,
    MIN_INTERVAL_SECS,
};
use computer_use::time_span::TimeSpan;

fn default_params() -> ScreenshotParams {
    ScreenshotParams { max_long_edge_px: None, max_total_px: None, region: None }
}

fn screenshot() -> Screenshot {
    Screenshot {
        width: 1,
        height: 1,
        original_width: 1,
        original_height: 1,
        data: vec![0u8],
        mime_type: "image/png".into(),
    }
}

fn watcher(interval: TimeSpan) -> ScreenWatcher {
    ScreenWatcher::new(ScreenWatcherConfig { interval, screenshot_params: default_params() })
}

/// An actor that returns a trivial 1x1 screenshot on every call and counts the calls.
struct TrackingActor {
    call_count: usize,
}

impl TrackingActor {
    fn perform_actions(&mut self, _options: Options) -> Result<ActionResult, String> {
        self.call_count += 1;
        Ok(ActionResult { screenshot: Some(screenshot()), cursor_position: None })
    }
}

/// Runs the watch loop over `inputs` (commands and ticks), performing the
/// captures with `actor` and handing events to a receiver in state `receiver`.
/// Returns the delivered events and whether the loop stopped.
fn drive(
    w: &mut ScreenWatcher,
    actor: &mut TrackingActor,
    inputs: Vec<WatchInput>,
    receiver: DeliveryOutcome,
) -> (Vec<ScreenWatchEvent>, bool) {
    let mut delivered = Vec::new();
    for input in inputs {
        assert!(w.awaits(&input));
        let mut out = w.step(input);
        loop {
            match out {
                WatchOutput::Wait | WatchOutput::RestartTimer(_) => break,
                WatchOutput::Stop => return (delivered, true),
                WatchOutput::Capture(options) => {
                    let next = WatchInput::Captured(actor.perform_actions(options));
                    assert!(w.awaits(&next));
                    out = w.step(next);
                }
                WatchOutput::Emit(event) => {
                    if receiver == DeliveryOutcome::Delivered {
                        delivered.push(event);
                    }
                    let next = WatchInput::Delivered(receiver);
                    assert!(w.awaits(&next));
                    out = w.step(next);
                }
            }
        }
        assert_eq!(w.phase(), WatchPhase::Idle);
    }
    (delivered, false)
}

#[test]
fn test_screen_watcher_clamps_interval_below_min() {
    let w = watcher(TimeSpan::from_millis(500));
    assert_eq!(w.interval(), TimeSpan::from_secs(MIN_INTERVAL_SECS));
}

#[test]
fn test_screen_watcher_clamps_interval_above_max() {
    let w = watcher(TimeSpan::from_secs(120));
    assert_eq!(w.interval(), TimeSpan::from_secs(MAX_INTERVAL_SECS));
}

#[test]
fn test_screen_watcher_accepts_valid_interval() {
    let w = watcher(TimeSpan::from_secs(10));
    assert_eq!(w.interval(), TimeSpan::from_secs(10));
}

#[test]
fn test_set_interval_clamps() {
    let mut w = watcher(TimeSpan::from_secs(5));
    w.set_interval(TimeSpan::from_millis(100));
    assert_eq!(w.interval(), TimeSpan::from_secs(MIN_INTERVAL_SECS));
    w.set_interval(TimeSpan::from_secs(200));
    assert_eq!(w.interval(), TimeSpan::from_secs(MAX_INTERVAL_SECS));
}

#[test]
fn test_pause_resume_state() {
    let mut w = watcher(TimeSpan::from_secs(5));
    assert!(!w.is_paused());
    w.pause();
    assert!(w.is_paused());
    w.resume();
    assert!(!w.is_paused());
}

#[test]
fn test_capture_now_while_paused() {
    let mut watcher = watcher(TimeSpan::from_secs(5));
    watcher.pause();

    let mut actor = TrackingActor { call_count: 0 };
    let result = ScreenWatcher::capture_now_result(actor.perform_actions(watcher.capture_options()));
    assert!(result.is_ok(), "capture_now should succeed even while paused");
    assert_eq!(actor.call_count, 1);
}

#[test]
fn test_screen_watcher_stops_when_channel_dropped() {
    let mut w = watcher(TimeSpan::from_secs(5));
    let mut actor = TrackingActor { call_count: 0 };
    let (delivered, stopped) = drive(&mut w, &mut actor, vec![WatchInput::Tick], DeliveryOutcome::ChannelClosed);
    assert!(stopped, "watcher should have stopped after event channel was dropped");
    assert!(delivered.is_empty());
    assert_eq!(actor.call_count, 1);
}

#[test]
fn test_screen_watcher_stops_on_stop_command() {
    let mut w = watcher(TimeSpan::from_secs(5));
    let mut actor = TrackingActor { call_count: 0 };
    let (_, stopped) = drive(
        &mut w,
        &mut actor,
        vec![WatchInput::Command(Some(ScreenWatchCommand::Stop)), WatchInput::Tick],
        DeliveryOutcome::Delivered,
    );
    assert!(stopped, "watcher did not stop after Stop command");
    assert_eq!(actor.call_count, 0);
}

#[test]
fn test_screen_watcher_pause_skips_capture() {
    let mut w = watcher(TimeSpan::from_secs(5));
    let mut actor = TrackingActor { call_count: 0 };
    let (delivered, stopped) = drive(
        &mut w,
        &mut actor,
        vec![WatchInput::Command(Some(ScreenWatchCommand::Pause)), WatchInput::Tick, WatchInput::Tick, WatchInput::Tick],
        DeliveryOutcome::Delivered,
    );
    assert!(!stopped);
    assert!(delivered.is_empty(), "paused watcher should not emit screenshot events");
    assert_eq!(actor.call_count, 0, "paused watcher should not call perform_actions");
}

#[test]
fn test_screen_watcher_resume_restarts_timer() {
    let mut w = watcher(TimeSpan::from_secs(5));
    let mut actor = TrackingActor { call_count: 0 };
    let (delivered, _) = drive(
        &mut w,
        &mut actor,
        vec![WatchInput::Command(Some(ScreenWatchCommand::Pause)), WatchInput::Tick, WatchInput::Tick],
        DeliveryOutcome::Delivered,
    );
    assert!(delivered.is_empty());

    assert_eq!(
        w.step(WatchInput::Command(Some(ScreenWatchCommand::Resume))),
        WatchOutput::RestartTimer(TimeSpan::from_secs(5))
    );
    let (delivered, _) = drive(&mut w, &mut actor, vec![WatchInput::Tick], DeliveryOutcome::Delivered);
    assert_eq!(delivered.len(), 1, "expected a screenshot event after resume");
    assert!(matches!(delivered[0], ScreenWatchEvent::Screenshot(_)), "expected Screenshot event");
    assert_eq!(actor.call_count, 1);
}

#[test]
fn clamp_keeps_the_bounds_and_moves_values_just_outside() {
    assert_eq!(clamp_interval(TimeSpan::from_secs(2)), TimeSpan::from_secs(2));
    assert_eq!(clamp_interval(TimeSpan::from_secs(60)), TimeSpan::from_secs(60));
    assert_eq!(clamp_interval(TimeSpan::new(1, 999_999_999)), TimeSpan::from_secs(2));
    assert_eq!(clamp_interval(TimeSpan::new(60, 1)), TimeSpan::from_secs(60));
    assert_eq!(clamp_interval(TimeSpan::new(2, 1)), TimeSpan::new(2, 1));
    assert_eq!(clamp_interval(TimeSpan::from_secs(0)), min_interval());
    assert_eq!(clamp_interval(TimeSpan::new(u64::MAX, 999_999_999)), max_interval());
}

#[test]
fn clamp_is_idempotent_on_concrete_spans() {
    for d in [TimeSpan::from_millis(1), TimeSpan::from_millis(2500), TimeSpan::from_secs(61), TimeSpan::from_secs(45)] {
        assert_eq!(clamp_interval(clamp_interval(d)), clamp_interval(d));
    }
}

#[test]
fn new_watcher_keeps_its_params_and_is_not_paused() {
    let params = ScreenshotParams {
        max_long_edge_px: Some(1024),
        max_total_px: Some(1_000_000),
        region: Some(ScreenRegion { top_left: Point::new(0, 0), bottom_right: Point::new(100, 80) }),
    };
    let w = ScreenWatcher::new(ScreenWatcherConfig { interval: TimeSpan::from_secs(7), screenshot_params: params });
    assert!(!w.is_paused());
    assert_eq!(w.capture_options(), Options { screenshot_params: Some(params) });
}

#[test]
fn set_interval_keeps_pause_state() {
    let mut w = watcher(TimeSpan::from_secs(5));
    w.pause();
    w.set_interval(TimeSpan::from_secs(30));
    assert!(w.is_paused());
    assert_eq!(w.interval(), TimeSpan::from_secs(30));
}

#[test]
fn step_set_interval_restarts_timer_with_clamped_interval() {
    let mut w = watcher(TimeSpan::from_secs(5));
    let out = w.step(WatchInput::Command(Some(ScreenWatchCommand::SetInterval(TimeSpan::from_secs(90)))));
    assert_eq!(out, WatchOutput::RestartTimer(TimeSpan::from_secs(60)));
    assert_eq!(w.interval(), TimeSpan::from_secs(60));
    assert!(!w.is_paused());
}

#[test]
fn step_pause_waits_and_closed_channel_stops() {
    let mut w = watcher(TimeSpan::from_secs(5));
    assert_eq!(w.step(WatchInput::Command(Some(ScreenWatchCommand::Pause))), WatchOutput::Wait);
    assert!(w.is_paused());
    assert_eq!(w.step(WatchInput::Command(None)), WatchOutput::Stop);
    assert!(w.is_paused());
}

#[test]
fn pause_twice_then_resume_is_like_resume() {
    let mut a = watcher(TimeSpan::from_secs(5));
    a.pause();
    a.pause();
    a.resume();
    assert!(!a.is_paused());
    assert_eq!(a.interval(), TimeSpan::from_secs(5));
}

#[test]
fn unpaused_tick_asks_for_a_capture_with_the_params() {
    let mut w = watcher(TimeSpan::from_secs(5));
    assert_eq!(w.step(WatchInput::Tick), WatchOutput::Capture(Options { screenshot_params: Some(default_params()) }));
}

#[test]
fn capture_event_reports_each_outcome() {
    let ok = capture_event(Ok(ActionResult { screenshot: Some(screenshot()), cursor_position: None }));
    assert_eq!(ok, ScreenWatchEvent::Screenshot(screenshot()));
    let none = capture_event(Ok(ActionResult { screenshot: None, cursor_position: Some(Point::new(1, 2)) }));
    assert_eq!(none, ScreenWatchEvent::CaptureError("Actor produced no screenshot".to_string()));
    let err = capture_event(Err("display unavailable".to_string()));
    assert_eq!(err, ScreenWatchEvent::CaptureError("display unavailable".to_string()));
}

#[test]
fn failed_capture_is_reported_and_the_loop_goes_on() {
    let mut w = watcher(TimeSpan::from_secs(5));
    assert_eq!(w.step(WatchInput::Tick), WatchOutput::Capture(Options { screenshot_params: Some(default_params()) }));
    assert_eq!(w.phase(), WatchPhase::AwaitingCapture);
    assert!(!w.awaits(&WatchInput::Tick));
    let out = w.step(WatchInput::Captured(Err("boom".to_string())));
    assert_eq!(out, WatchOutput::Emit(ScreenWatchEvent::CaptureError("boom".to_string())));
    assert_eq!(w.phase(), WatchPhase::AwaitingDelivery);
    assert_eq!(w.step(WatchInput::Delivered(DeliveryOutcome::Delivered)), WatchOutput::Wait);
    assert_eq!(w.phase(), WatchPhase::Idle);
    let _ = w.step(WatchInput::Tick);
    let _ = w.step(WatchInput::Captured(Err("again".to_string())));
    assert_eq!(w.step(WatchInput::Delivered(DeliveryOutcome::ChannelClosed)), WatchOutput::Stop);
}

#[test]
fn full_channel_skips_the_tick_and_keeps_running() {
    let mut w = watcher(TimeSpan::from_secs(5));
    let mut actor = TrackingActor { call_count: 0 };
    let (delivered, stopped) =
        drive(&mut w, &mut actor, vec![WatchInput::Tick, WatchInput::Tick], DeliveryOutcome::ChannelFull);
    assert!(!stopped);
    assert!(delivered.is_empty());
    assert_eq!(w.phase(), WatchPhase::Idle);
    let (_, stopped) =
        drive(&mut w, &mut actor, vec![WatchInput::Command(Some(ScreenWatchCommand::Stop))], DeliveryOutcome::ChannelFull);
    assert!(stopped);
}

#[test]
fn pending_command_goes_before_a_due_tick() {
    assert_eq!(
        next_input(Some(Some(ScreenWatchCommand::Pause)), true),
        Some(WatchInput::Command(Some(ScreenWatchCommand::Pause)))
    );
    assert_eq!(next_input(Some(None), true), Some(WatchInput::Command(None)));
    assert_eq!(next_input(None, true), Some(WatchInput::Tick));
    assert_eq!(next_input(None, false), None);

    let mut w = watcher(TimeSpan::from_secs(5));
    let input = next_input(Some(Some(ScreenWatchCommand::Pause)), true).unwrap();
    assert_eq!(w.step(input), WatchOutput::Wait);
    assert_eq!(w.step(WatchInput::Tick), WatchOutput::Wait);
}

#[test]
fn capture_now_result_reports_each_outcome() {
    let ok = ScreenWatcher::capture_now_result(Ok(ActionResult { screenshot: Some(screenshot()), cursor_position: None }));
    assert_eq!(ok, Ok(screenshot()));
    let none = ScreenWatcher::capture_now_result(Ok(ActionResult { screenshot: None, cursor_position: None }));
    assert_eq!(none, Err("No screenshot produced by actor".to_string()));
    let err = ScreenWatcher::capture_now_result(Err("denied".to_string()));
    assert_eq!(err, Err("denied".to_string()));
}

#[test]
fn time_span_constructors() {
    let d = TimeSpan::new(3, 2_500_000_000);
    assert_eq!(d.as_secs(), 5);
    assert_eq!(d.subsec_nanos(), 500_000_000);
    let m = TimeSpan::from_millis(2_750);
    assert_eq!(m.as_secs(), 2);
    assert_eq!(m.subsec_nanos(), 750_000_000);
    assert_eq!(TimeSpan::from_secs(9).subsec_nanos(), 0);
    assert!(TimeSpan::from_millis(1_999).shorter_than(&TimeSpan::from_secs(2)));
    assert!(!TimeSpan::from_secs(2).shorter_than(&TimeSpan::from_millis(2_000)));
}

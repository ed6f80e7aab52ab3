//! Replay of a [`RecordingSession`] against a live actor.
//!
//! [`AutomationLoop`] holds the decisions of a replay. Its driver performs the
//! work that each [`ReplayCommand`] names (a screenshot, the pre-step callback,
//! an action) and hands back what came of it as a [`ReplayEvent`]. For each step
//! the loop:
//! 1. asks for a pre-step screenshot when screenshot parameters are set;
//! 2. asks the caller whether to proceed, with the step index and that screenshot;
//! 3. performs the step's action on [`StepDecision::Proceed`];
//! 4. stops on [`StepDecision::Cancel`].
//!
//! After all steps succeed, it asks for a final screenshot and completes.
use crate::actions::{capture_options, no_capture_options, Action, ActionResult, Options, Screenshot, ScreenshotParams};
use crate::recording::{RecordedStep, RecordingSession};
use vstd::prelude::*;

verus! {

/// Decision returned by the pre-step callback during replay.
#[derive(Debug, Clone, Copy, PartialEq, Eq, Structural)]
pub enum StepDecision {
    /// Continue and execute the step's action.
    Proceed,
    /// Stop replay immediately without executing the action.
    Cancel,
}

/// Result of running an [`AutomationLoop`].
#[derive(Debug, Clone, PartialEq, Eq)]
pub enum AutomationLoopResult {
    /// All steps completed successfully.
    Completed { steps_completed: usize, final_screenshot: Option<Screenshot> },
    /// Replay was cancelled by the pre-step callback before a step executed.
    Cancelled { steps_completed: usize },
    /// An error occurred while executing the action at `steps_completed`.
    Error { message: String, steps_completed: usize },
}

/// Where a replay stands.
#[derive(Debug, Clone, Copy, PartialEq, Eq, Structural)]
pub enum ReplayStage {
    /// The replay has not begun.
    NotStarted,
    /// Waiting for the screenshot taken before step `0`.
    AwaitingPreStepCapture(usize),
    /// Waiting for the caller's decision on step `0`.
    AwaitingDecision(usize),
    /// Waiting for the actor to perform the action of step `0`.
    AwaitingAction(usize),
    /// Waiting for the screenshot taken after the last step.
    AwaitingFinalCapture,
    /// The replay has ended.
    Finished,
}

/// What the driver of a replay hands back to the loop.
#[derive(Debug, PartialEq, Eq)]
pub enum ReplayEvent {
    /// Begin the replay.
    Start,
    /// The actor finished the capture that [`ReplayCommand::Capture`] asked for.
    Captured(Result<ActionResult, String>),
    /// The pre-step callback answered.
    Decided(StepDecision),
    /// The actor finished the action that [`ReplayCommand::Perform`] asked for.
    Performed(Result<ActionResult, String>),
}

/// The work the driver of a replay performs next.
#[derive(Debug, PartialEq, Eq)]
pub enum ReplayCommand {
    /// Ask the actor for a screenshot (no actions) under these options.
    Capture(Options),
    /// Call the pre-step callback with the step index and the pre-step screenshot.
    AskDecision { step_index: usize, screenshot: Option<Screenshot> },
    /// Ask the actor to perform this single action under these options.
    Perform { action: Action, options: Options },
    /// The replay is over, with this outcome.
    Finish(Result<AutomationLoopResult, String>),
}

/// Whether a stage waits for `event`.
pub open spec fn awaits(stage: ReplayStage, event: ReplayEvent) -> bool {
    match stage {
        ReplayStage::NotStarted => event is Start,
        ReplayStage::AwaitingPreStepCapture(_) => event is Captured,
        ReplayStage::AwaitingDecision(_) => event is Decided,
        ReplayStage::AwaitingAction(_) => event is Performed,
        ReplayStage::AwaitingFinalCapture => event is Captured,
        ReplayStage::Finished => false,
    }
}

/// The stage and command with which the replay enters step `i`, or, when
/// `i` is past the last step, its end.
pub open spec fn enter_step(steps: Seq<RecordedStep>, params: Option<ScreenshotParams>, i: int) -> (ReplayStage, ReplayCommand) {
    if i < steps.len() {
        match params {
            Some(p) => (ReplayStage::AwaitingPreStepCapture(i as usize), ReplayCommand::Capture(capture_options(p))),
            None => (
                ReplayStage::AwaitingDecision(i as usize),
                ReplayCommand::AskDecision { step_index: i as usize, screenshot: None },
            ),
        }
    } else {
        match params {
            Some(p) => (ReplayStage::AwaitingFinalCapture, ReplayCommand::Capture(capture_options(p))),
            None => (
                ReplayStage::Finished,
                ReplayCommand::Finish(
                    Ok(AutomationLoopResult::Completed { steps_completed: steps.len() as usize, final_screenshot: None }),
                ),
            ),
        }
    }
}

/// The next stage and command of a replay of `steps` under `params`, in stage
/// `stage`, on the awaited event `event`.
pub open spec fn replay_next(
    steps: Seq<RecordedStep>,
    params: Option<ScreenshotParams>,
    stage: ReplayStage,
    event: ReplayEvent,
) -> (ReplayStage, ReplayCommand)
    recommends
        awaits(stage, event),
{
    match stage {
        ReplayStage::NotStarted => enter_step(steps, params, 0),
        ReplayStage::AwaitingPreStepCapture(i) => match event {
            ReplayEvent::Captured(Ok(r)) => (
                ReplayStage::AwaitingDecision(i),
                ReplayCommand::AskDecision { step_index: i, screenshot: r.screenshot },
            ),
            ReplayEvent::Captured(Err(e)) => (ReplayStage::Finished, ReplayCommand::Finish(Err(e))),
            _ => (stage, arbitrary()),
        },
        ReplayStage::AwaitingDecision(i) => match event {
            ReplayEvent::Decided(StepDecision::Cancel) => (
                ReplayStage::Finished,
                ReplayCommand::Finish(Ok(AutomationLoopResult::Cancelled { steps_completed: i })),
            ),
            ReplayEvent::Decided(StepDecision::Proceed) => (
                ReplayStage::AwaitingAction(i),
                ReplayCommand::Perform { action: steps[i as int].action, options: no_capture_options() },
            ),
            _ => (stage, arbitrary()),
        },
        ReplayStage::AwaitingAction(i) => match event {
            ReplayEvent::Performed(Ok(_)) => enter_step(steps, params, i + 1),
            ReplayEvent::Performed(Err(m)) => (
                ReplayStage::Finished,
                ReplayCommand::Finish(Ok(AutomationLoopResult::Error { message: m, steps_completed: i })),
            ),
            _ => (stage, arbitrary()),
        },
        ReplayStage::AwaitingFinalCapture => match event {
            ReplayEvent::Captured(Ok(r)) => (
                ReplayStage::Finished,
                ReplayCommand::Finish(
                    Ok(AutomationLoopResult::Completed { steps_completed: steps.len() as usize, final_screenshot: r.screenshot }),
                ),
            ),
            ReplayEvent::Captured(Err(e)) => (ReplayStage::Finished, ReplayCommand::Finish(Err(e))),
            _ => (stage, arbitrary()),
        },
        ReplayStage::Finished => (stage, arbitrary()),
    }
}

/// Whether `stage` is a stage of a replay of `n` steps under `params`: a
/// step it waits on exists, and it waits for a screenshot only when
/// screenshots are taken.
pub open spec fn stage_fits(stage: ReplayStage, n: nat, params: Option<ScreenshotParams>) -> bool {
    match stage {
        ReplayStage::AwaitingPreStepCapture(i) => i < n && params is Some,
        ReplayStage::AwaitingDecision(i) => i < n,
        ReplayStage::AwaitingAction(i) => i < n,
        ReplayStage::AwaitingFinalCapture => params is Some,
        _ => true,
    }
}

/// A replay, as the contracts see it.
pub struct ReplayView {
    pub steps: Seq<RecordedStep>,
    pub screenshot_params: Option<ScreenshotParams>,
    pub stage: ReplayStage,
}

/// Drives replay of a [`RecordingSession`]: decides, from each outcome its
/// driver reports, the next piece of work.
///
/// Screenshot parameters serve both the per-step and the final screenshots;
/// `None` skips all screenshots.
pub struct AutomationLoop<'a> {
    session: &'a RecordingSession,
    screenshot_params: Option<ScreenshotParams>,
    stage: ReplayStage,
}

impl<'a> View for AutomationLoop<'a> {
    type V = ReplayView;

    closed spec fn view(&self) -> ReplayView {
        ReplayView { steps: self.session@.steps, screenshot_params: self.screenshot_params, stage: self.stage }
    }
}

impl<'a> AutomationLoop<'a> {
    #[verifier::type_invariant]
    spec fn stage_in_session(self) -> bool {
        stage_fits(self.stage, self.session@.steps.len(), self.screenshot_params)
    }

    /// Creates a new automation loop over `session`, not yet started.
    pub fn new(session: &'a RecordingSession, screenshot_params: Option<ScreenshotParams>) -> (l: AutomationLoop<'a>)
        ensures
            l@.steps == session@.steps,
            l@.screenshot_params == screenshot_params,
            l@.stage == ReplayStage::NotStarted,
    {
        AutomationLoop { session, screenshot_params, stage: ReplayStage::NotStarted }
    }

    /// Where the replay stands.
    pub fn stage(&self) -> (s: ReplayStage)
        ensures
            s == self@.stage,
            stage_fits(s, self@.steps.len(), self@.screenshot_params),
    {
        proof {
            use_type_invariant(self);
        }
        self.stage
    }

    /// Whether the replay waits for `event` now.
    pub fn awaits(&self, event: &ReplayEvent) -> (b: bool)
        ensures
            b == awaits(self@.stage, *event),
    {
        match self.stage {
            ReplayStage::NotStarted => matches!(event, ReplayEvent::Start),
            ReplayStage::AwaitingPreStepCapture(_) => matches!(event, ReplayEvent::Captured(_)),
            ReplayStage::AwaitingDecision(_) => matches!(event, ReplayEvent::Decided(_)),
            ReplayStage::AwaitingAction(_) => matches!(event, ReplayEvent::Performed(_)),
            ReplayStage::AwaitingFinalCapture => matches!(event, ReplayEvent::Captured(_)),
            ReplayStage::Finished => false,
        }
    }

    /// The stage and command with which the replay enters step `i`.
    fn enter_step(&self, i: usize) -> (r: (ReplayStage, ReplayCommand))
        requires
            i <= self@.steps.len(),
        ensures
            r == enter_step(self@.steps, self@.screenshot_params, i as int),
    {
        if i < self.session.step_count() {
            match self.screenshot_params {
                Some(p) => (ReplayStage::AwaitingPreStepCapture(i), ReplayCommand::Capture(Options { screenshot_params: Some(p) })),
                None => (ReplayStage::AwaitingDecision(i), ReplayCommand::AskDecision { step_index: i, screenshot: None }),
            }
        } else {
            match self.screenshot_params {
                Some(p) => (ReplayStage::AwaitingFinalCapture, ReplayCommand::Capture(Options { screenshot_params: Some(p) })),
                None => (
                    ReplayStage::Finished,
                    ReplayCommand::Finish(
                        Ok(AutomationLoopResult::Completed { steps_completed: self.session.step_count(), final_screenshot: None }),
                    ),
                ),
            }
        }
    }

    /// Hands the replay the event it waits for, and returns the work its
    /// driver performs next.
    pub fn advance(&mut self, event: ReplayEvent) -> (cmd: ReplayCommand)
        requires
            awaits(old(self)@.stage, event),
        ensures
            final(self)@.steps == old(self)@.steps,
            final(self)@.screenshot_params == old(self)@.screenshot_params,
            (final(self)@.stage, cmd) == replay_next(old(self)@.steps, old(self)@.screenshot_params, old(self)@.stage, event),
    {
        proof {
            use_type_invariant(&*self);
        }
        let (stage, cmd) = match self.stage {
            ReplayStage::NotStarted => self.enter_step(0),
            ReplayStage::AwaitingPreStepCapture(i) => match event {
                ReplayEvent::Captured(Ok(r)) => (
                    ReplayStage::AwaitingDecision(i),
                    ReplayCommand::AskDecision { step_index: i, screenshot: r.screenshot },
                ),
                ReplayEvent::Captured(Err(e)) => (ReplayStage::Finished, ReplayCommand::Finish(Err(e))),
                _ => {
                    assert(false);
                    (ReplayStage::Finished, ReplayCommand::Finish(Err(String::new())))
                },
            },
            ReplayStage::AwaitingDecision(i) => match event {
                ReplayEvent::Decided(StepDecision::Cancel) => (
                    ReplayStage::Finished,
                    ReplayCommand::Finish(Ok(AutomationLoopResult::Cancelled { steps_completed: i })),
                ),
                ReplayEvent::Decided(StepDecision::Proceed) => {
                    let action = self.session.steps()[i].action;
                    (ReplayStage::AwaitingAction(i), ReplayCommand::Perform { action, options: Options { screenshot_params: None } })
                },
                _ => {
                    assert(false);
                    (ReplayStage::Finished, ReplayCommand::Finish(Err(String::new())))
                },
            },
            ReplayStage::AwaitingAction(i) => match event {
                ReplayEvent::Performed(Ok(_)) => {
                    let n = self.session.step_count();
                    assert(i < n);
                    self.enter_step(i + 1)
                },
                ReplayEvent::Performed(Err(m)) => (
                    ReplayStage::Finished,
                    ReplayCommand::Finish(Ok(AutomationLoopResult::Error { message: m, steps_completed: i })),
                ),
                _ => {
                    assert(false);
                    (ReplayStage::Finished, ReplayCommand::Finish(Err(String::new())))
                },
            },
            ReplayStage::AwaitingFinalCapture => match event {
                ReplayEvent::Captured(Ok(r)) => (
                    ReplayStage::Finished,
                    ReplayCommand::Finish(
                        Ok(AutomationLoopResult::Completed { steps_completed: self.session.step_count(), final_screenshot: r.screenshot }),
                    ),
                ),
                ReplayEvent::Captured(Err(e)) => (ReplayStage::Finished, ReplayCommand::Finish(Err(e))),
                _ => {
                    assert(false);
                    (ReplayStage::Finished, ReplayCommand::Finish(Err(String::new())))
                },
            },
            ReplayStage::Finished => {
                assert(false);
                (ReplayStage::Finished, ReplayCommand::Finish(Err(String::new())))
            },
        };
        self.stage = stage;
        cmd
    }
}

/// How far a replay of `n` steps has come: every awaited event raises it.
pub open spec fn replay_progress(stage: ReplayStage, n: nat) -> nat {
    match stage {
        ReplayStage::NotStarted => 0,
        ReplayStage::AwaitingPreStepCapture(i) => 3 * (i as nat) + 1,
        ReplayStage::AwaitingDecision(i) => 3 * (i as nat) + 2,
        ReplayStage::AwaitingAction(i) => 3 * (i as nat) + 3,
        ReplayStage::AwaitingFinalCapture => 3 * n + 1,
        ReplayStage::Finished => 3 * n + 2,
    }
}

/// A replay never goes back and never retries: every awaited event moves it
/// strictly forward, to a stage of the same recording, so that it ends after at
/// most `3 * n + 2` events for a recording of `n` steps.
pub proof fn lemma_replay_moves_forward(
    steps: Seq<RecordedStep>,
    params: Option<ScreenshotParams>,
    stage: ReplayStage,
    event: ReplayEvent,
)
    requires
        steps.len() <= usize::MAX,
        stage_fits(stage, steps.len(), params),
        awaits(stage, event),
    ensures
        stage_fits(replay_next(steps, params, stage, event).0, steps.len(), params),
        replay_progress(stage, steps.len()) < replay_progress(replay_next(steps, params, stage, event).0, steps.len()),
        replay_progress(replay_next(steps, params, stage, event).0, steps.len()) <= 3 * steps.len() + 2,
{
}

/// How a replay ends. It ends exactly when it issues a `Finish` command, and a
/// finished replay waits for nothing more. `Completed` counts every step of the
/// recording; `Cancelled` names the step whose pre-step decision was `Cancel`, and
/// no action of that step runs; `Error` names the step whose action failed and
/// carries the actor's message; an `Err` outcome carries the error of a failed
/// screenshot capture.
pub proof fn lemma_replay_outcomes(
    steps: Seq<RecordedStep>,
    params: Option<ScreenshotParams>,
    stage: ReplayStage,
    event: ReplayEvent,
)
    requires
        steps.len() <= usize::MAX,
        stage_fits(stage, steps.len(), params),
        awaits(stage, event),
    ensures
        ({
            let (next, cmd) = replay_next(steps, params, stage, event);
            &&& (cmd is Finish <==> next == ReplayStage::Finished)
            &&& forall|e: ReplayEvent| !awaits(ReplayStage::Finished, e)
            &&& (cmd matches ReplayCommand::Finish(Ok(AutomationLoopResult::Completed { steps_completed, .. }))
                ==> steps_completed == steps.len())
            &&& (cmd matches ReplayCommand::Finish(Ok(AutomationLoopResult::Cancelled { steps_completed }))
                ==> stage == ReplayStage::AwaitingDecision(steps_completed)
                    && event == ReplayEvent::Decided(StepDecision::Cancel)
                    && steps_completed < steps.len())
            &&& (cmd matches ReplayCommand::Finish(Ok(AutomationLoopResult::Error { message, steps_completed }))
                ==> stage == ReplayStage::AwaitingAction(steps_completed)
                    && event == ReplayEvent::Performed(Err(message))
                    && steps_completed < steps.len())
            &&& (cmd matches ReplayCommand::Finish(Err(e)) ==> event == ReplayEvent::Captured(Err(e)))
        }),
{
}

/// Steps run in the order of the recording. The action of step `i` is
/// performed only after the caller decided `Proceed` on step `i`, it is the
/// recorded action, and it is performed without a screenshot; once it
/// succeeds, the replay moves on to step `i + 1`, or to its end after the last
/// step. Before each step's decision the replay asks for a pre-step screenshot
/// exactly when screenshot parameters are set, and hands the callback the
/// screenshot so captured.
pub proof fn lemma_replay_in_order(
    steps: Seq<RecordedStep>,
    params: Option<ScreenshotParams>,
    stage: ReplayStage,
    event: ReplayEvent,
)
    requires
        steps.len() <= usize::MAX,
        stage_fits(stage, steps.len(), params),
        awaits(stage, event),
    ensures
        ({
            let (next, cmd) = replay_next(steps, params, stage, event);
            &&& (cmd matches ReplayCommand::Perform { action, options } ==> {
                &&& stage matches ReplayStage::AwaitingDecision(i)
                &&& event == ReplayEvent::Decided(StepDecision::Proceed)
                &&& next == ReplayStage::AwaitingAction(i)
                &&& action == steps[i as int].action
                &&& options == no_capture_options()
            })
            &&& (stage is AwaitingAction && event is Performed && event->Performed_0 is Ok
                ==> (next, cmd) == enter_step(steps, params, stage->AwaitingAction_0 + 1))
            &&& (cmd matches ReplayCommand::AskDecision { step_index, screenshot } ==> {
                &&& next == ReplayStage::AwaitingDecision(step_index)
                &&& (params is None ==> screenshot is None)
                &&& (stage is AwaitingPreStepCapture ==> {
                    &&& stage->AwaitingPreStepCapture_0 == step_index
                    &&& event matches ReplayEvent::Captured(Ok(r))
                    &&& r.screenshot == screenshot
                })
            })
        }),
{
}

/// Whether `event` reports success: the start, a capture or an action that
/// succeeded, or a decision to proceed.
pub open spec fn is_success(event: ReplayEvent) -> bool {
    match event {
        ReplayEvent::Start => true,
        ReplayEvent::Captured(r) => r is Ok,
        ReplayEvent::Decided(d) => d == StepDecision::Proceed,
        ReplayEvent::Performed(r) => r is Ok,
    }
}

/// The stage and last command after a replay in `stage`, whose last command was
/// `cmd`, receives `events` in order; `None` when one of them arrives while the
/// replay does not wait for it.
pub open spec fn replay_run(
    steps: Seq<RecordedStep>,
    params: Option<ScreenshotParams>,
    stage: ReplayStage,
    cmd: ReplayCommand,
    events: Seq<ReplayEvent>,
) -> Option<(ReplayStage, ReplayCommand)>
    decreases events.len(),
{
    if events.len() == 0 {
        Some((stage, cmd))
    } else if !awaits(stage, events[0]) {
        None
    } else {
        let (next, next_cmd) = replay_next(steps, params, stage, events[0]);
        replay_run(steps, params, next, next_cmd, events.subrange(1, events.len() as int))
    }
}

/// The number of events a replay of `n` steps receives after entering step `i`
/// when everything succeeds.
pub open spec fn remaining_events(n: nat, params: Option<ScreenshotParams>, i: nat) -> nat {
    if params is Some {
        (3 * (n - i) + 1) as nat
    } else {
        (2 * (n - i)) as nat
    }
}

proof fn lemma_success_from_step(
    steps: Seq<RecordedStep>,
    params: Option<ScreenshotParams>,
    i: nat,
    events: Seq<ReplayEvent>,
)
    requires
        i <= steps.len(),
        steps.len() <= usize::MAX,
        events.len() == remaining_events(steps.len(), params, i),
        forall|k: int| 0 <= k < events.len() ==> is_success(#[trigger] events[k]),
        replay_run(steps, params, enter_step(steps, params, i as int).0, enter_step(steps, params, i as int).1, events) is Some,
    ensures
        ({
            let (stage, cmd) = replay_run(
                steps,
                params,
                enter_step(steps, params, i as int).0,
                enter_step(steps, params, i as int).1,
                events,
            )->0;
            &&& stage == ReplayStage::Finished
            &&& cmd matches ReplayCommand::Finish(Ok(AutomationLoopResult::Completed { steps_completed, .. }))
            &&& steps_completed == steps.len()
        }),
    decreases steps.len() - i,
{
    let (s0, c0) = enter_step(steps, params, i as int);
    let n = steps.len();
    assert(is_success(events[0]) || events.len() == 0);
    if i == n {
        if params is Some {
            assert(is_success(events[0]));
            let e1 = events.subrange(1, events.len() as int);
            assert(e1.len() == 0);
            let (s1, c1) = replay_next(steps, params, s0, events[0]);
            assert(replay_run(steps, params, s0, c0, events) == replay_run(steps, params, s1, c1, e1));
        }
    } else {
        let e1 = events.subrange(1, events.len() as int);
        let e2 = e1.subrange(1, e1.len() as int);
        let (s1, c1) = replay_next(steps, params, s0, events[0]);
        assert(is_success(events[1]));
        assert(e1[0] == events[1]);
        assert(replay_run(steps, params, s0, c0, events) == replay_run(steps, params, s1, c1, e1));
        let (s2, c2) = replay_next(steps, params, s1, e1[0]);
        assert(replay_run(steps, params, s1, c1, e1) == replay_run(steps, params, s2, c2, e2));
        let tail: Seq<ReplayEvent>;
        if params is Some {
            assert(is_success(events[2]));
            assert(e2[0] == events[2]);
            let e3 = e2.subrange(1, e2.len() as int);
            let (s3, c3) = replay_next(steps, params, s2, e2[0]);
            assert(replay_run(steps, params, s2, c2, e2) == replay_run(steps, params, s3, c3, e3));
            assert((s3, c3) == enter_step(steps, params, (i + 1) as int));
            tail = e3;
            assert forall|k: int| 0 <= k < tail.len() implies is_success(#[trigger] tail[k]) by {
                assert(tail[k] == events[k + 3]);
            }
        } else {
            assert((s2, c2) == enter_step(steps, params, (i + 1) as int));
            tail = e2;
            assert forall|k: int| 0 <= k < tail.len() implies is_success(#[trigger] tail[k]) by {
                assert(tail[k] == events[k + 2]);
            }
        }
        lemma_success_from_step(steps, params, i + 1, tail);
    }
}

/// A replay in which the caller proceeds at every step and every capture and
/// action succeeds completes, after its `3 * n + 2` events (with screenshots)
/// or `2 * n + 1` events (without), with every one of the `n` steps completed.
pub proof fn lemma_successful_replay_completes(
    steps: Seq<RecordedStep>,
    params: Option<ScreenshotParams>,
    start_cmd: ReplayCommand,
    events: Seq<ReplayEvent>,
)
    requires
        steps.len() <= usize::MAX,
        events.len() == remaining_events(steps.len(), params, 0) + 1,
        forall|k: int| 0 <= k < events.len() ==> is_success(#[trigger] events[k]),
        replay_run(steps, params, ReplayStage::NotStarted, start_cmd, events) is Some,
    ensures
        ({
            let (stage, cmd) = replay_run(steps, params, ReplayStage::NotStarted, start_cmd, events)->0;
            &&& stage == ReplayStage::Finished
            &&& cmd matches ReplayCommand::Finish(Ok(AutomationLoopResult::Completed { steps_completed, .. }))
            &&& steps_completed == steps.len()
        }),
{
    assert(is_success(events[0]));
    let rest = events.subrange(1, events.len() as int);
    assert forall|k: int| 0 <= k < rest.len() implies is_success(#[trigger] rest[k]) by {
        assert(rest[k] == events[k + 1]);
    }
    lemma_success_from_step(steps, params, 0, rest);
}

/// An empty recording completes at once with no step completed: on its start
/// it finishes, or, with screenshot parameters, it first asks for the final
/// screenshot and then finishes with it.
pub proof fn lemma_empty_recording_completes(steps: Seq<RecordedStep>, params: Option<ScreenshotParams>, shot: ActionResult)
    requires
        steps.len() == 0,
    ensures
        params is None ==> replay_next(steps, params, ReplayStage::NotStarted, ReplayEvent::Start) == (
            ReplayStage::Finished,
            ReplayCommand::Finish(Ok(AutomationLoopResult::Completed { steps_completed: 0, final_screenshot: None })),
        ),
        params matches Some(p) ==> replay_next(steps, params, ReplayStage::NotStarted, ReplayEvent::Start) == (
            ReplayStage::AwaitingFinalCapture,
            ReplayCommand::Capture(capture_options(p)),
        ),
        params is Some ==> replay_next(steps, params, ReplayStage::AwaitingFinalCapture, ReplayEvent::Captured(Ok(shot))) == (
            ReplayStage::Finished,
            ReplayCommand::Finish(
                Ok(AutomationLoopResult::Completed { steps_completed: 0, final_screenshot: shot.screenshot }),
            ),
        ),
{
}

/// A cancel ends the replay at once and reports the step it was given for:
/// for every step `i`, `Cancel` in answer to the decision on step `i`
/// finishes with `Cancelled { steps_completed: i }` and performs nothing.
pub proof fn lemma_cancel_reports_its_step(steps: Seq<RecordedStep>, params: Option<ScreenshotParams>, i: usize)
    requires
        i < steps.len(),
    ensures
        replay_next(steps, params, ReplayStage::AwaitingDecision(i), ReplayEvent::Decided(StepDecision::Cancel)) == (
            ReplayStage::Finished,
            ReplayCommand::Finish(Ok(AutomationLoopResult::Cancelled { steps_completed: i })),
        ),
{
}

/// `Proceed` on step `i` performs exactly the recorded action of step `i`,
/// without a screenshot; a failure of that action ends the replay with the
/// actor's message and step `i` as the number of completed steps.
pub proof fn lemma_proceed_and_failure(
    steps: Seq<RecordedStep>,
    params: Option<ScreenshotParams>,
    i: usize,
    message: String,
)
    requires
        i < steps.len(),
    ensures
        replay_next(steps, params, ReplayStage::AwaitingDecision(i), ReplayEvent::Decided(StepDecision::Proceed)) == (
            ReplayStage::AwaitingAction(i),
            ReplayCommand::Perform { action: steps[i as int].action, options: Options { screenshot_params: None } },
        ),
        replay_next(steps, params, ReplayStage::AwaitingAction(i), ReplayEvent::Performed(Err(message))) == (
            ReplayStage::Finished,
            ReplayCommand::Finish(Ok(AutomationLoopResult::Error { message, steps_completed: i })),
        ),
{
}

/// How each step is entered: at the start, and after the action of step `i`
/// succeeds, the replay asks for a pre-step screenshot under the parameters
/// when they are set, and otherwise asks for the decision on the step at once
/// with no screenshot. A pre-step screenshot is handed to the decision on the
/// same step; a failed one ends the replay with its error.
pub proof fn lemma_steps_are_entered_in_turn(
    steps: Seq<RecordedStep>,
    params: Option<ScreenshotParams>,
    i: usize,
    r: ActionResult,
    e: String,
)
    requires
        steps.len() <= usize::MAX,
        i < steps.len(),
    ensures
        ({
            let next = if i == 0 {
                replay_next(steps, params, ReplayStage::NotStarted, ReplayEvent::Start)
            } else {
                replay_next(steps, params, ReplayStage::AwaitingAction((i - 1) as usize), ReplayEvent::Performed(Ok(r)))
            };
            match params {
                Some(p) => next == (
                    ReplayStage::AwaitingPreStepCapture(i),
                    ReplayCommand::Capture(Options { screenshot_params: Some(p) }),
                ),
                None => next == (
                    ReplayStage::AwaitingDecision(i),
                    ReplayCommand::AskDecision { step_index: i, screenshot: None },
                ),
            }
        }),
        replay_next(steps, params, ReplayStage::AwaitingPreStepCapture(i), ReplayEvent::Captured(Ok(r))) == (
            ReplayStage::AwaitingDecision(i),
            ReplayCommand::AskDecision { step_index: i, screenshot: r.screenshot },
        ),
        replay_next(steps, params, ReplayStage::AwaitingPreStepCapture(i), ReplayEvent::Captured(Err(e))) == (
            ReplayStage::Finished,
            ReplayCommand::Finish(Err::<AutomationLoopResult, String>(e)),
        ),
{
}

/// A replay completes only at its end: after the action of the last step
/// succeeded (no screenshots), when the final screenshot came back (with
/// screenshots; it is the screenshot reported), or at the start of an empty
/// recording without screenshots. It never completes from a decision, and it
/// always reports every step of the recording.
pub proof fn lemma_completes_only_at_the_end(
    steps: Seq<RecordedStep>,
    params: Option<ScreenshotParams>,
    stage: ReplayStage,
    event: ReplayEvent,
)
    requires
        steps.len() <= usize::MAX,
        stage_fits(stage, steps.len(), params),
        awaits(stage, event),
    ensures
        ({
            let (next, cmd) = replay_next(steps, params, stage, event);
            cmd matches ReplayCommand::Finish(Ok(AutomationLoopResult::Completed { steps_completed, final_screenshot })) ==> {
                &&& steps_completed == steps.len()
                &&& !(stage is AwaitingDecision)
                &&& !(stage is AwaitingPreStepCapture)
                &&& {
                    ||| (params is None && stage == ReplayStage::AwaitingAction((steps.len() - 1) as usize)
                        && event is Performed && event->Performed_0 is Ok && final_screenshot is None)
                    ||| (stage == ReplayStage::AwaitingFinalCapture && event is Captured && event->Captured_0 is Ok
                        && final_screenshot == event->Captured_0->Ok_0.screenshot)
                    ||| (params is None && stage == ReplayStage::NotStarted && steps.len() == 0 && final_screenshot is None)
                }
            }
        }),
{
}

/// How a replay ends after its last step: once the last action succeeds it
/// asks for the final screenshot under the parameters when they are set, and
/// otherwise completes with every step and no screenshot; the final screenshot
/// is the one reported on completion, and a failed final capture ends the
/// replay with the capture's error. A finished replay waits for nothing.
pub proof fn lemma_replay_end(steps: Seq<RecordedStep>, params: Option<ScreenshotParams>, r: ActionResult, e: String, event: ReplayEvent)
    requires
        0 < steps.len() <= usize::MAX,
    ensures
        ({
            let last = (steps.len() - 1) as usize;
            let next = replay_next(steps, params, ReplayStage::AwaitingAction(last), ReplayEvent::Performed(Ok(r)));
            match params {
                Some(p) => next == (
                    ReplayStage::AwaitingFinalCapture,
                    ReplayCommand::Capture(Options { screenshot_params: Some(p) }),
                ),
                None => next == (
                    ReplayStage::Finished,
                    ReplayCommand::Finish(
                        Ok(AutomationLoopResult::Completed { steps_completed: steps.len() as usize, final_screenshot: None }),
                    ),
                ),
            }
        }),
        replay_next(steps, params, ReplayStage::AwaitingFinalCapture, ReplayEvent::Captured(Ok(r))) == (
            ReplayStage::Finished,
            ReplayCommand::Finish(
                Ok(AutomationLoopResult::Completed { steps_completed: steps.len() as usize, final_screenshot: r.screenshot }),
            ),
        ),
        replay_next(steps, params, ReplayStage::AwaitingFinalCapture, ReplayEvent::Captured(Err(e))) == (
            ReplayStage::Finished,
            ReplayCommand::Finish(Err::<AutomationLoopResult, String>(e)),
        ),
        !awaits(ReplayStage::Finished, event),
        awaits(ReplayStage::NotStarted, event) <==> event == ReplayEvent::Start,
        awaits(ReplayStage::AwaitingFinalCapture, event) <==> event is Captured,
{
}

} // verus!

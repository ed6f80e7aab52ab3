//! Recording of desktop actions.
//!
//! - [`RecordedStep`]: a single captured user action with an optional before-screenshot.
//! - [`RecordingSession`]: an ordered collection of steps produced by a recording session.
use crate::actions::{Action, Screenshot};
use vstd::prelude::*;

verus! {

/// A single step captured during a desktop recording session.
///
/// `before_screenshot` is taken immediately before the action is performed and may be
/// `None` when screenshots are disabled.
#[derive(Debug, Clone, PartialEq, Eq)]
pub struct RecordedStep {
    /// Screenshot of the desktop state immediately before this action was taken.
    pub before_screenshot: Option<Screenshot>,
    /// The action that was performed at this step.
    pub action: Action,
}

/// What a recording holds: its steps in order and the final screenshot.
pub struct RecordingView {
    pub steps: Seq<RecordedStep>,
    pub final_screenshot: Option<Screenshot>,
}

/// An ordered collection of [`RecordedStep`]s produced during a recording session.
///
/// Created via [`RecordingSession::new`], populated with [`RecordingSession::add_step`],
/// and frozen by [`RecordingSession::finish`].
#[derive(Debug, Clone, PartialEq, Eq)]
pub struct RecordingSession {
    steps: Vec<RecordedStep>,
    /// Screenshot taken after the final step, representing the desktop's end state.
    final_screenshot: Option<Screenshot>,
}

impl View for RecordingSession {
    type V = RecordingView;

    closed spec fn view(&self) -> RecordingView {
        RecordingView { steps: self.steps@, final_screenshot: self.final_screenshot }
    }
}

impl RecordingSession {
    /// Creates an empty recording session.
    pub fn new() -> (s: RecordingSession)
        ensures
            s@.steps == Seq::<RecordedStep>::empty(),
            s@.final_screenshot is None,
    {
        RecordingSession { steps: Vec::new(), final_screenshot: None }
    }

    /// Appends a step to the in-progress recording.
    pub fn add_step(&mut self, step: RecordedStep)
        ensures
            final(self)@.steps == old(self)@.steps.push(step),
            final(self)@.final_screenshot == old(self)@.final_screenshot,
    {
        self.steps.push(step);
    }

    /// Freezes the session and attaches the optional final screenshot.
    ///
    /// Returns the session for chaining.
    pub fn finish(self, final_screenshot: Option<Screenshot>) -> (s: RecordingSession)
        ensures
            s@.steps == self@.steps,
            s@.final_screenshot == final_screenshot,
    {
        let mut s = self;
        s.final_screenshot = final_screenshot;
        s
    }

    /// Returns the recorded steps in order.
    pub fn steps(&self) -> (steps: &[RecordedStep])
        ensures
            steps@ == self@.steps,
    {
        self.steps.as_slice()
    }

    /// Returns the final screenshot taken after the last step, if any.
    pub fn final_screenshot(&self) -> (shot: Option<&Screenshot>)
        ensures
            shot is Some <==> self@.final_screenshot is Some,
            shot is Some ==> *shot->0 == self@.final_screenshot->0,
    {
        self.final_screenshot.as_ref()
    }

    /// Whether no steps were recorded.
    pub open spec fn has_no_steps(&self) -> bool {
        self@.steps.len() == 0
    }

    /// The number of recorded steps.
    pub open spec fn number_of_steps(&self) -> usize {
        self@.steps.len() as usize
    }

    /// Returns `true` if no steps were recorded.
    #[verifier::when_used_as_spec(has_no_steps)]
    pub fn is_empty(&self) -> (b: bool)
        ensures
            b <==> self@.steps.len() == 0,
    {
        self.steps.len() == 0
    }

    /// Returns the number of recorded steps.
    #[verifier::when_used_as_spec(number_of_steps)]
    pub fn step_count(&self) -> (n: usize)
        ensures
            n == self@.steps.len(),
    {
        self.steps.len()
    }
}

impl Default for RecordingSession {
    /// An empty recording session, as [`RecordingSession::new`] makes.
    fn default() -> (s: RecordingSession)
        ensures
            s@.steps == Seq::<RecordedStep>::empty(),
            s@.final_screenshot is None,
    {
        RecordingSession::new()
    }
}

/// A session never holds more steps than a `usize` counts, so its step
/// count is its number of steps.
pub broadcast proof fn lemma_steps_fit_usize(s: RecordingSession)
    ensures
        #[trigger] s@.steps.len() <= usize::MAX,
        s.step_count() == s@.steps.len(),
{
    assert(s.steps.len() == s.steps@.len());
}

/// A session is empty exactly when it counts no steps.
pub proof fn lemma_empty_iff_no_steps(s: RecordingSession)
    ensures
        s.is_empty() <==> s.step_count() == 0,
{
    lemma_steps_fit_usize(s);
}

/// Adding a step makes a session non-empty and counts one step more; finishing
/// keeps the steps and their count.
pub proof fn lemma_add_then_finish(before: RecordingSession, added: RecordingSession, step: RecordedStep, finished: RecordingSession, shot: Option<Screenshot>)
    requires
        added@.steps == before@.steps.push(step),
        finished@.steps == added@.steps,
        finished@.final_screenshot == shot,
    ensures
        !added.is_empty(),
        added.step_count() == before.step_count() + 1,
        finished.step_count() == added.step_count(),
        finished@.steps.last() == step,
{
    lemma_steps_fit_usize(added);
    lemma_steps_fit_usize(before);
    lemma_steps_fit_usize(finished);
}

} // verus!

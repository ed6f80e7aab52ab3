use computer_use::actions::{Action, Point, Screenshot};
use computer_use::recording::{RecordedStep, RecordingSession};

fn dummy_action() -> Action {
    Action::MouseMove { to: Point::new(0, 0) }
}

fn step() -> RecordedStep {
    RecordedStep { before_screenshot: None, action: dummy_action() }
}

fn screenshot(byte: u8) -> Screenshot {
    Screenshot {
        width: 1,
        height: 1,
        original_width: 1,
        original_height: 1,
        data: vec![byte],
        mime_type: "image/png".into(),
    }
}

#[test]
fn test_empty_recording_session() {
    let session = RecordingSession::new();
    assert!(session.is_empty());
    assert_eq!(session.step_count(), 0);
    assert!(session.steps().is_empty());
    assert!(session.final_screenshot().is_none());
}

#[test]
fn test_add_steps() {
    let mut session = RecordingSession::new();
    session.add_step(step());
    session.add_step(step());
    assert_eq!(session.step_count(), 2);
    assert!(!session.is_empty());

    let session = session.finish(None);
    assert_eq!(session.step_count(), 2);
    assert!(session.final_screenshot().is_none());
}

#[test]
fn test_is_empty() {
    let mut session = RecordingSession::new();
    assert!(session.is_empty());
    session.add_step(step());
    assert!(!session.is_empty());
}

#[test]
fn steps_keep_the_order_they_were_added_in() {
    let mut session = RecordingSession::new();
    let first = RecordedStep { before_screenshot: Some(screenshot(1)), action: Action::KeyDown { key_code: 36 } };
    let second = RecordedStep { before_screenshot: None, action: Action::MouseMove { to: Point::new(10, -3) } };
    session.add_step(first.clone());
    session.add_step(second.clone());
    assert_eq!(session.steps(), &[first, second][..]);
}

#[test]
fn finish_attaches_the_final_screenshot_and_keeps_the_steps() {
    let mut session = RecordingSession::new();
    session.add_step(step());
    let session = session.finish(Some(screenshot(7)));
    assert_eq!(session.final_screenshot(), Some(&screenshot(7)));
    assert_eq!(session.step_count(), 1);
    assert_eq!(session.steps(), &[step()][..]);
}

#[test]
fn finishing_again_replaces_the_final_screenshot() {
    let session = RecordingSession::new().finish(Some(screenshot(1))).finish(None);
    assert!(session.final_screenshot().is_none());
    assert!(session.is_empty());
}

#[test]
fn default_session_is_empty() {
    let session = RecordingSession::default();
    assert_eq!(session, RecordingSession::new());
    assert!(session.is_empty());
    assert_eq!(session.step_count(), 0);
}

#[test]
fn empty_iff_no_steps_on_concrete_sessions() {
    let mut session = RecordingSession::new();
    assert_eq!(session.is_empty(), session.step_count() == 0);
    session.add_step(step());
    assert_eq!(session.is_empty(), session.step_count() == 0);
    session.add_step(step());
    session.add_step(step());
    assert_eq!(session.step_count(), 3);
    assert_eq!(session.is_empty(), session.step_count() == 0);
}

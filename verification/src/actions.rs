//! The vocabulary shared with a desktop actor: points, input actions,
//! screenshots and the options that ask an actor for one.
use vstd::prelude::*;

verus! {

/// A position on the screen, in pixels.
#[derive(Debug, Clone, Copy, PartialEq, Eq, Structural)]
pub struct Point {
    pub x: i32,
    pub y: i32,
}

impl Point {
    /// The point with the given coordinates.
    pub fn new(x: i32, y: i32) -> (p: Point)
        ensures
            p.x == x,
            p.y == y,
    {
        Point { x, y }
    }
}

/// A mouse button.
#[derive(Debug, Clone, Copy, PartialEq, Eq, Structural)]
pub enum MouseButton {
    Left,
    Right,
    Middle,
}

/// One user input performed on the desktop.
#[derive(Debug, Clone, Copy, PartialEq, Eq, Structural)]
pub enum Action {
    /// Moves the pointer to `to`.
    MouseMove { to: Point },
    /// Presses `button` at `at`.
    MouseDown { button: MouseButton, at: Point },
    /// Releases `button` at `at`.
    MouseUp { button: MouseButton, at: Point },
    /// Presses the key with the given platform key code.
    KeyDown { key_code: u32 },
    /// Releases the key with the given platform key code.
    KeyUp { key_code: u32 },
    /// Scrolls by (`dx`, `dy`) with the pointer at `at`.
    Scroll { at: Point, dx: i32, dy: i32 },
}

/// A rectangle of the screen, given by two opposite corners.
#[derive(Debug, Clone, Copy, PartialEq, Eq, Structural)]
pub struct ScreenRegion {
    pub top_left: Point,
    pub bottom_right: Point,
}

/// Constraints on a captured screenshot: resolution caps and the region to capture.
#[derive(Debug, Clone, Copy, PartialEq, Eq, Structural)]
pub struct ScreenshotParams {
    /// Upper bound on the longer edge of the image, in pixels.
    pub max_long_edge_px: Option<u32>,
    /// Upper bound on the number of pixels of the image.
    pub max_total_px: Option<u32>,
    /// The part of the screen to capture; the whole screen when `None`.
    pub region: Option<ScreenRegion>,
}

/// An encoded image of the screen.
#[derive(Debug, Clone, PartialEq, Eq)]
pub struct Screenshot {
    pub width: u32,
    pub height: u32,
    pub original_width: u32,
    pub original_height: u32,
    pub data: Vec<u8>,
    pub mime_type: String,
}

/// How an actor is asked to perform a batch of actions.
#[derive(Debug, Clone, Copy, PartialEq, Eq, Structural)]
pub struct Options {
    /// When `Some`, the actor captures a screenshot with these constraints
    /// after the actions.
    pub screenshot_params: Option<ScreenshotParams>,
}

/// What an actor reports after performing a batch of actions.
#[derive(Debug, Clone, PartialEq, Eq)]
pub struct ActionResult {
    pub screenshot: Option<Screenshot>,
    pub cursor_position: Option<Point>,
}

/// The options that ask an actor for a screenshot under `params` and nothing else.
pub open spec fn capture_options(params: ScreenshotParams) -> Options {
    Options { screenshot_params: Some(params) }
}

/// The options under which an actor performs actions without capturing anything.
pub open spec fn no_capture_options() -> Options {
    Options { screenshot_params: None }
}

} // verus!

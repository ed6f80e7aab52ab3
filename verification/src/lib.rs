//! Recording and replay of desktop actions, and the decisions of a
//! periodic screen watcher.
pub mod actions;
pub mod automation;
pub mod recording;
pub mod screen_watcher;
pub mod time_span;

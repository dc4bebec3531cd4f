//! A status-bar block that shows whether a time tracker is running and
//! toggles it on click.
//!
//! The block's decisions are verified: classifying the tracker's output with
//! two regular expressions, filling a `{name}` template from the captured
//! fields, and the state changes on each poll and click. Running the shell
//! commands is left to the caller, which hands their results in.

pub mod pattern;
pub mod classify;
pub mod template;
pub mod fields;
pub mod block;

pub use block::{SuperToggle, SuperToggleConfig, TimeWarrior, TimeWarriorConfig};

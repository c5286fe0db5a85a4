//! Event-correlation core of a desktop applet that watches a mount unit and
//! its automount unit: status classification, deduplicated state tracking,
//! job-completion correlation and the decisions of the command dispatcher.
pub mod dispatch;
pub mod jobs;
pub mod state;
pub mod tracker;

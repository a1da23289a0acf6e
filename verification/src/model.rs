//! The data that is tracked: projects and their timers.

pub mod project;
pub mod timer;

//! The reactive core of a small personal dashboard: a clock, the weather,
//! news headlines and a settings form, driven by one message loop.
//!
//! The host feeds messages to [`dashboard::Application::dispatch`] and runs
//! the tasks it hands back (load, save, fetch); their results come back as
//! further messages.

pub mod news;
pub mod state;
pub mod weather;
pub mod clock;
pub mod dashboard;
pub mod laws;

//! Coordination of a DV capture session: the description of the two-stage
//! process pipeline (capture tool piped into playback tool), the reduction of
//! what happened to it into an outcome, and the small amount of state a front
//! end keeps around one capture.
//!
//! Nothing here starts a process, opens a file or draws a window. A front end
//! performs those steps and reports back what happened; every decision is made
//! here and is stated in the contract of the function that makes it.

pub mod status;
pub mod command;
pub mod builder;
pub mod outcome;
pub mod runner;
pub mod text;
pub mod notice;
pub mod prefs;
pub mod session;

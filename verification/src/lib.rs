//! A configuration-driven HTTP job trigger, verified.
//!
//! The library holds the job-dispatch core: resolving a job name in the
//! configuration document, checking the caller's secret, planning the
//! commands a run executes, choosing the output sink, and building the
//! response texts. The surrounding process (the HTTP listener, subprocess
//! spawning, file writes) lives outside the library and only hands plain
//! values in and out.

pub mod confval;
pub mod jobs;
pub mod dispatch;
pub mod service;

//! Verified core of an external-tool runner.
//!
//! The runner spawns an external program, captures its standard-output and
//! standard-error streams line by line, folds the lines into one tagged
//! report, and maps the exit status to an outcome. Spawning, streaming and
//! waiting are I/O and live with the caller; everything the runner decides or
//! computes — the argument lists of the two supported operations, the report,
//! the exit-status description, and the outcome — is verified here.

pub mod args;
pub mod outcome;
pub mod report;
pub mod status;

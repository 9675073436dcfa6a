//! The terminal value of one invocation, and the runner's own failures.

use vstd::prelude::*;
use vstd::string::StringExecFns;
use crate::report::{OutputLine, build_report, report_of};
use crate::status::{describe_status, status_description};

verus! {

/// The terminal result of one invocation whose child ran to completion:
/// success carries the full tagged report; failure carries the identical
/// report together with a description of the nonzero exit status.
pub enum Outcome {
    Success { report: String },
    Failure { report: String, status: String },
}

/// A failure of the runner itself, distinct from a child that ran and exited
/// nonzero: no report is produced.
pub enum RunnerError {
    /// The program could not be spawned (missing executable, permission
    /// denied); the detail is the spawn error's text.
    Spawn { detail: String },
    /// The child's final exit status could not be obtained; the detail is
    /// the wait error's text.
    Wait { detail: String },
}

/// The message a spawn failure propagates to the caller.
pub open spec fn spawn_failure_message(detail: Seq<char>) -> Seq<char> {
    "Failed to spawn python process: "@ + detail
}

/// The message a wait failure propagates to the caller.
pub open spec fn wait_failure_message(detail: Seq<char>) -> Seq<char> {
    "Failed to wait for python process: "@ + detail
}

/// The message a nonzero exit propagates to the caller: the exit-status
/// description, a line break, and the full report.
pub open spec fn failure_message(status: Seq<char>, report: Seq<char>) -> Seq<char> {
    "Python process exited with error: "@ + status + "\n"@ + report
}

/// Fold the captured lines and the exit code into the one outcome of the
/// invocation: success exactly on exit code zero, carrying the full report;
/// failure on any other code, carrying the identical report and the
/// description of the exit status.
pub fn conclude(lines: &Vec<OutputLine>, code: i32) -> (outcome: Outcome)
    ensures
        code == 0 ==> (outcome matches Outcome::Success { report } && report@ == report_of(
            lines@,
        )),
        code != 0 ==> (outcome matches Outcome::Failure { report, status } && report@ == report_of(
            lines@,
        ) && status@ == status_description(code as int)),
{
    let report = build_report(lines);
    if code == 0 {
        Outcome::Success { report }
    } else {
        Outcome::Failure { report, status: describe_status(code) }
    }
}

/// The outcome as the caller-facing result: the report alone on success; on
/// failure one message holding the exit-status description and the report.
pub fn outcome_to_result(outcome: Outcome) -> (r: Result<String, String>)
    ensures
        (outcome matches Outcome::Success { report } ==> (r matches Ok(out) && out == report)),
        (outcome matches Outcome::Failure { report, status } ==> (r matches Err(msg) && msg@
            == failure_message(status@, report@))),
{
    match outcome {
        Outcome::Success { report } => Ok(report),
        Outcome::Failure { report, status } => {
            let mut msg = "Python process exited with error: ".to_owned();
            msg.append(status.as_str());
            msg.append("\n");
            msg.append(report.as_str());
            proof {
                assert(msg@ =~= failure_message(status@, report@));
            }
            Err(msg)
        },
    }
}

impl RunnerError {
    /// The message the runner failure propagates to the caller; unlike a
    /// nonzero-exit failure it carries no report.
    pub fn message(&self) -> (m: String)
        ensures
            (*self matches RunnerError::Spawn { detail } ==> m@ == spawn_failure_message(detail@)),
            (*self matches RunnerError::Wait { detail } ==> m@ == wait_failure_message(detail@)),
    {
        match self {
            RunnerError::Spawn { detail } => {
                let mut m = "Failed to spawn python process: ".to_owned();
                m.append(detail.as_str());
                m
            },
            RunnerError::Wait { detail } => {
                let mut m = "Failed to wait for python process: ".to_owned();
                m.append(detail.as_str());
                m
            },
        }
    }
}

} // verus!

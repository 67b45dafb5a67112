//! Deciding, from what a starting process has written so far, whether it is
//! ready, has failed, or must be waited for.

use vstd::prelude::*;

use crate::process::{Process, ERROR_MARKER};
use crate::text::{contains_marker, lemma_text_contains_inserted, text_contains};

verus! {

/// A process exited before it became ready.
#[derive(Debug, Clone)]
pub enum LaunchError {
    /// The process failed during launch.
    ProcessFailed {
        /// The process's name.
        process_name: String,
        /// The raw wait status that the operating system reported.
        exit_status: i32,
        /// Everything the process wrote to standard output.
        stdout: String,
        /// Everything the process wrote to standard error.
        stderr: String,
    },
}

/// The markers by which a launch attempt is judged.
#[derive(Debug, Clone)]
pub struct ReadinessCriteria {
    /// Text that shows the process is ready.
    pub success_marker: String,
    /// Text that shows the process hit a fatal startup error.
    pub error_marker: String,
    /// A log file, besides standard output, searched for the success marker.
    pub extra_log: Option<String>,
}

/// The verdict of one look at a starting process.
#[derive(Debug, Clone)]
pub enum Readiness {
    /// Nothing decisive yet: wait one polling interval and look again.
    Pending,
    /// The success marker appeared.
    Ready,
    /// The error marker appeared while the process still runs: the launch
    /// cannot go on, and the process may need to be stopped by hand.
    Aborted,
    /// The process exited before it became ready.
    Failed(LaunchError),
}

/// The verdict on a process that is still running, given its standard
/// output, its standard error, the extra log if there is one, and the two
/// markers.
pub open spec fn running_verdict(
    stdout: Seq<char>,
    stderr: Seq<char>,
    extra: Option<Seq<char>>,
    success: Seq<char>,
    error: Seq<char>,
) -> Readiness {
    if text_contains(stdout, error) || text_contains(stderr, error) {
        Readiness::Aborted
    } else if text_contains(stdout, success) {
        Readiness::Ready
    } else if extra is Some && text_contains(extra->0, success) {
        Readiness::Ready
    } else {
        Readiness::Pending
    }
}

/// The error for a process of kind `kind` that exited with `status` after
/// writing `stdout` and `stderr`.
pub open spec fn is_launch_failure(
    e: LaunchError,
    kind: Process,
    status: i32,
    stdout: Seq<char>,
    stderr: Seq<char>,
) -> bool {
    &&& e->ProcessFailed_process_name@ == kind.spec_name()
    &&& e->ProcessFailed_exit_status == status
    &&& e->ProcessFailed_stdout@ == stdout
    &&& e->ProcessFailed_stderr@ == stderr
}

/// A running process whose standard output holds the success marker, with
/// any text before and after it, is ready, unless the error marker stands
/// in one of its streams.
pub proof fn ready_once_success_written(
    before: Seq<char>,
    after: Seq<char>,
    stderr: Seq<char>,
    extra: Option<Seq<char>>,
    success: Seq<char>,
    error: Seq<char>,
)
    requires
        !text_contains(before + success + after, error),
        !text_contains(stderr, error),
    ensures
        running_verdict(before + success + after, stderr, extra, success, error)
            == Readiness::Ready,
{
    lemma_text_contains_inserted(before, success, after);
}

/// A running process whose standard output or standard error holds the
/// error marker is never waited for: the launch is aborted.
pub proof fn error_marker_aborts(
    stdout: Seq<char>,
    stderr: Seq<char>,
    extra: Option<Seq<char>>,
    success: Seq<char>,
    error: Seq<char>,
)
    requires
        text_contains(stdout, error) || text_contains(stderr, error),
    ensures
        running_verdict(stdout, stderr, extra, success, error) == Readiness::Aborted,
{
}

impl ReadinessCriteria {
    /// The markers of a process of kind `kind`.
    pub fn for_process(kind: Process) -> (r: ReadinessCriteria)
        ensures
            r.success_marker@ == kind.spec_success_marker(),
            r.error_marker@ == ERROR_MARKER@,
            kind == Process::Lightwalletd ==> r.extra_log is Some
                && r.extra_log->0@ == crate::process::LIGHTWALLETD_LOG@,
            kind != Process::Lightwalletd ==> r.extra_log is None,
    {
        let extra_log = match kind.extra_log() {
            Some(name) => Some(String::from_str(name)),
            None => None,
        };
        ReadinessCriteria {
            success_marker: String::from_str(kind.success_marker()),
            error_marker: String::from_str(kind.error_marker()),
            extra_log,
        }
    }
}

/// One look at a starting process of kind `kind`.
///
/// `exit_status` is the wait status if the process has exited; `stdout`,
/// `stderr` and `extra_log` hold everything written to those logs so far.
/// An exited process has failed, and the error carries both logs verbatim.
/// Otherwise the error marker in either stream aborts the launch, and the
/// success marker in standard output, or in the extra log, makes it ready.
pub fn poll_readiness(
    kind: Process,
    exit_status: Option<i32>,
    stdout: &str,
    stderr: &str,
    extra_log: Option<&str>,
    criteria: &ReadinessCriteria,
) -> (r: Readiness)
    ensures
        exit_status is Some ==> r is Failed && is_launch_failure(
            r->Failed_0,
            kind,
            exit_status->0,
            stdout@,
            stderr@,
        ),
        exit_status is None ==> r == running_verdict(
            stdout@,
            stderr@,
            match extra_log {
                Some(x) => Some(x@),
                None => None,
            },
            criteria.success_marker@,
            criteria.error_marker@,
        ),
{
    if let Some(status) = exit_status {
        return Readiness::Failed(
            LaunchError::ProcessFailed {
                process_name: String::from_str(kind.name()),
                exit_status: status,
                stdout: String::from_str(stdout),
                stderr: String::from_str(stderr),
            },
        );
    }
    let success = criteria.success_marker.as_str();
    let error = criteria.error_marker.as_str();
    if contains_marker(stdout, error) || contains_marker(stderr, error) {
        Readiness::Aborted
    } else if contains_marker(stdout, success) {
        Readiness::Ready
    } else {
        match extra_log {
            Some(log) => {
                if contains_marker(log, success) {
                    Readiness::Ready
                } else {
                    Readiness::Pending
                }
            },
            None => Readiness::Pending,
        }
    }
}

} // verus!

use vstd::prelude::*;

use crate::ResourceUse;
use crate::report::report_chars;
use crate::report::summarize;

verus! {

/// The two ways a timed run can fail. The child's own exit status is not
/// an error of this tool; these cover only the tool's own failures.
#[derive(Clone, Copy, Debug, PartialEq, Eq, Structural)]
pub enum TimeError {
    /// The named program could not be found or executed.
    LaunchFailure,
    /// Waiting for the child failed at the operating-system level.
    WaitFailure,
}

/// The diagnostic line for each failure.
pub open spec fn error_chars(e: TimeError) -> Seq<char> {
    match e {
        TimeError::LaunchFailure => "cannot launch the command"@,
        TimeError::WaitFailure => "cannot wait for the child process"@,
    }
}

impl TimeError {
    /// The diagnostic to print on the error stream for this failure.
    pub fn message(&self) -> (r: String)
        ensures
            r@ == error_chars(*self),
    {
        match self {
            TimeError::LaunchFailure => "cannot launch the command".to_owned(),
            TimeError::WaitFailure => "cannot wait for the child process".to_owned(),
        }
    }
}

/// The report owed for one run: the timing lines when the run completed,
/// and nothing at all when the run failed, so that a failed launch or wait
/// never prints a timing report.
pub fn outcome_report(outcome: &Result<ResourceUse, TimeError>) -> (r: Option<String>)
    ensures
        match outcome {
            Ok(resource_use) => r matches Some(text) && text@ == report_chars(
                resource_use.elapsed_millis() as int,
            ),
            Err(_) => r is None,
        },
{
    match outcome {
        Ok(resource_use) => Some(summarize(resource_use)),
        Err(_) => None,
    }
}

/// The exit status this tool should report for the child: the child's own
/// code when it exited normally, 128 plus the signal number when a signal
/// ended it, and 1 when the operating system reported neither.
pub open spec fn spec_exit_code(code: Option<i32>, signal: Option<i32>) -> int {
    match code {
        Some(c) => c as int,
        None => match signal {
            Some(s) => 128 + s,
            None => 1,
        },
    }
}

/// The exit status to use for the whole run, from what the operating
/// system reported of the child.
pub fn child_exit_code(code: Option<i32>, signal: Option<i32>) -> (r: i32)
    requires
        signal matches Some(s) ==> 0 <= s <= 127,
    ensures
        r as int == spec_exit_code(code, signal),
{
    match code {
        Some(c) => c,
        None => match signal {
            Some(s) => 128 + s,
            None => 1,
        },
    }
}

} // verus!

//! The interactive-mode detector and the aggregation of child outcomes:
//! a child's stderr is scanned for the signature with which the backend CLI
//! reports that it needed a real terminal, and the children's individual
//! endings are folded into one outcome for the whole batch.

use vstd::prelude::*;

use crate::text::{contains_seq, contains_str};

verus! {

/// A line of stderr carries the signature with which the backend CLI
/// reports that it needed a real terminal it did not have.
pub open spec fn signals_interactive_mode(line: Seq<char>) -> bool {
    contains_seq(line, "inappropriate ioctl for device"@)
}

/// The stderr signature of the backend CLI's refusal to run without a
/// terminal; a documented contract with the backend CLI binary.
pub fn interactive_mode_signature() -> (r: &'static str)
    ensures
        r@ == "inappropriate ioctl for device"@,
{
    "inappropriate ioctl for device"
}

/// Returns whether this stderr line carries the interactive-mode signature.
pub fn line_signals_interactive_mode(line: &String) -> (r: bool)
    ensures
        r == signals_interactive_mode(line@),
{
    contains_str(line.as_str(), interactive_mode_signature())
}

/// Scans one child's stderr lines in order and returns the position of the
/// first line carrying the signature, or nothing when no line does.
pub fn scan_stderr_lines(lines: &Vec<String>) -> (r: Option<usize>)
    ensures
        (match r {
            Some(i) => {
                &&& i < lines@.len()
                &&& signals_interactive_mode(lines@[i as int]@)
                &&& forall|k: int| 0 <= k < i ==> !signals_interactive_mode(lines@[k]@)
            },
            None => forall|k: int| 0 <= k < lines@.len() ==> !signals_interactive_mode(
                lines@[k]@,
            ),
        }),
{
    let mut i: usize = 0;
    while i < lines.len()
        invariant
            i <= lines@.len(),
            forall|k: int| 0 <= k < i ==> !signals_interactive_mode(lines@[k]@),
        decreases lines@.len() - i,
    {
        if line_signals_interactive_mode(&lines[i]) {
            return Some(i);
        }
        i = i + 1;
    }
    None
}

/// How one child process ended.
#[derive(Debug, Clone, Copy, PartialEq, Eq, Structural)]
pub enum ChildOutcome {
    /// The child exited successfully.
    Success,
    /// The child exited with a failure, with no signature on its stderr.
    Failure,
    /// The child's stderr carried the interactive-mode signature.
    InteractiveModeRequired,
}

/// The outcome of one whole batch.
#[derive(Debug, Clone, Copy, PartialEq, Eq, Structural)]
pub enum BatchOutcome {
    /// Every child succeeded.
    Success,
    /// Some child failed, and none asked for a terminal.
    ChildFailed,
    /// Some child asked for a terminal; the batch should be retried
    /// sequentially.
    InteractiveModeRequired,
}

/// How one child's ending is classified: the signature on its stderr
/// outranks its exit status.
pub open spec fn spec_child_outcome(exit_success: bool, stderr_signalled: bool) -> ChildOutcome {
    if stderr_signalled {
        ChildOutcome::InteractiveModeRequired
    } else if exit_success {
        ChildOutcome::Success
    } else {
        ChildOutcome::Failure
    }
}

/// Classifies one child's ending from its exit status and whether its
/// stderr carried the signature.
pub fn child_outcome(exit_success: bool, stderr_signalled: bool) -> (r: ChildOutcome)
    ensures
        r == spec_child_outcome(exit_success, stderr_signalled),
{
    if stderr_signalled {
        ChildOutcome::InteractiveModeRequired
    } else if exit_success {
        ChildOutcome::Success
    } else {
        ChildOutcome::Failure
    }
}

/// How a batch ends: any child that asked for a terminal makes the whole
/// batch ask for one; otherwise any failed child fails the batch; otherwise
/// the batch succeeded.
pub open spec fn spec_aggregate(outcomes: Seq<ChildOutcome>) -> BatchOutcome {
    if exists|i: int| 0 <= i < outcomes.len() && outcomes[i] is InteractiveModeRequired {
        BatchOutcome::InteractiveModeRequired
    } else if exists|i: int| 0 <= i < outcomes.len() && outcomes[i] is Failure {
        BatchOutcome::ChildFailed
    } else {
        BatchOutcome::Success
    }
}

/// Folds all children's endings into the batch outcome, once every child
/// has finished.
pub fn aggregate_outcomes(outcomes: &Vec<ChildOutcome>) -> (r: BatchOutcome)
    ensures
        r == spec_aggregate(outcomes@),
{
    let mut any_interactive = false;
    let mut any_failure = false;
    let mut i: usize = 0;
    while i < outcomes.len()
        invariant
            i <= outcomes@.len(),
            any_interactive == (exists|k: int|
                0 <= k < i && outcomes@[k] is InteractiveModeRequired),
            any_failure == (exists|k: int| 0 <= k < i && outcomes@[k] is Failure),
        decreases outcomes@.len() - i,
    {
        match outcomes[i] {
            ChildOutcome::InteractiveModeRequired => {
                any_interactive = true;
            },
            ChildOutcome::Failure => {
                any_failure = true;
            },
            ChildOutcome::Success => {},
        }
        i = i + 1;
    }
    if any_interactive {
        BatchOutcome::InteractiveModeRequired
    } else if any_failure {
        BatchOutcome::ChildFailed
    } else {
        BatchOutcome::Success
    }
}

/// Whether the caller must run the whole batch once more, sequentially: only
/// when the batch asked for a terminal, and only if no sequential retry has
/// happened yet — the fallback runs at most once per invocation.
pub fn should_retry_sequentially(outcome: &BatchOutcome, already_retried: bool) -> (r: bool)
    ensures
        r == (outcome is InteractiveModeRequired && !already_retried),
{
    match outcome {
        BatchOutcome::InteractiveModeRequired => !already_retried,
        _ => false,
    }
}

} // verus!

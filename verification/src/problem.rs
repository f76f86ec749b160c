//! The slice of a problem the judging pipeline reads: its ordered task
//! definitions. Everything else about a problem lives with the problem
//! collaborator.

use vstd::prelude::*;

verus! {

/// One task of a problem: a group of test cases sharing a score weight
/// and resource limits.
#[derive(Debug, Clone, Copy, PartialEq, Eq, Structural)]
pub struct Task {
    /// How many test cases the task has.
    pub test_case_count: i32,
    /// The score the task is worth when every one of its cases is
    /// accepted.
    pub score: i32,
    /// Per-case time limit, in milliseconds.
    pub time_limit: i32,
    /// Per-case memory limit, in kilobytes.
    pub memory_limit: i32,
}

/// A well-formed task: its case count and score weight are non-negative.
pub open spec fn task_wf(t: Task) -> bool {
    t.test_case_count >= 0 && t.score >= 0
}

/// A well-formed task list: every task in it is well-formed.
pub open spec fn tasks_wf(ts: Seq<Task>) -> bool {
    forall|i: int| 0 <= i < ts.len() ==> task_wf(#[trigger] ts[i])
}

} // verus!

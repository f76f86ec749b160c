//! The response shapes a graded submission is reported through, and the
//! pure construction of each from the records themselves.

use vstd::prelude::*;
use vstd::string::*;

use crate::aggregate::{all_accepted, fold_best, fold_status, scan_row};
use crate::lang::language_code;
use crate::problem::Task;
use crate::status::{spec_status_priority, status_code, status_str_to_i32};
use crate::submission::{JudgeResult, Model};
use crate::users::UserInfoResponse;

verus! {

/// A response on its way out: the payload with room for the envelope
/// the transport layer adds.
#[derive(Debug)]
pub struct NojResponseBuilder<T> {
    pub data: T,
}

impl<T> NojResponseBuilder<T> {
    /// Wraps a finished payload.
    pub fn new(data: T) -> (r: Self)
        ensures
            r.data == data,
    {
        NojResponseBuilder { data }
    }

    /// Hands the payload back out.
    pub fn done(self) -> (r: T)
        ensures
            r == self.data,
    {
        self.data
    }
}

/// One row of a submission listing.
#[derive(Debug)]
pub struct SubmissionListResponseItem {
    pub submission_id: i32,
    pub user: UserInfoResponse,
    pub problem_id: i32,
    pub timestamp: i64,
    pub score: i32,
    pub exec_time: i32,
    pub memory_usage: i32,
    pub code: String,
    pub last_send: i64,
    pub status: i32,
    pub language: i32,
}

/// A page of a submission listing.
#[derive(Debug)]
pub struct SubmissionListResponse {
    pub submissions: Vec<SubmissionListResponseItem>,
    pub submission_count: i32,
}

/// Whether one listing row reports exactly one submission and its user.
pub open spec fn item_reports(
    it: SubmissionListResponseItem,
    p: Model,
    u: UserInfoResponse,
) -> bool {
    &&& it.submission_id == p.id
    &&& it.problem_id == p.problem_id
    &&& it.timestamp == p.timestamp
    &&& it.score == p.score
    &&& it.exec_time == p.exec_time
    &&& it.memory_usage == p.memory_usage
    &&& it.code@ == p.code@
    &&& it.last_send == p.last_send
    &&& it.status == status_code(p.status)
    &&& it.language == language_code(p.language)
    &&& it.user == u
}

impl SubmissionListResponse {
    /// Builds the listing page: submissions and their users are paired
    /// off in order, and each pair becomes one row.
    #[must_use]
    pub fn new(submissions: &Vec<Model>, users: &Vec<UserInfoResponse>) -> (r: NojResponseBuilder<
        SubmissionListResponse,
    >)
        ensures
            r.data.submissions@.len() == if submissions@.len() <= users@.len() {
                submissions@.len() as int
            } else {
                users@.len() as int
            },
            forall|k: int| 0 <= k < r.data.submissions@.len() ==> item_reports(
                #[trigger] r.data.submissions@[k],
                submissions@[k],
                users@[k],
            ),
            r.data.submission_count == 123,
    {
        let n: usize = if submissions.len() <= users.len() {
            submissions.len()
        } else {
            users.len()
        };
        let mut items: Vec<SubmissionListResponseItem> = Vec::new();
        let mut k: usize = 0;
        while k < n
            invariant
                k <= n,
                n <= submissions@.len(),
                n <= users@.len(),
                items@.len() == k,
                forall|q: int| 0 <= q < k ==> item_reports(
                    #[trigger] items@[q],
                    submissions@[q],
                    users@[q],
                ),
            decreases n - k,
        {
            let p = &submissions[k];
            let u = &users[k];
            items.push(
                SubmissionListResponseItem {
                    submission_id: p.id,
                    problem_id: p.problem_id,
                    timestamp: p.timestamp,
                    score: p.score,
                    exec_time: p.exec_time,
                    status: i32::from(p.status),
                    language: i32::from(p.language),
                    last_send: p.last_send,
                    memory_usage: p.memory_usage,
                    code: p.code.clone(),
                    user: u.clone(),
                },
            );
            k = k + 1;
        }
        NojResponseBuilder::new(
            SubmissionListResponse { submissions: items, submission_count: 123 },
        )
    }
}

/// One case of a submission's detail view.
#[derive(Debug)]
pub struct SubmissionCaseResponse {
    pub exec_time: i32,
    pub memory_usage: i32,
    pub status: i32,
}

/// One task of a submission's detail view: its cases, and the task's
/// own aggregate figures under the judge's "minimum wins" policy.
#[derive(Debug)]
pub struct SubmissionTaskResponse {
    pub cases: Vec<SubmissionCaseResponse>,
    pub exec_time: i32,
    pub memory_usage: i32,
    pub score: i32,
    pub status: i32,
}

/// Whether one case row reports exactly one per-case result.
pub open spec fn case_reports(c: SubmissionCaseResponse, t: JudgeResult) -> bool {
    &&& c.exec_time == t.duration
    &&& c.memory_usage == t.mem_usage
    &&& c.status == spec_status_priority(t.status@)
}

impl SubmissionTaskResponse {
    /// Builds one task's slice of the detail view: every case mapped to
    /// its row, the task's weight where every case is accepted, and the
    /// task-local best-case figures and minimum status priority.
    #[must_use]
    pub fn new(task: &Task, results: &Vec<JudgeResult>) -> (r: SubmissionTaskResponse)
        ensures
            r.cases@.len() == results@.len(),
            forall|k: int| 0 <= k < results@.len() ==> case_reports(
                #[trigger] r.cases@[k],
                results@[k],
            ),
            r.score == if all_accepted(results@) {
                task.score as int
            } else {
                0
            },
            (r.exec_time as int, r.memory_usage as int) == fold_best(
                results@,
                i32::MAX as int,
                i32::MAX as int,
            ),
            r.status as int == fold_status(results@, -2),
    {
        let score = if crate::aggregate::row_all_accepted(results) {
            task.score
        } else {
            0
        };
        let mut cases: Vec<SubmissionCaseResponse> = Vec::new();
        let mut k: usize = 0;
        while k < results.len()
            invariant
                k <= results@.len(),
                cases@.len() == k,
                forall|q: int| 0 <= q < k ==> case_reports(#[trigger] cases@[q], results@[q]),
            decreases results@.len() - k,
        {
            let t = &results[k];
            cases.push(
                SubmissionCaseResponse {
                    memory_usage: t.mem_usage,
                    exec_time: t.duration,
                    status: status_str_to_i32(t.status.as_str()),
                },
            );
            k = k + 1;
        }
        let (exec_time, memory_usage, status) = scan_row(results, i32::MAX, i32::MAX, -2);
        SubmissionTaskResponse { cases, exec_time, memory_usage, score, status }
    }
}

} // verus!

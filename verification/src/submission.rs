//! The submission record and the pure parts of its lifecycle: attaching
//! code, selecting submissions for a listing, and writing a finished
//! grading result back into the record.

use vstd::prelude::*;

use crate::aggregate::{fold_status, rows_view, spec_total_score, spec_zipped_cases, Aggregate};
use crate::error::Error;
use crate::lang::{spec_language_from_code, Language};
use crate::problem::{tasks_wf, Task};
use crate::status::{spec_status_from_code, status_code, SubmissionStatus};

verus! {

/// The grading outcome of one test case.
#[derive(Debug)]
pub struct JudgeResult {
    /// The per-case status token: `AC`, `WA`, `CE`, `TLE`, `MLE`, `RE`,
    /// `JE` or `OLE`.
    pub status: String,
    /// How long the case ran, in milliseconds; `-1` where the sandbox
    /// itself failed.
    pub duration: i32,
    /// Peak memory of the case, in kilobytes; `-1` where the sandbox
    /// itself failed.
    pub mem_usage: i32,
    /// The program's captured standard output.
    pub stdout: String,
    /// The program's captured standard error.
    pub stderr: String,
    /// Index of the task the case belongs to.
    pub task_id: i32,
    /// Index of the case within its task.
    pub case_id: i32,
}

impl Clone for JudgeResult {
    fn clone(&self) -> (res: Self)
        ensures
            res == *self,
    {
        JudgeResult {
            status: self.status.clone(),
            duration: self.duration,
            mem_usage: self.mem_usage,
            stdout: self.stdout.clone(),
            stderr: self.stderr.clone(),
            task_id: self.task_id,
            case_id: self.case_id,
        }
    }
}

/// A submission record, with timestamps carried as Unix seconds.
#[derive(Debug)]
pub struct Model {
    pub created_at: i64,
    pub updated_at: i64,
    pub id: i32,
    pub user_id: i32,
    pub problem_id: i32,
    pub timestamp: i64,
    pub score: i32,
    pub exec_time: i32,
    pub memory_usage: i32,
    pub code: String,
    pub last_send: i64,
    pub status: SubmissionStatus,
    pub language: Language,
    pub tasks: Option<Vec<Vec<JudgeResult>>>,
}

/// What a new submission is created from.
#[derive(Debug)]
pub struct AddParams {
    pub user: i32,
    pub problem: i32,
    pub timestamp: i64,
    pub language: Language,
}

/// The filters and paging of a submission listing.
#[derive(Debug)]
pub struct ListParams {
    pub offset: Option<usize>,
    pub count: Option<usize>,
    pub problem: Option<i32>,
    pub user: Option<i32>,
    pub status: Option<SubmissionStatus>,
    pub language: Option<Language>,
    pub course: Option<String>,
}

/// The body of a submission-creation request.
#[derive(Debug)]
pub struct CreateSubmissionRequest {
    pub problem_id: i32,
    pub language: i32,
}

/// The query of a submission-listing request, with statuses and
/// languages still as numeric codes.
#[derive(Debug)]
pub struct ListSubmissionRequest {
    pub offset: Option<usize>,
    pub count: Option<usize>,
    pub problem: Option<i32>,
    pub user: Option<i32>,
    pub status: Option<i32>,
    pub language: Option<i32>,
    pub course: Option<String>,
}

/// The body of a code-upload request.
#[derive(Debug)]
pub struct UpdateSubmissionRequest {
    pub code: String,
}

/// The argument handed to one grading run.
#[derive(Debug, Clone, Copy, PartialEq, Eq, Structural)]
pub struct SubmissionWorkerArgs {
    /// Identity of the submission this run grades.
    pub submission_id: i32,
}

/// What a creation request means once the requesting user and the
/// current time are known. The request's language code must be valid;
/// an invalid code is rejected before this point.
pub fn add_params_from_request(req: &CreateSubmissionRequest, user_id: i32, timestamp: i64) -> (r:
    AddParams)
    requires
        spec_language_from_code(req.language as int) is Ok,
    ensures
        r.user == user_id,
        r.problem == req.problem_id,
        r.timestamp == timestamp,
        Ok::<Language, Error>(r.language) == spec_language_from_code(req.language as int),
{
    let language = match Language::try_from(req.language) {
        Ok(l) => l,
        Err(_) => Language::C,
    };
    AddParams { user: user_id, problem: req.problem_id, timestamp, language }
}

/// What a listing request means once its numeric codes are read. Codes
/// present in the request must be valid; invalid ones are rejected
/// before this point.
pub fn list_params_from_request(req: &ListSubmissionRequest) -> (r: ListParams)
    requires
        req.status is Some ==> spec_status_from_code(req.status->0 as int) is Ok,
        req.language is Some ==> spec_language_from_code(req.language->0 as int) is Ok,
    ensures
        r.offset == req.offset,
        r.count == req.count,
        r.problem == req.problem,
        r.user == req.user,
        r.status is Some <==> req.status is Some,
        r.status is Some ==> Ok::<SubmissionStatus, Error>(r.status->0) == spec_status_from_code(
            req.status->0 as int,
        ),
        r.language is Some <==> req.language is Some,
        r.language is Some ==> Ok::<Language, Error>(r.language->0) == spec_language_from_code(
            req.language->0 as int,
        ),
        r.course is Some <==> req.course is Some,
        r.course is Some ==> r.course->0@ == req.course->0@,
{
    let status = match req.status {
        Some(code) => match SubmissionStatus::try_from(code) {
            Ok(s) => Some(s),
            Err(_) => None,
        },
        None => None,
    };
    let language = match req.language {
        Some(code) => match Language::try_from(code) {
            Ok(l) => Some(l),
            Err(_) => None,
        },
        None => None,
    };
    let course = match &req.course {
        Some(c) => Some(c.clone()),
        None => None,
    };
    ListParams {
        offset: req.offset,
        count: req.count,
        problem: req.problem,
        user: req.user,
        status,
        language,
        course,
    }
}

/// Whether a submission satisfies every filter of a listing. The course
/// filter plays no part in the selection.
pub open spec fn matches_list_params(m: Model, p: ListParams) -> bool {
    &&& (p.problem is Some ==> m.problem_id == p.problem->0)
    &&& (p.user is Some ==> m.user_id == p.user->0)
    &&& (p.status is Some ==> m.status == p.status->0)
    &&& (p.language is Some ==> m.language == p.language->0)
}

/// The submissions of a sequence that satisfy a listing's filters, in
/// their original order.
pub open spec fn spec_filtered(s: Seq<Model>, p: ListParams) -> Seq<Model>
    decreases s.len(),
{
    if s.len() == 0 {
        s
    } else {
        let prev = spec_filtered(s.drop_last(), p);
        if matches_list_params(s.last(), p) {
            prev.push(s.last())
        } else {
            prev
        }
    }
}

/// What a listing returns: the matching submissions, then the paging
/// window applied — `offset` entries skipped (default none) and at most
/// `count` entries kept (default all).
pub open spec fn spec_list_selection(s: Seq<Model>, p: ListParams) -> Seq<Model> {
    let f = spec_filtered(s, p);
    let o = if p.offset is Some {
        p.offset->0 as int
    } else {
        0
    };
    let o2 = if o <= f.len() {
        o
    } else {
        f.len() as int
    };
    let rest = f.skip(o2);
    let c = if p.count is Some {
        p.count->0 as int
    } else {
        rest.len() as int
    };
    let c2 = if c <= rest.len() {
        c
    } else {
        rest.len() as int
    };
    rest.take(c2)
}

fn matches_filters(m: &Model, p: &ListParams) -> (r: bool)
    ensures
        r == matches_list_params(*m, *p),
{
    if let Some(problem) = p.problem {
        if m.problem_id != problem {
            return false;
        }
    }
    if let Some(user) = p.user {
        if m.user_id != user {
            return false;
        }
    }
    if let Some(status) = p.status {
        if m.status != status {
            return false;
        }
    }
    if let Some(language) = p.language {
        if m.language != language {
            return false;
        }
    }
    true
}

/// Selects and pages the submissions a listing returns.
pub fn list_selection(subs: Vec<Model>, params: &ListParams) -> (r: Vec<Model>)
    ensures
        r@ == spec_list_selection(subs@, *params),
{
    let ghost orig = subs@;
    let mut rest = subs;
    let mut kept: Vec<Model> = Vec::new();
    let ghost mut i: int = 0;
    while rest.len() > 0
        invariant
            0 <= i <= orig.len(),
            rest@ == orig.skip(i),
            kept@ == spec_filtered(orig.take(i), *params),
        decreases rest@.len(),
    {
        let m = rest.remove(0);
        proof {
            assert(orig.skip(i)[0] == orig[i]);
            assert(orig.skip(i).remove(0) =~= orig.skip(i + 1));
            assert(orig.take(i + 1).drop_last() =~= orig.take(i));
            assert(orig.take(i + 1).last() == orig[i]);
        }
        if matches_filters(&m, params) {
            kept.push(m);
        }
        proof {
            i = i + 1;
        }
    }
    proof {
        assert(orig.take(orig.len() as int) =~= orig);
    }
    let ghost filtered = spec_filtered(orig, *params);
    let offset: usize = match params.offset {
        Some(o) => o,
        None => 0,
    };
    let mut skipped: usize = 0;
    while skipped < offset && kept.len() > 0
        invariant
            kept@ == filtered.skip(
                if skipped <= filtered.len() {
                    skipped as int
                } else {
                    filtered.len() as int
                },
            ),
            skipped <= offset,
        decreases offset - skipped,
    {
        kept.remove(0);
        proof {
            assert(filtered.skip(skipped as int).remove(0) =~= filtered.skip(skipped + 1));
        }
        skipped = skipped + 1;
    }
    proof {
        if skipped < offset {
            assert(filtered.skip(filtered.len() as int) =~= Seq::<Model>::empty());
            assert(kept@ =~= filtered.skip(
                if offset <= filtered.len() {
                    offset as int
                } else {
                    filtered.len() as int
                },
            ));
        }
    }
    if let Some(count) = params.count {
        if count < kept.len() {
            kept.truncate(count);
            proof {
                assert(kept@ =~= spec_list_selection(orig, *params));
            }
        } else {
            proof {
                assert(kept@ =~= spec_list_selection(orig, *params));
            }
        }
    } else {
        proof {
            assert(kept@ =~= spec_list_selection(orig, *params));
        }
    }
    kept
}

impl Model {
    /// Attaches uploaded source code to the record; every other field
    /// stays as it was.
    pub fn update_code(self, code: String) -> (r: Model)
        ensures
            r.code == code,
            r == (Model { code: r.code, ..self }),
    {
        Model { code, ..self }
    }

    /// Writes one finished grading run into the record: the full result
    /// matrix replaces any older one, and score, status and the timing
    /// figures are derived from it afresh.
    ///
    /// The task list must be well-formed, the total weight must fit the
    /// score field, and at least one case must carry a known status
    /// token.
    pub fn update_sandbox_result(self, tasks: &Vec<Task>, results: Vec<Vec<JudgeResult>>) -> (r:
        Model)
        requires
            tasks_wf(tasks@),
            spec_total_score(tasks@, rows_view(results@)) <= i32::MAX,
            fold_status(spec_zipped_cases(tasks@, rows_view(results@)), -2) >= 0,
        ensures
            r.score == spec_total_score(tasks@, rows_view(results@)),
            (r.exec_time as int, r.memory_usage as int) == crate::aggregate::fold_best(
                spec_zipped_cases(tasks@, rows_view(results@)),
                i32::MAX as int,
                i32::MAX as int,
            ),
            status_code(r.status) == fold_status(
                spec_zipped_cases(tasks@, rows_view(results@)),
                -2,
            ),
            r.tasks == Some(results),
            r == (Model {
                score: r.score,
                exec_time: r.exec_time,
                memory_usage: r.memory_usage,
                status: r.status,
                tasks: r.tasks,
                ..self
            }),
    {
        let agg: Aggregate = crate::aggregate::aggregate_results(tasks, &results);
        proof {
            crate::aggregate::lemma_fold_status_range(
                spec_zipped_cases(tasks@, rows_view(results@)),
                -2,
            );
        }
        let status = match SubmissionStatus::try_from(agg.status) {
            Ok(s) => s,
            Err(_) => SubmissionStatus::Pending,
        };
        Model {
            score: agg.score,
            exec_time: agg.exec_time,
            memory_usage: agg.memory_usage,
            status,
            tasks: Some(results),
            ..self
        }
    }
}

} // verus!

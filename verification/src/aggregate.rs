//! The result aggregator: a pure reducer turning the matrix of per-case
//! results into an overall score, status, duration and memory figure.
//!
//! Score: a task contributes its full weight when every one of its
//! cases is accepted, else nothing. Status, duration and memory follow
//! the judge's "minimum wins" policy: every case of the zipped matrix is
//! scanned, and the figures kept are those of the case with the
//! smallest duration (memory breaking ties), while the overall status
//! is the numerically smallest known status priority seen anywhere.
//! A single accepted case therefore dominates the overall status even
//! when other cases failed; that policy is preserved here exactly.

use vstd::prelude::*;
use vstd::string::*;

use crate::problem::Task;
use crate::status::spec_status_priority;
use crate::status::status_str_to_i32;
use crate::submission::JudgeResult;

verus! {

/// The matrix a `Vec<Vec<JudgeResult>>` stands for.
pub open spec fn rows_view(m: Seq<Vec<JudgeResult>>) -> Seq<Seq<JudgeResult>> {
    m.map_values(|row: Vec<JudgeResult>| row@)
}

/// Whether every case of a row carries the `AC` token.
pub open spec fn all_accepted(row: Seq<JudgeResult>) -> bool {
    forall|i: int| 0 <= i < row.len() ==> (#[trigger] row[i].status)@ == "AC"@
}

/// How many task/result pairs the aggregator walks: tasks and result
/// rows are zipped, so the shorter list decides.
pub open spec fn zipped_len(tasks: Seq<Task>, rows: Seq<Seq<JudgeResult>>) -> int {
    if tasks.len() <= rows.len() {
        tasks.len() as int
    } else {
        rows.len() as int
    }
}

/// The score collected over the first `k` zipped task/result pairs.
pub open spec fn score_upto(tasks: Seq<Task>, rows: Seq<Seq<JudgeResult>>, k: int) -> int
    decreases k,
{
    if k <= 0 {
        0
    } else {
        score_upto(tasks, rows, k - 1) + if all_accepted(rows[k - 1]) {
            tasks[k - 1].score as int
        } else {
            0
        }
    }
}

/// The overall score: the sum of the weights of the fully accepted
/// tasks.
pub open spec fn spec_total_score(tasks: Seq<Task>, rows: Seq<Seq<JudgeResult>>) -> int {
    score_upto(tasks, rows, zipped_len(tasks, rows))
}

/// The first `k` result rows of the zipped matrix, flattened in order.
pub open spec fn flat_upto(rows: Seq<Seq<JudgeResult>>, k: int) -> Seq<JudgeResult>
    decreases k,
{
    if k <= 0 {
        Seq::<JudgeResult>::empty()
    } else {
        flat_upto(rows, k - 1) + rows[k - 1]
    }
}

/// Every case the aggregator scans, in scan order.
pub open spec fn spec_zipped_cases(tasks: Seq<Task>, rows: Seq<Seq<JudgeResult>>) -> Seq<
    JudgeResult,
> {
    flat_upto(rows, zipped_len(tasks, rows))
}

/// Whether a case beats the best pair seen so far: it is faster, or as
/// fast with less memory.
pub open spec fn better_case(d: int, m: int, best_d: int, best_m: int) -> bool {
    d < best_d || (d == best_d && m < best_m)
}

/// The (duration, memory) pair left after scanning a case sequence,
/// starting from a given pair and replacing it whenever a case beats it.
pub open spec fn fold_best(cases: Seq<JudgeResult>, best_d: int, best_m: int) -> (int, int)
    decreases cases.len(),
{
    if cases.len() == 0 {
        (best_d, best_m)
    } else {
        let p = fold_best(cases.drop_last(), best_d, best_m);
        let c = cases.last();
        if better_case(c.duration as int, c.mem_usage as int, p.0, p.1) {
            (c.duration as int, c.mem_usage as int)
        } else {
            p
        }
    }
}

/// The status priority left after scanning a case sequence: the smallest
/// known (non-negative) priority seen, or the start value where none was.
pub open spec fn fold_status(cases: Seq<JudgeResult>, st: int) -> int
    decreases cases.len(),
{
    if cases.len() == 0 {
        st
    } else {
        let p = fold_status(cases.drop_last(), st);
        let q = spec_status_priority(cases.last().status@);
        if q < 0 {
            p
        } else if p < 0 || q < p {
            q
        } else {
            p
        }
    }
}

/// Scanning a concatenation is scanning the two parts in turn.
pub proof fn lemma_fold_best_concat(a: Seq<JudgeResult>, b: Seq<JudgeResult>, d: int, m: int)
    ensures
        fold_best(a + b, d, m) == fold_best(b, fold_best(a, d, m).0, fold_best(a, d, m).1),
    decreases b.len(),
{
    if b.len() == 0 {
        assert(a + b =~= a);
    } else {
        lemma_fold_best_concat(a, b.drop_last(), d, m);
        assert((a + b).drop_last() =~= a + b.drop_last());
        assert((a + b).last() == b.last());
    }
}

/// Scanning a concatenation is scanning the two parts in turn.
pub proof fn lemma_fold_status_concat(a: Seq<JudgeResult>, b: Seq<JudgeResult>, st: int)
    ensures
        fold_status(a + b, st) == fold_status(b, fold_status(a, st)),
    decreases b.len(),
{
    if b.len() == 0 {
        assert(a + b =~= a);
    } else {
        lemma_fold_status_concat(a, b.drop_last(), st);
        assert((a + b).drop_last() =~= a + b.drop_last());
        assert((a + b).last() == b.last());
    }
}

/// The status scan never leaves `{-2} ∪ [0, 7]`.
pub proof fn lemma_fold_status_range(cases: Seq<JudgeResult>, st: int)
    requires
        st == -2 || 0 <= st <= 7,
    ensures
        fold_status(cases, st) == -2 || 0 <= fold_status(cases, st) <= 7,
    decreases cases.len(),
{
    if cases.len() > 0 {
        lemma_fold_status_range(cases.drop_last(), st);
    }
}

/// Partial scores stay between zero and the total.
pub proof fn lemma_score_upto_bounds(tasks: Seq<Task>, rows: Seq<Seq<JudgeResult>>, i: int, k: int)
    requires
        crate::problem::tasks_wf(tasks),
        0 <= i <= k <= zipped_len(tasks, rows),
    ensures
        0 <= score_upto(tasks, rows, i) <= score_upto(tasks, rows, k),
    decreases k,
{
    if k > 0 {
        if i == k {
            lemma_score_upto_bounds(tasks, rows, 0, k - 1);
        } else {
            lemma_score_upto_bounds(tasks, rows, i, k - 1);
        }
    }
}

/// The overall figures of one grading run.
#[derive(Debug, Clone, Copy, PartialEq, Eq, Structural)]
pub struct Aggregate {
    /// The numerically smallest known status priority of any scanned
    /// case; `-2` where no case carried a known token.
    pub status: i32,
    /// The summed weights of the fully accepted tasks.
    pub score: i32,
    /// Duration of the best-performing case, in milliseconds.
    pub exec_time: i32,
    /// Memory figure of that same case, in kilobytes.
    pub memory_usage: i32,
}

pub(crate) fn scan_row(cases: &Vec<JudgeResult>, d0: i32, m0: i32, s0: i32) -> (r: (i32, i32, i32))
    ensures
        (r.0 as int, r.1 as int) == fold_best(cases@, d0 as int, m0 as int),
        r.2 as int == fold_status(cases@, s0 as int),
{
    let mut best_d = d0;
    let mut best_m = m0;
    let mut st = s0;
    let mut j: usize = 0;
    while j < cases.len()
        invariant
            j <= cases@.len(),
            (best_d as int, best_m as int) == fold_best(cases@.take(j as int), d0 as int, m0 as int),
            st as int == fold_status(cases@.take(j as int), s0 as int),
        decreases cases@.len() - j,
    {
        let c = &cases[j];
        proof {
            assert(cases@.take(j + 1).drop_last() =~= cases@.take(j as int));
            assert(cases@.take(j + 1).last() == cases@[j as int]);
        }
        if c.duration < best_d || (c.duration == best_d && c.mem_usage < best_m) {
            best_d = c.duration;
            best_m = c.mem_usage;
        }
        let q = status_str_to_i32(c.status.as_str());
        if q >= 0 && (st < 0 || q < st) {
            st = q;
        }
        j = j + 1;
    }
    proof {
        assert(cases@.take(cases@.len() as int) =~= cases@);
    }
    (best_d, best_m, st)
}

/// Reduces the matrix of per-case results to the run's overall figures:
/// the summed weights of the fully accepted tasks, and — under the
/// "minimum wins" policy — the figures of the fastest case and the
/// smallest known status priority across every scanned case.
pub fn aggregate_results(tasks: &Vec<Task>, results: &Vec<Vec<JudgeResult>>) -> (r: Aggregate)
    requires
        crate::problem::tasks_wf(tasks@),
        spec_total_score(tasks@, rows_view(results@)) <= i32::MAX,
    ensures
        r.score as int == spec_total_score(tasks@, rows_view(results@)),
        (r.exec_time as int, r.memory_usage as int) == fold_best(
            spec_zipped_cases(tasks@, rows_view(results@)),
            i32::MAX as int,
            i32::MAX as int,
        ),
        r.status as int == fold_status(spec_zipped_cases(tasks@, rows_view(results@)), -2),
{
    let ghost rows = rows_view(results@);
    let ghost n = zipped_len(tasks@, rows);
    let limit: usize = if tasks.len() <= results.len() {
        tasks.len()
    } else {
        results.len()
    };
    let mut score: i32 = 0;
    let mut exec_time: i32 = i32::MAX;
    let mut memory_usage: i32 = i32::MAX;
    let mut status: i32 = -2;
    let mut i: usize = 0;
    while i < limit
        invariant
            i <= limit,
            limit == n,
            n == zipped_len(tasks@, rows),
            rows == rows_view(results@),
            crate::problem::tasks_wf(tasks@),
            spec_total_score(tasks@, rows) <= i32::MAX,
            score as int == score_upto(tasks@, rows, i as int),
            (exec_time as int, memory_usage as int) == fold_best(
                flat_upto(rows, i as int),
                i32::MAX as int,
                i32::MAX as int,
            ),
            status as int == fold_status(flat_upto(rows, i as int), -2),
        decreases limit - i,
    {
        let row = &results[i];
        let all_ac = row_all_accepted(row);
        if all_ac {
            proof {
                lemma_score_upto_bounds(tasks@, rows, i + 1, n);
            }
            score = score + tasks[i].score;
        }
        let (d, m, s) = scan_row(row, exec_time, memory_usage, status);
        proof {
            lemma_fold_best_concat(
                flat_upto(rows, i as int),
                rows[i as int],
                i32::MAX as int,
                i32::MAX as int,
            );
            lemma_fold_status_concat(flat_upto(rows, i as int), rows[i as int], -2);
        }
        exec_time = d;
        memory_usage = m;
        status = s;
        i = i + 1;
    }
    Aggregate { status, score, exec_time, memory_usage }
}

pub(crate) fn row_all_accepted(row: &Vec<JudgeResult>) -> (r: bool)
    ensures
        r == all_accepted(row@),
{
    let mut j: usize = 0;
    while j < row.len()
        invariant
            j <= row@.len(),
            forall|k: int| 0 <= k < j ==> (#[trigger] row@[k].status)@ == "AC"@,
        decreases row@.len() - j,
    {
        if !crate::strutil::str_eq(row[j].status.as_str(), "AC") {
            return false;
        }
        j = j + 1;
    }
    true
}

} // verus!

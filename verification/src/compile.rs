//! The compiler stage: which toolchain invocation a language needs, and
//! the uniform all-`CE` result matrix a failed compilation turns into.

use vstd::prelude::*;
use vstd::string::*;

use crate::lang::Language;
use crate::problem::{tasks_wf, Task};
use crate::submission::JudgeResult;

verus! {

/// One toolchain invocation: a program and its argument vector.
#[derive(Debug)]
pub struct CompileCommand {
    pub program: String,
    pub args: Vec<String>,
}

/// The character sequences a vector of strings stands for.
pub open spec fn strings_view(v: Seq<String>) -> Seq<Seq<char>> {
    v.map_values(|s: String| s@)
}

/// The argument vector of the C toolchain: optimization on, warnings
/// off, a bounded error count, the C11 standard, the math library, a
/// fixed output name.
pub open spec fn spec_c_args() -> Seq<Seq<char>> {
    seq![
        "-DONLINE_JUDGE"@,
        "-O2"@,
        "-w"@,
        "-fmax-errors=3"@,
        "-std=c11"@,
        "main.c"@,
        "-lm"@,
        "-o"@,
        "main"@,
    ]
}

/// The argument vector of the C++ toolchain, mirroring the C one with
/// the C++17 standard.
pub open spec fn spec_cpp_args() -> Seq<Seq<char>> {
    seq![
        "-DONLINE_JUDGE"@,
        "-O2"@,
        "-w"@,
        "-fmax-errors=3"@,
        "-std=c++17"@,
        "main.cpp"@,
        "-lm"@,
        "-o"@,
        "main"@,
    ]
}

fn make_args(parts: [&str; 9]) -> (r: Vec<String>)
    ensures
        strings_view(r@) =~= seq![
            parts[0]@,
            parts[1]@,
            parts[2]@,
            parts[3]@,
            parts[4]@,
            parts[5]@,
            parts[6]@,
            parts[7]@,
            parts[8]@,
        ],
{
    let mut r: Vec<String> = Vec::new();
    let mut i: usize = 0;
    while i < 9
        invariant
            i <= 9,
            r@.len() == i,
            forall|k: int| 0 <= k < i ==> (#[trigger] r@[k])@ == parts@[k]@,
        decreases 9 - i,
    {
        r.push(String::from_str(parts[i]));
        i = i + 1;
    }
    r
}

/// The toolchain invocation a language's source needs before it can
/// run, or `None` for an interpreted language.
pub fn compile_command(l: Language) -> (r: Option<CompileCommand>)
    ensures
        l == Language::Python <==> r is None,
        l == Language::C ==> r->0.program@ == "gcc"@ && strings_view(r->0.args@) == spec_c_args(),
        l == Language::Cpp ==> r->0.program@ == "g++"@ && strings_view(r->0.args@)
            == spec_cpp_args(),
{
    match l {
        Language::C => {
            let args = make_args(
                ["-DONLINE_JUDGE", "-O2", "-w", "-fmax-errors=3", "-std=c11", "main.c", "-lm", "-o", "main"],
            );
            Some(CompileCommand { program: String::from_str("gcc"), args })
        },
        Language::Cpp => {
            let args = make_args(
                ["-DONLINE_JUDGE", "-O2", "-w", "-fmax-errors=3", "-std=c++17", "main.cpp", "-lm", "-o", "main"],
            );
            Some(CompileCommand { program: String::from_str("g++"), args })
        },
        Language::Python => None,
    }
}

/// The one result a failed compilation synthesizes: status `CE`, the
/// toolchain's captured streams, and fixed placeholder duration and
/// memory figures, since nothing was executed.
pub fn ce_result(stdout: String, stderr: String) -> (r: JudgeResult)
    ensures
        r.status@ == "CE"@,
        r.duration == 1000,
        r.mem_usage == 32768,
        r.stdout == stdout,
        r.stderr == stderr,
        r.task_id == 0,
        r.case_id == 0,
{
    JudgeResult {
        status: String::from_str("CE"),
        duration: 1000,
        mem_usage: 32768,
        stdout,
        stderr,
        task_id: 0,
        case_id: 0,
    }
}

/// One cell of a uniformly filled matrix: the base result with only the
/// owning task and case indices replaced.
pub open spec fn spec_dup_cell(base: JudgeResult, i: int, j: int) -> JudgeResult {
    JudgeResult { task_id: i as i32, case_id: j as i32, ..base }
}

/// Replicates one result into every cell of the declared task/case
/// shape, rewriting each cell's task and case indices. A failed
/// compilation fans its single `CE` result out with this.
pub fn dup_judge_results(r: &JudgeResult, tasks: &Vec<Task>) -> (all: Vec<Vec<JudgeResult>>)
    requires
        tasks_wf(tasks@),
        tasks@.len() <= i32::MAX,
    ensures
        all@.len() == tasks@.len(),
        forall|i: int| 0 <= i < tasks@.len() ==> (#[trigger] all@[i])@.len()
            == tasks@[i].test_case_count,
        forall|i: int, j: int|
            0 <= i < tasks@.len() && 0 <= j < tasks@[i].test_case_count ==> (#[trigger] all@[i]@[j])
                == spec_dup_cell(*r, i, j),
{
    let mut all: Vec<Vec<JudgeResult>> = Vec::new();
    let mut i: usize = 0;
    while i < tasks.len()
        invariant
            i <= tasks@.len(),
            tasks@.len() <= i32::MAX,
            tasks_wf(tasks@),
            all@.len() == i,
            forall|k: int| 0 <= k < i ==> (#[trigger] all@[k])@.len()
                == tasks@[k].test_case_count,
            forall|k: int, j: int|
                0 <= k < i && 0 <= j < tasks@[k].test_case_count ==> (#[trigger] all@[k]@[j])
                    == spec_dup_cell(*r, k, j),
        decreases tasks@.len() - i,
    {
        let count = tasks[i].test_case_count;
        let mut seg: Vec<JudgeResult> = Vec::new();
        let mut j: i32 = 0;
        while j < count
            invariant
                0 <= j <= count,
                i < tasks@.len() <= i32::MAX,
                count == tasks@[i as int].test_case_count,
                seg@.len() == j,
                forall|q: int| 0 <= q < j ==> (#[trigger] seg@[q]) == spec_dup_cell(
                    *r,
                    i as int,
                    q,
                ),
            decreases count - j,
        {
            let mut cell = r.clone();
            cell.task_id = i as i32;
            cell.case_id = j;
            seg.push(cell);
            j = j + 1;
        }
        all.push(seg);
        i = i + 1;
    }
    all
}

} // verus!

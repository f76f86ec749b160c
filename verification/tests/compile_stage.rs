use normal_oj::aggregate::aggregate_results;
use normal_oj::compile::{ce_result, compile_command, dup_judge_results};
use normal_oj::lang::{source_file_name, Language};
use normal_oj::problem::Task;
use normal_oj::status::SubmissionStatus;
use normal_oj::submission::{JudgeResult, Model};

fn task(test_case_count: i32, score: i32) -> Task {
    Task { test_case_count, score, time_limit: 1000, memory_limit: 65536 }
}

fn pending_model() -> Model {
    Model {
        created_at: 0,
        updated_at: 0,
        id: 1,
        user_id: 2,
        problem_id: 3,
        timestamp: 1_700_000_000,
        score: 0,
        exec_time: 0,
        memory_usage: 0,
        code: "int main() {".to_string(),
        last_send: 1_700_000_000,
        status: SubmissionStatus::Pending,
        language: Language::C,
        tasks: None,
    }
}

#[test]
fn source_file_names_follow_language() {
    assert_eq!(source_file_name(Language::C), "main.c");
    assert_eq!(source_file_name(Language::Cpp), "main.cpp");
    assert_eq!(source_file_name(Language::Python), "main.py");
}

#[test]
fn c_compile_command_is_the_fixed_gcc_invocation() {
    let cmd = compile_command(Language::C).unwrap();
    assert_eq!(cmd.program, "gcc");
    assert_eq!(
        cmd.args,
        vec!["-DONLINE_JUDGE", "-O2", "-w", "-fmax-errors=3", "-std=c11", "main.c", "-lm", "-o", "main"]
    );
}

#[test]
fn cpp_compile_command_uses_cpp17() {
    let cmd = compile_command(Language::Cpp).unwrap();
    assert_eq!(cmd.program, "g++");
    assert_eq!(
        cmd.args,
        vec!["-DONLINE_JUDGE", "-O2", "-w", "-fmax-errors=3", "-std=c++17", "main.cpp", "-lm", "-o", "main"]
    );
}

#[test]
fn python_needs_no_compilation() {
    assert!(compile_command(Language::Python).is_none());
}

#[test]
fn compile_failure_fills_the_whole_matrix_with_ce() {
    // An invalid C source fails to compile; the one synthesized CE
    // result is fanned out over the declared task/case shape and the
    // run is graded with score 0.
    let tasks = vec![task(2, 100), task(2, 50)];
    let ce = ce_result("".to_string(), "main.c:1: error".to_string());
    assert_eq!(ce.status, "CE");
    assert_eq!(ce.duration, 1000);
    assert_eq!(ce.mem_usage, 32768);

    let matrix = dup_judge_results(&ce, &tasks);
    assert_eq!(matrix.len(), 2);
    for (i, row) in matrix.iter().enumerate() {
        assert_eq!(row.len(), 2);
        for (j, cell) in row.iter().enumerate() {
            assert_eq!(cell.status, "CE");
            assert_eq!(cell.task_id, i as i32);
            assert_eq!(cell.case_id, j as i32);
            assert_eq!(cell.stderr, "main.c:1: error");
        }
    }

    let agg = aggregate_results(&tasks, &matrix);
    assert_eq!(agg.score, 0);
    assert_eq!(agg.status, 2);

    let graded = pending_model().update_sandbox_result(&tasks, matrix);
    assert_eq!(graded.score, 0);
    assert_eq!(graded.status, SubmissionStatus::ComileError);
    assert_eq!(graded.tasks.as_ref().unwrap().len(), 2);
}

#[test]
fn dup_judge_results_respects_uneven_shapes() {
    let tasks = vec![task(1, 10), task(3, 20)];
    let ce = ce_result(String::new(), String::new());
    let matrix = dup_judge_results(&ce, &tasks);
    assert_eq!(matrix.len(), 2);
    assert_eq!(matrix[0].len(), 1);
    assert_eq!(matrix[1].len(), 3);

    let result: Vec<JudgeResult> = matrix.into_iter().flatten().collect();
    assert!(result.iter().all(|c| c.status == "CE"));
}

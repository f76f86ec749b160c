use normal_oj::aggregate::aggregate_results;
use normal_oj::problem::Task;
use normal_oj::submission::JudgeResult;

fn case(status: &str, duration: i32, mem_usage: i32) -> JudgeResult {
    JudgeResult {
        status: status.to_string(),
        duration,
        mem_usage,
        stdout: String::new(),
        stderr: String::new(),
        task_id: 0,
        case_id: 0,
    }
}

fn task(test_case_count: i32, score: i32) -> Task {
    Task { test_case_count, score, time_limit: 1000, memory_limit: 65536 }
}

#[test]
fn score_counts_only_fully_accepted_tasks() {
    let tasks = vec![task(2, 100), task(2, 50)];
    let results = vec![
        vec![case("AC", 10, 100), case("AC", 12, 110)],
        vec![case("AC", 8, 90), case("WA", 9, 95)],
    ];
    let agg = aggregate_results(&tasks, &results);
    assert_eq!(agg.score, 100);
}

#[test]
fn minimum_wins_policy_for_duration_and_status() {
    // One failing case does not dominate: the fastest case sets the
    // timing figures and the smallest priority sets the status.
    let tasks = vec![task(2, 100)];
    let results = vec![vec![case("AC", 10, 200), case("WA", 5, 300)]];
    let agg = aggregate_results(&tasks, &results);
    assert_eq!(agg.exec_time, 5);
    assert_eq!(agg.memory_usage, 300);
    assert_eq!(agg.status, 0);
    assert_eq!(agg.score, 0);
}

#[test]
fn memory_breaks_duration_ties() {
    let tasks = vec![task(3, 10)];
    let results = vec![vec![case("AC", 7, 300), case("AC", 7, 120), case("AC", 9, 50)]];
    let agg = aggregate_results(&tasks, &results);
    assert_eq!(agg.exec_time, 7);
    assert_eq!(agg.memory_usage, 120);
    assert_eq!(agg.score, 10);
}

#[test]
fn empty_matrix_keeps_sentinels() {
    let tasks: Vec<Task> = vec![];
    let results: Vec<Vec<JudgeResult>> = vec![];
    let agg = aggregate_results(&tasks, &results);
    assert_eq!(agg.score, 0);
    assert_eq!(agg.status, -2);
    assert_eq!(agg.exec_time, i32::MAX);
    assert_eq!(agg.memory_usage, i32::MAX);
}

#[test]
fn unknown_tokens_are_skipped_by_status_scan() {
    let tasks = vec![task(2, 30)];
    let results = vec![vec![case("Pending", 4, 40), case("TLE", 6, 60)]];
    let agg = aggregate_results(&tasks, &results);
    // Pending is unmapped and skipped; TLE remains.
    assert_eq!(agg.status, 3);
    // but the unmapped case still takes part in the timing scan
    assert_eq!(agg.exec_time, 4);
    assert_eq!(agg.memory_usage, 40);
    assert_eq!(agg.score, 0);
}

#[test]
fn empty_task_counts_as_fully_accepted() {
    let tasks = vec![task(0, 25)];
    let results = vec![vec![]];
    let agg = aggregate_results(&tasks, &results);
    assert_eq!(agg.score, 25);
    assert_eq!(agg.status, -2);
}

#[test]
fn extra_result_rows_are_ignored() {
    let tasks = vec![task(1, 40)];
    let results = vec![vec![case("AC", 3, 30)], vec![case("WA", 1, 10)]];
    let agg = aggregate_results(&tasks, &results);
    assert_eq!(agg.score, 40);
    assert_eq!(agg.status, 0);
    assert_eq!(agg.exec_time, 3);
}

#[test]
fn je_sentinel_durations_win_the_minimum() {
    let tasks = vec![task(2, 10)];
    let results = vec![vec![case("JE", -1, -1), case("AC", 10, 100)]];
    let agg = aggregate_results(&tasks, &results);
    assert_eq!(agg.exec_time, -1);
    assert_eq!(agg.memory_usage, -1);
    assert_eq!(agg.status, 0);
}

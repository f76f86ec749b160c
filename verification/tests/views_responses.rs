use normal_oj::lang::Language;
use normal_oj::problem::Task;
use normal_oj::status::SubmissionStatus;
use normal_oj::submission::{JudgeResult, Model};
use normal_oj::users::UserInfoResponse;
use normal_oj::views::{SubmissionListResponse, SubmissionTaskResponse};

fn model(id: i32) -> Model {
    Model {
        created_at: 0,
        updated_at: 0,
        id,
        user_id: 10,
        problem_id: 100,
        timestamp: 1_700_000_000,
        score: 80,
        exec_time: 12,
        memory_usage: 340,
        code: "x = 1".to_string(),
        last_send: 1_700_000_050,
        status: SubmissionStatus::WrongAnswer,
        language: Language::Python,
        tasks: None,
    }
}

fn case(status: &str, duration: i32, mem_usage: i32) -> JudgeResult {
    JudgeResult {
        status: status.to_string(),
        duration,
        mem_usage,
        stdout: String::new(),
        stderr: String::new(),
        task_id: 0,
        case_id: 0,
    }
}

#[test]
fn list_response_pairs_submissions_with_users() {
    let submissions = vec![model(1), model(2)];
    let users = vec![
        UserInfoResponse { username: "ada".to_string(), role: 2 },
        UserInfoResponse { username: "alan".to_string(), role: 1 },
    ];
    let resp = SubmissionListResponse::new(&submissions, &users).done();
    assert_eq!(resp.submission_count, 123);
    assert_eq!(resp.submissions.len(), 2);
    let first = &resp.submissions[0];
    assert_eq!(first.submission_id, 1);
    assert_eq!(first.problem_id, 100);
    assert_eq!(first.timestamp, 1_700_000_000);
    assert_eq!(first.last_send, 1_700_000_050);
    assert_eq!(first.score, 80);
    assert_eq!(first.exec_time, 12);
    assert_eq!(first.memory_usage, 340);
    assert_eq!(first.code, "x = 1");
    assert_eq!(first.status, 1);
    assert_eq!(first.language, 2);
    assert_eq!(first.user.username, "ada");
    assert_eq!(resp.submissions[1].user.username, "alan");
}

#[test]
fn list_response_stops_at_the_shorter_side() {
    let submissions = vec![model(1), model(2)];
    let users = vec![UserInfoResponse { username: "ada".to_string(), role: 2 }];
    let resp = SubmissionListResponse::new(&submissions, &users).done();
    assert_eq!(resp.submissions.len(), 1);
}

#[test]
fn task_response_aggregates_one_task() {
    let task = Task { test_case_count: 2, score: 50, time_limit: 1000, memory_limit: 65536 };
    let results = vec![case("AC", 10, 200), case("WA", 5, 300)];
    let resp = SubmissionTaskResponse::new(&task, &results);
    assert_eq!(resp.score, 0);
    assert_eq!(resp.exec_time, 5);
    assert_eq!(resp.memory_usage, 300);
    assert_eq!(resp.status, 0);
    assert_eq!(resp.cases.len(), 2);
    assert_eq!(resp.cases[0].exec_time, 10);
    assert_eq!(resp.cases[0].memory_usage, 200);
    assert_eq!(resp.cases[0].status, 0);
    assert_eq!(resp.cases[1].status, 1);
}

#[test]
fn task_response_grants_the_weight_when_all_accepted() {
    let task = Task { test_case_count: 2, score: 50, time_limit: 1000, memory_limit: 65536 };
    let results = vec![case("AC", 10, 200), case("AC", 8, 100)];
    let resp = SubmissionTaskResponse::new(&task, &results);
    assert_eq!(resp.score, 50);
    assert_eq!(resp.exec_time, 8);
    assert_eq!(resp.memory_usage, 100);
}

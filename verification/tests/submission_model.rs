use normal_oj::error::Error;
use normal_oj::lang::Language;
use normal_oj::problem::Task;
use normal_oj::status::SubmissionStatus;
use normal_oj::submission::{
    add_params_from_request, list_params_from_request, list_selection, CreateSubmissionRequest,
    JudgeResult, ListParams, ListSubmissionRequest, Model,
};

fn model(id: i32, user_id: i32, problem_id: i32, status: SubmissionStatus, language: Language) -> Model {
    Model {
        created_at: 0,
        updated_at: 0,
        id,
        user_id,
        problem_id,
        timestamp: 1_700_000_000,
        score: 0,
        exec_time: 0,
        memory_usage: 0,
        code: String::new(),
        last_send: 1_700_000_000,
        status,
        language,
        tasks: None,
    }
}

fn no_filters() -> ListParams {
    ListParams {
        offset: None,
        count: None,
        problem: None,
        user: None,
        status: None,
        language: None,
        course: None,
    }
}

fn sample() -> Vec<Model> {
    vec![
        model(1, 10, 100, SubmissionStatus::Accepted, Language::C),
        model(2, 11, 100, SubmissionStatus::WrongAnswer, Language::Cpp),
        model(3, 10, 101, SubmissionStatus::Accepted, Language::Python),
        model(4, 12, 100, SubmissionStatus::Pending, Language::C),
    ]
}

#[test]
fn list_selection_without_filters_keeps_order() {
    let out = list_selection(sample(), &no_filters());
    let ids: Vec<i32> = out.iter().map(|m| m.id).collect();
    assert_eq!(ids, vec![1, 2, 3, 4]);
}

#[test]
fn list_selection_applies_every_filter() {
    let mut p = no_filters();
    p.problem = Some(100);
    p.user = Some(10);
    let out = list_selection(sample(), &p);
    let ids: Vec<i32> = out.iter().map(|m| m.id).collect();
    assert_eq!(ids, vec![1]);

    let mut p = no_filters();
    p.status = Some(SubmissionStatus::Accepted);
    let out = list_selection(sample(), &p);
    let ids: Vec<i32> = out.iter().map(|m| m.id).collect();
    assert_eq!(ids, vec![1, 3]);

    let mut p = no_filters();
    p.language = Some(Language::C);
    let out = list_selection(sample(), &p);
    let ids: Vec<i32> = out.iter().map(|m| m.id).collect();
    assert_eq!(ids, vec![1, 4]);
}

#[test]
fn list_selection_pages_after_filtering() {
    let mut p = no_filters();
    p.offset = Some(1);
    p.count = Some(2);
    let out = list_selection(sample(), &p);
    let ids: Vec<i32> = out.iter().map(|m| m.id).collect();
    assert_eq!(ids, vec![2, 3]);

    let mut p = no_filters();
    p.offset = Some(10);
    let out = list_selection(sample(), &p);
    assert!(out.is_empty());
}

#[test]
fn update_code_replaces_only_the_code() {
    let m = model(1, 10, 100, SubmissionStatus::Pending, Language::C);
    let m = m.update_code("print(1)".to_string());
    assert_eq!(m.code, "print(1)");
    assert_eq!(m.id, 1);
    assert_eq!(m.status, SubmissionStatus::Pending);
}

#[test]
fn update_sandbox_result_replaces_the_grading_outputs() {
    let tasks = vec![Task { test_case_count: 1, score: 100, time_limit: 1000, memory_limit: 65536 }];
    let results = vec![vec![JudgeResult {
        status: "AC".to_string(),
        duration: 12,
        mem_usage: 340,
        stdout: "3\n".to_string(),
        stderr: String::new(),
        task_id: 0,
        case_id: 0,
    }]];
    let m = model(1, 10, 100, SubmissionStatus::Pending, Language::C);
    let m = m.update_sandbox_result(&tasks, results);
    assert_eq!(m.score, 100);
    assert_eq!(m.status, SubmissionStatus::Accepted);
    assert_eq!(m.exec_time, 12);
    assert_eq!(m.memory_usage, 340);
    assert_eq!(m.tasks.as_ref().unwrap()[0][0].status, "AC");
    // untouched fields stay
    assert_eq!(m.user_id, 10);
    assert_eq!(m.problem_id, 100);
}

#[test]
fn requests_translate_to_params() {
    let req = CreateSubmissionRequest { problem_id: 9, language: 2 };
    let params = add_params_from_request(&req, 77, 1_700_000_123);
    assert_eq!(params.user, 77);
    assert_eq!(params.problem, 9);
    assert_eq!(params.timestamp, 1_700_000_123);
    assert_eq!(params.language, Language::Python);

    let req = ListSubmissionRequest {
        offset: Some(5),
        count: Some(10),
        problem: Some(9),
        user: None,
        status: Some(0),
        language: Some(1),
        course: Some("algo".to_string()),
    };
    let params = list_params_from_request(&req);
    assert_eq!(params.offset, Some(5));
    assert_eq!(params.count, Some(10));
    assert_eq!(params.problem, Some(9));
    assert_eq!(params.user, None);
    assert_eq!(params.status, Some(SubmissionStatus::Accepted));
    assert_eq!(params.language, Some(Language::Cpp));
    assert_eq!(params.course.as_deref(), Some("algo"));
}

#[test]
fn error_variants_exist_for_each_code_failure() {
    assert!(matches!(Language::try_from(9), Err(Error::InvalidLanguageCode)));
    assert!(matches!(SubmissionStatus::try_from(9), Err(Error::InvalidStatusCode)));
}

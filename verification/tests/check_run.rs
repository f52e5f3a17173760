use cargo_test_annotations::check_run::{
    check_run_output, completed_check_run, conclusion_for, ANNOTATION_LIMIT,
};
use cargo_test_annotations::report::annotate;
use cargo_test_annotations::report::CAUSE_HEADING;
use cargo_test_annotations::{
    CheckHandler, CheckRunAction, CheckRunAnnotation, CheckRunCheckSuite, CheckRunConclusion,
    CheckRunStatus, CreateCheckRunBuilder, TestFailureInfo, TestFailureLocation, TestResult,
    TestResultValue, Timestamp,
};

fn annotation(name: &str) -> CheckRunAnnotation {
    let place = TestFailureLocation { file: "src/lib.rs".to_string(), line: 1, column: 2 };
    let result = TestResult {
        name: name.to_string(),
        result: TestResultValue::Failed(TestFailureInfo::new(
            "boom".to_string(),
            place.clone(),
            "trace".to_string(),
        )),
    };
    annotate(&vec![], &result, &place, CAUSE_HEADING)
}

fn many(count: usize) -> Vec<CheckRunAnnotation> {
    (0..count).map(|i| annotation(&format!("t{}", i))).collect()
}

fn handler() -> CheckHandler {
    CheckHandler::new("octo".to_string(), "crab".to_string())
}

#[test]
fn new_builder_holds_name_and_commit_only() {
    let handler = handler();
    assert_eq!(handler.owner, "octo");
    assert_eq!(handler.repo, "crab");
    let builder = handler.create_check_run("tests".to_string(), "abc123".to_string());
    assert_eq!(builder.name, "tests");
    assert_eq!(builder.head_sha, "abc123");
    assert_eq!(builder.handler.owner, "octo");
    assert!(builder.details_url.is_none());
    assert!(builder.external_id.is_none());
    assert!(builder.status.is_none());
    assert!(builder.started_at.is_none());
    assert!(builder.conclusion.is_none());
    assert!(builder.completed_at.is_none());
    assert!(builder.output.is_none());
    assert!(builder.actions.is_none());
    let direct = CreateCheckRunBuilder::new(&handler, "n".to_string(), "s".to_string());
    assert_eq!((direct.name.as_str(), direct.head_sha.as_str()), ("n", "s"));
}

#[test]
fn each_setter_sets_its_field_and_no_other() {
    let handler = handler();
    let begun = Timestamp { seconds: 1_600_000_000, nanoseconds: 5 };
    let ended = Timestamp { seconds: 1_600_000_060, nanoseconds: 0 };
    let builder = handler
        .create_check_run("tests".to_string(), "abc123".to_string())
        .details_url("https://example.test/run/1".to_string())
        .external_id("run-1".to_string())
        .status(CheckRunStatus::InProgress)
        .started_at(begun)
        .conclusion(CheckRunConclusion::Neutral)
        .completed_at(ended)
        .output(check_run_output("title".to_string(), vec![]))
        .actions(vec![]);
    assert_eq!(builder.name, "tests");
    assert_eq!(builder.head_sha, "abc123");
    assert_eq!(builder.details_url.as_deref(), Some("https://example.test/run/1"));
    assert_eq!(builder.external_id.as_deref(), Some("run-1"));
    assert_eq!(builder.status, Some(CheckRunStatus::InProgress));
    assert_eq!(builder.started_at, Some(begun));
    assert_eq!(builder.conclusion, Some(CheckRunConclusion::Neutral));
    assert_eq!(builder.completed_at, Some(ended));
    assert_eq!(builder.output.as_ref().unwrap().title, "title");
    assert_eq!(builder.actions, Some(Vec::<CheckRunAction>::new()));
    let only_status = handler
        .create_check_run("tests".to_string(), "abc123".to_string())
        .status(CheckRunStatus::Queued);
    assert_eq!(only_status.status, Some(CheckRunStatus::Queued));
    assert!(only_status.conclusion.is_none());
    assert!(only_status.details_url.is_none());
}

#[test]
fn route_names_owner_and_repository() {
    let handler = handler();
    let builder = handler.create_check_run("tests".to_string(), "abc123".to_string());
    assert_eq!(builder.route(), "repos/octo/crab/check-runs");
    let odd = CheckHandler::new("".to_string(), "a/b".to_string());
    assert_eq!(odd.create_check_run("n".to_string(), "s".to_string()).route(), "repos//a/b/check-runs");
}

#[test]
fn conclusion_goes_by_the_number_of_annotations() {
    assert_eq!(ANNOTATION_LIMIT, 50);
    assert_eq!(conclusion_for(0), Some(CheckRunConclusion::Success));
    assert_eq!(conclusion_for(1), Some(CheckRunConclusion::Failure));
    assert_eq!(conclusion_for(49), Some(CheckRunConclusion::Failure));
    assert_eq!(conclusion_for(50), None);
    assert_eq!(conclusion_for(usize::MAX), None);
}

#[test]
fn output_counts_the_failures_in_its_summary() {
    let output = check_run_output("unit tests".to_string(), many(3));
    assert_eq!(output.title, "unit tests");
    assert_eq!(output.summary, "3 test failures");
    assert_eq!(output.text, None);
    assert_eq!(output.annotations.as_ref().unwrap().len(), 3);
    assert_eq!(output.annotations.as_ref().unwrap()[2].title.as_deref(), Some("t2"));
    assert_eq!(output.images, Some(vec![]));
    assert_eq!(check_run_output("n".to_string(), vec![]).summary, "0 test failures");
    assert_eq!(check_run_output("n".to_string(), many(12)).summary, "12 test failures");
}

#[test]
fn completed_check_run_without_failures_succeeds() {
    let handler = handler();
    let now = Timestamp { seconds: 1_700_000_000, nanoseconds: 1 };
    let request =
        completed_check_run(&handler, "tests".to_string(), "abc".to_string(), vec![], now).unwrap();
    assert_eq!(request.name, "tests");
    assert_eq!(request.head_sha, "abc");
    assert_eq!(request.status, Some(CheckRunStatus::Completed));
    assert_eq!(request.conclusion, Some(CheckRunConclusion::Success));
    assert_eq!(request.completed_at, Some(now));
    assert!(request.started_at.is_none());
    assert!(request.details_url.is_none());
    assert!(request.external_id.is_none());
    assert!(request.actions.is_none());
    let output = request.output.as_ref().unwrap();
    assert_eq!(output.title, "tests");
    assert_eq!(output.summary, "0 test failures");
    assert_eq!(output.annotations, Some(vec![]));
    assert_eq!(request.route(), "repos/octo/crab/check-runs");
}

#[test]
fn completed_check_run_with_failures_fails() {
    let handler = handler();
    let now = Timestamp { seconds: 0, nanoseconds: 0 };
    let request =
        completed_check_run(&handler, "tests".to_string(), "abc".to_string(), many(49), now).unwrap();
    assert_eq!(request.conclusion, Some(CheckRunConclusion::Failure));
    assert_eq!(request.output.as_ref().unwrap().summary, "49 test failures");
    assert_eq!(request.output.as_ref().unwrap().annotations.as_ref().unwrap().len(), 49);
}

#[test]
fn completed_check_run_with_too_many_failures_is_not_made() {
    let handler = handler();
    let now = Timestamp { seconds: 0, nanoseconds: 0 };
    assert!(completed_check_run(&handler, "t".to_string(), "abc".to_string(), many(50), now).is_none());
    assert!(completed_check_run(&handler, "t".to_string(), "abc".to_string(), many(51), now).is_none());
}

#[test]
fn check_suite_is_plain_data() {
    let suite = CheckRunCheckSuite { id: 7 };
    assert_eq!(suite, suite.clone());
    assert_eq!(suite.id, 7);
}

use cargo_test_annotations::report::{
    annotate, annotate_run, annotations, failure_message, has_failure, CAUSE_HEADING,
    DOC_CAUSE_HEADING,
};
use cargo_test_annotations::{
    AnnotationLevel, Package, ParseError, TestData, TestFailureInfo, TestFailureLocation,
    TestResult, TestResultKind, TestResultValue, TestRun, TestSummary,
};

fn failure(text: &str, file: &str, line: u64, column: u64) -> TestFailureInfo {
    TestFailureInfo::new(
        text.to_string(),
        TestFailureLocation { file: file.to_string(), line, column },
        "stack backtrace:\r\n   0: frame".to_string(),
    )
}

fn passed(name: &str) -> TestResult {
    TestResult { name: name.to_string(), result: TestResultValue::Passed }
}

fn failed(name: &str, info: TestFailureInfo) -> TestResult {
    TestResult { name: name.to_string(), result: TestResultValue::Failed(info) }
}

fn data(count: usize, results: Vec<TestResult>) -> TestData {
    let failures = results.iter().filter(|r| matches!(r.result, TestResultValue::Failed(_))).count();
    TestData {
        test_count: count,
        test_summary: TestSummary::new(
            if failures == 0 { TestResultKind::Passed } else { TestResultKind::Failed },
            results.len() - failures,
            failures,
            0,
            0,
            0,
            "0.01s".to_string(),
        ),
        test_results: results,
    }
}

fn run(features: &[&str], tests: TestData, doc_tests: TestData) -> TestRun {
    TestRun {
        package: Package {
            id: "demo 0.1.0".to_string(),
            name: "demo".to_string(),
            version: "0.1.0".to_string(),
        },
        features: features.iter().map(|f| f.to_string()).collect(),
        test_run: tests,
        doc_test_run: doc_tests,
    }
}

#[test]
fn message_holds_features_cause_and_trace() {
    let features = vec!["default".to_string(), "extra".to_string()];
    let info = failure("boom\r\nagain\rand again", "src/lib.rs", 10, 5);
    assert_eq!(
        failure_message(&features, &info, CAUSE_HEADING),
        "features: [default, extra]\n\ncause:\nboom\nagain\nand again\n\nstack backtrace:\n   0: frame"
    );
    assert_eq!(
        failure_message(&vec![], &info, DOC_CAUSE_HEADING),
        "features: []\n    \ncause:\nboom\nagain\nand again\n\nstack backtrace:\n   0: frame"
    );
}

#[test]
fn annotation_of_a_failed_test() {
    let result = failed("tests::b", failure("boom", "src/lib.rs", 10, 5));
    let place = TestFailureLocation { file: "src/real.rs".to_string(), line: 7, column: 9 };
    let annotation = annotate(&vec!["default".to_string()], &result, &place, CAUSE_HEADING);
    assert_eq!(annotation.path, "src/real.rs");
    assert_eq!(annotation.start_line, 7);
    assert_eq!(annotation.end_line, 7);
    assert_eq!(annotation.start_column, Some(9));
    assert_eq!(annotation.end_column, None);
    assert_eq!(annotation.annotation_level, AnnotationLevel::Failure);
    assert_eq!(
        annotation.message,
        "features: [default]\n\ncause:\nboom\n\nstack backtrace:\n   0: frame"
    );
    assert_eq!(annotation.title.as_deref(), Some("tests::b"));
    assert_eq!(annotation.raw_details, Some(format!("{:#?}", result)));
    let details = annotation.raw_details.unwrap();
    assert!(details.starts_with("TestResult {"));
    assert!(details.contains("name: \"tests::b\""));
    assert!(details.contains("panic_text: \"boom\""));
}

#[test]
fn has_failure_looks_at_every_result() {
    assert!(!has_failure(&vec![]));
    assert!(!has_failure(&vec![passed("a"), passed("b")]));
    assert!(has_failure(&vec![passed("a"), failed("b", failure("x", "f.rs", 1, 1))]));
}

#[test]
fn run_without_failure_has_no_annotation() {
    let quiet = run(&["default"], data(2, vec![passed("a"), passed("b")]), data(0, vec![]));
    assert_eq!(annotate_run(&quiet).ok().unwrap(), vec![]);
    let empty = run(&[], data(0, vec![]), data(0, vec![]));
    assert_eq!(annotate_run(&empty).ok().unwrap(), vec![]);
}

#[test]
fn run_that_announced_no_test_has_no_annotation() {
    let odd = run(&[], data(0, vec![failed("a", failure("x", "f.rs", 1, 1))]), data(0, vec![]));
    assert_eq!(annotate_run(&odd).ok().unwrap(), vec![]);
}

#[test]
fn plain_failures_come_first_then_doc_failures() {
    let tests = data(
        3,
        vec![
            failed("a", failure("boom a", "src/a.rs", 1, 2)),
            passed("b"),
            failed("c", failure("boom c", "src/c.rs", 5, 6)),
        ],
    );
    let doc_tests = data(
        2,
        vec![
            passed("src/lib.rs - (line 1)"),
            failed("src/lib.rs - (line 42)", failure("doc boom", "src/lib.rs", 4, 1)),
        ],
    );
    let found = annotate_run(&run(&["x", "y"], tests, doc_tests)).ok().unwrap();
    assert_eq!(found.len(), 3);
    assert_eq!(
        found.iter().map(|a| a.title.as_deref().unwrap()).collect::<Vec<_>>(),
        vec!["a", "c", "src/lib.rs - (line 42)"]
    );
    assert_eq!((found[0].path.as_str(), found[0].start_line, found[0].start_column), ("src/a.rs", 1, Some(2)));
    assert_eq!((found[1].path.as_str(), found[1].start_line, found[1].start_column), ("src/c.rs", 5, Some(6)));
    assert_eq!((found[2].path.as_str(), found[2].start_line, found[2].end_line), ("src/lib.rs", 43, 43));
    assert_eq!(found[2].start_column, Some(5));
    assert_eq!(
        found[0].message,
        "features: [x, y]\n\ncause:\nboom a\n\nstack backtrace:\n   0: frame"
    );
    assert_eq!(
        found[2].message,
        "features: [x, y]\n    \ncause:\ndoc boom\n\nstack backtrace:\n   0: frame"
    );
}

#[test]
fn doc_failure_with_a_name_of_another_shape() {
    let doc_tests = data(1, vec![failed("not a doc test", failure("x", "src/lib.rs", 4, 1))]);
    let tests = data(1, vec![failed("a", failure("boom a", "src/a.rs", 1, 2))]);
    assert_eq!(
        annotate_run(&run(&[], tests, doc_tests)).err(),
        Some(ParseError::MalformedDoctestName)
    );
}

#[test]
fn annotations_of_all_runs_in_order() {
    let first = run(&["a"], data(1, vec![failed("one", failure("x", "1.rs", 1, 1))]), data(0, vec![]));
    let quiet = run(&["b"], data(1, vec![passed("two")]), data(0, vec![]));
    let last = run(
        &["c"],
        data(0, vec![]),
        data(1, vec![failed("src/lib.rs - (line 9)", failure("y", "src/lib.rs", 3, 0))]),
    );
    let found = annotations(&vec![first.clone(), quiet.clone(), last.clone()]).ok().unwrap();
    assert_eq!(found.len(), 2);
    assert_eq!(found[0].title.as_deref(), Some("one"));
    assert_eq!(found[1].title.as_deref(), Some("src/lib.rs - (line 9)"));
    assert_eq!(found[1].start_line, 9);
    assert_eq!(found[1].start_column, Some(4));
    assert!(found[1].message.starts_with("features: [c]"));
    assert_eq!(annotations(&vec![]).ok().unwrap(), vec![]);
    let broken = run(&[], data(0, vec![]), data(1, vec![failed("odd", failure("y", "f.rs", 3, 0))]));
    assert_eq!(
        annotations(&vec![first, broken, last]).err(),
        Some(ParseError::MalformedDoctestName)
    );
}

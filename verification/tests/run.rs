use cargo_test_annotations::run::{has_failed, settled};
use cargo_test_annotations::{
    Cursor, Event, Package, ParseError, Record, TestFailureInfo, TestFailureLocation,
    TestResultKind, TestResultParseResult, TestResultValue, TestRun, TestRunParser,
    TestRunParserPhase, TestRunParserState,
};

fn lines(texts: &[&str]) -> Vec<Record> {
    texts.iter().map(|t| Record::TextLine(t.to_string())).collect()
}

fn package() -> Package {
    Package { id: "demo 0.1.0".to_string(), name: "demo".to_string(), version: "0.1.0".to_string() }
}

fn parser() -> TestRunParser {
    TestRunParser::new(package(), vec!["default".to_string()])
}

const PASSING: &str =
    "test result: ok. 1 passed; 0 failed; 0 ignored; 0 measured; 0 filtered out; finished in 0.00s";
const EMPTY: &str =
    "test result: ok. 0 passed; 0 failed; 0 ignored; 0 measured; 0 filtered out; finished in 0.00s";
const FAILING: &str =
    "test result: FAILED. 0 passed; 2 failed; 0 ignored; 0 measured; 0 filtered out; finished in 0.03s";

fn info() -> TestFailureInfo {
    TestFailureInfo::new(
        "boom".to_string(),
        TestFailureLocation { file: "f.rs".to_string(), line: 1, column: 2 },
        "trace".to_string(),
    )
}

#[test]
fn new_parser_has_read_nothing() {
    let parser = parser();
    assert_eq!(parser.package.id, "demo 0.1.0");
    assert_eq!(parser.features, vec!["default".to_string()]);
    assert_eq!(parser.phase, TestRunParserPhase::Tests);
    assert_eq!(parser.state, TestRunParserState::Initial);
    assert_eq!(parser.test_count, 0);
    assert!(parser.test_results.is_empty());
    assert!(parser.test_run.is_none());
    assert!(parser.doc_test_run.is_none());
}

#[test]
fn single_passing_test() {
    let records = lines(&[
        "running 1 test",
        "test tests::it_works ... ok",
        "",
        PASSING,
        "",
        "   Doc-tests demo",
        "",
        "running 0 tests",
        "",
        EMPTY,
        "",
    ]);
    let mut cursor = Cursor::new(&records);
    let run = parser().parse(&mut cursor).ok().unwrap();
    assert_eq!(cursor.index(), 10);
    assert_eq!(run.test_run.test_count, 1);
    assert_eq!(run.test_run.test_results.len(), run.test_run.test_count);
    assert_eq!(run.test_run.test_results[0].name, "tests::it_works");
    assert!(matches!(run.test_run.test_results[0].result, TestResultValue::Passed));
    assert_eq!(run.test_run.test_summary.passed, run.test_run.test_count);
    assert_eq!(run.test_run.test_summary.failed, 0);
    assert_eq!(run.test_run.test_summary.result, TestResultKind::Passed);
    assert_eq!(run.doc_test_run.test_count, 0);
    assert!(run.doc_test_run.test_results.is_empty());
    assert_eq!(run.doc_test_run.test_summary.passed, 0);
}

#[test]
fn states_follow_one_another() {
    let records = lines(&[
        "noise",
        "running 2 tests",
        "test a ... FAILED",
        "test b ... ok",
        "",
        "failures:",
        "---- a stdout ----",
        "boom, src/a.rs:1:2",
        "stack backtrace:",
        "",
        "failures:",
        "    a",
        "",
        "test result: FAILED. 1 passed; 1 failed; 0 ignored; 0 measured; 0 filtered out; finished in 0.03s",
    ]);
    let mut cursor = Cursor::new(&records);
    let mut parser = parser();
    assert_eq!(parser.step(&mut cursor), Ok(()));
    assert_eq!((parser.state, cursor.index()), (TestRunParserState::Tests, 2));
    assert_eq!(parser.test_count, 2);
    assert_eq!(parser.step(&mut cursor), Ok(()));
    assert_eq!((parser.state, cursor.index()), (TestRunParserState::FailuresOutput, 5));
    assert_eq!(parser.test_results.len(), 2);
    assert!(has_failed(&parser.test_results));
    assert!(!settled(&parser.test_results));
    assert_eq!(parser.step(&mut cursor), Ok(()));
    assert_eq!((parser.state, cursor.index()), (TestRunParserState::FailuresListing, 10));
    assert!(settled(&parser.test_results));
    assert_eq!(parser.step(&mut cursor), Ok(()));
    assert_eq!((parser.state, cursor.index()), (TestRunParserState::Results, 12));
    assert_eq!(parser.step(&mut cursor), Ok(()));
    assert_eq!((parser.state, cursor.index()), (TestRunParserState::Done, 14));
    assert!(parser.test_results.is_empty());
    let data = parser.test_run.as_ref().unwrap();
    assert_eq!(data.test_count, 2);
    assert_eq!(data.test_results.len(), 2);
    assert_eq!(data.test_summary.failed, 1);
    assert!(parser.doc_test_run.is_none());
    assert_eq!(parser.step(&mut cursor), Ok(()));
    assert_eq!((parser.state, cursor.index()), (TestRunParserState::Done, 14));
}

#[test]
fn no_test_goes_straight_to_the_summary() {
    let records = lines(&["running 0 tests", "test a ... FAILED", EMPTY]);
    let mut cursor = Cursor::new(&records);
    let mut parser = parser();
    assert_eq!(parser.step(&mut cursor), Ok(()));
    assert_eq!(parser.state, TestRunParserState::Results);
    assert_eq!(parser.step(&mut cursor), Ok(()));
    assert_eq!(parser.state, TestRunParserState::Done);
    assert!(parser.test_run.as_ref().unwrap().test_results.is_empty());
}

#[test]
fn declared_count_is_kept_as_it_was_announced() {
    let records = lines(&["running 5 tests", "test a ... ok", "", PASSING, "running 0 tests", EMPTY]);
    let mut cursor = Cursor::new(&records);
    let run = parser().parse(&mut cursor).ok().unwrap();
    assert_eq!(run.test_run.test_count, 5);
    assert_eq!(run.test_run.test_results.len(), 1);
}

#[test]
fn failures_in_both_phases() {
    let records = lines(&[
        "running 2 tests",
        "test a ... FAILED",
        "test b ... FAILED",
        "",
        "failures:",
        "",
        "---- b stdout ----",
        "boom b, src/b.rs:3:4",
        "stack backtrace:",
        "   0: b",
        "",
        "---- a stdout ----",
        "boom a, src/a.rs:1:2",
        "stack backtrace:",
        "   0: a",
        "",
        "",
        "failures:",
        "    a",
        "    b",
        "",
        FAILING,
        "",
        "running 1 test",
        "test src/lib.rs - (line 42) ... FAILED",
        "",
        "failures:",
        "",
        "---- src/lib.rs - (line 42) stdout ----",
        "Test executable failed (exit status: 101).",
        "",
        "stderr:",
        "thread 'main' panicked at 'doc boom', src/lib.rs:4:1",
        "stack backtrace:",
        "   0: main",
        "",
        "failures:",
        "    src/lib.rs - (line 42)",
        "",
        "test result: FAILED. 0 passed; 1 failed; 0 ignored; 0 measured; 0 filtered out; finished in 0.50s",
        "",
    ]);
    let mut cursor = Cursor::new(&records);
    let run = parser().parse(&mut cursor).ok().unwrap();
    assert_eq!(cursor.index(), 40);
    let failed = |r: &cargo_test_annotations::TestResult| matches!(r.result, TestResultValue::Failed(_));
    assert_eq!(run.test_run.test_results.iter().filter(|r| failed(r)).count(), 2);
    assert_eq!(run.test_run.test_summary.failed, 2);
    let a = run.test_run.test_results[0].result.unwrap_failure_ref();
    assert_eq!(a.panic_text, "boom a");
    assert_eq!(a.location.file, "src/a.rs");
    assert_eq!(a.stacktrace, "stack backtrace:\n   0: a");
    let b = run.test_run.test_results[1].result.unwrap_failure_ref();
    assert_eq!(b.panic_text, "boom b");
    assert_eq!(b.location.line, 3);
    assert_eq!(run.doc_test_run.test_count, 1);
    assert_eq!(run.doc_test_run.test_results.iter().filter(|r| failed(r)).count(), 1);
    assert_eq!(run.doc_test_run.test_summary.failed, 1);
    let doc = run.doc_test_run.test_results[0].result.unwrap_failure_ref();
    assert_eq!(
        doc.panic_text,
        "Test executable failed (exit status: 101).\n\nstderr:\nthread 'main' panicked at 'doc boom'"
    );
    assert_eq!(doc.location.file, "src/lib.rs");
    assert_eq!(doc.location.line, 4);
    assert_eq!(doc.location.column, 1);
    assert_eq!(doc.stacktrace, "stack backtrace:\n   0: main");
}

#[test]
fn failed_test_without_a_block() {
    let records = lines(&[
        "running 2 tests",
        "test a ... FAILED",
        "test b ... FAILED",
        "",
        "failures:",
        "---- a stdout ----",
        "boom a, src/a.rs:1:2",
        "stack backtrace:",
        "",
        "failures:",
        "    a",
        "",
        FAILING,
        "running 0 tests",
        EMPTY,
    ]);
    let mut cursor = Cursor::new(&records);
    assert_eq!(parser().parse(&mut cursor).err(), Some(ParseError::MissingFailureInfo));
}

#[test]
fn run_that_ends_early() {
    let cases: Vec<(Vec<&str>, TestRunParserState)> = vec![
        (vec![], TestRunParserState::Initial),
        (vec!["noise"], TestRunParserState::Initial),
        (vec!["running 1 test"], TestRunParserState::Tests),
        (vec!["running 1 test", "test a ... ok"], TestRunParserState::Tests),
        (vec!["running 1 test", "test a ... ok", ""], TestRunParserState::Results),
        (vec!["running 1 test", "test a ... ok", "", PASSING], TestRunParserState::Initial),
        (vec!["running 1 test", "test a ... FAILED", ""], TestRunParserState::FailuresOutput),
        (
            vec![
                "running 1 test", "test a ... FAILED", "", "failures:", "---- a stdout ----",
                "boom, f.rs:1:1", "stack backtrace:", "", "failures:", "    a",
            ],
            TestRunParserState::FailuresListing,
        ),
    ];
    for (texts, state) in cases {
        let records = lines(&texts);
        let mut cursor = Cursor::new(&records);
        assert_eq!(
            parser().parse(&mut cursor).err(),
            Some(ParseError::UnexpectedEnd { state }),
            "{:?}",
            texts
        );
    }
}

#[test]
fn typed_event_in_each_state() {
    let texts = [
        "running 1 test",
        "test a ... FAILED",
        "",
        "failures:",
        "---- a stdout ----",
        "boom, f.rs:1:1",
        "stack backtrace:",
        "",
        "failures:",
        "    a",
        "",
        "test result: FAILED. 0 passed; 1 failed; 0 ignored; 0 measured; 0 filtered out; finished in 0.03s",
        "running 0 tests",
        EMPTY,
    ];
    let expected = [
        (0, TestRunParserState::Initial),
        (1, TestRunParserState::Tests),
        (2, TestRunParserState::Tests),
        (3, TestRunParserState::FailuresOutput),
        (7, TestRunParserState::FailuresOutput),
        (8, TestRunParserState::FailuresOutput),
        (9, TestRunParserState::FailuresListing),
        (10, TestRunParserState::FailuresListing),
        (11, TestRunParserState::Results),
        (12, TestRunParserState::Initial),
        (13, TestRunParserState::Results),
    ];
    for (position, state) in expected {
        let mut records = lines(&texts);
        records[position] = Record::TypedEvent(Event::Other);
        let mut cursor = Cursor::new(&records);
        assert_eq!(
            parser().parse(&mut cursor).err(),
            Some(ParseError::UnexpectedRecord { position, state }),
            "{}",
            position
        );
    }
}

#[test]
fn run_from_a_finished_parser() {
    let mut parser = parser();
    let records = lines(&["running 1 test", "test a ... ok", "", PASSING, "running 0 tests", EMPTY]);
    let mut cursor = Cursor::new(&records);
    assert_eq!(parser.step(&mut cursor), Ok(()));
    assert_eq!(parser.step(&mut cursor), Ok(()));
    assert_eq!(parser.step(&mut cursor), Ok(()));
    assert_eq!(parser.state, TestRunParserState::Done);
    parser.phase = TestRunParserPhase::DocTests;
    parser.state = TestRunParserState::Initial;
    assert_eq!(parser.step(&mut cursor), Ok(()));
    assert_eq!(parser.step(&mut cursor), Ok(()));
    parser.phase = TestRunParserPhase::Done;
    let run = TestRun::from(parser);
    assert_eq!(run.package.name, "demo");
    assert_eq!(run.features, vec!["default".to_string()]);
    assert_eq!(run.test_run.test_results.len(), 1);
    assert_eq!(run.doc_test_run.test_count, 0);
}

#[test]
fn has_failed_and_settled() {
    let mut results = vec![TestResultParseResult::new("a".to_string(), TestResultKind::Passed)];
    assert!(!has_failed(&results));
    assert!(settled(&results));
    results.push(TestResultParseResult::new("b".to_string(), TestResultKind::Failed));
    assert!(has_failed(&results));
    assert!(!settled(&results));
    results[1].failure_info = Some(info());
    assert!(settled(&results));
    assert!(!has_failed(&vec![]));
    assert!(settled(&vec![]));
}

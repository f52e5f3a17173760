use cargo_test_annotations::failure::{
    attach_failure, next_section, parse_failures, split_panic_text, FailureBlockParser,
};
use cargo_test_annotations::{
    Cursor, Event, ParseError, Record, TestFailureInfo, TestFailureLocation, TestResultKind,
    TestResultParseResult, TestRunFailureParserState, TestRunParserState,
};

fn line(text: &str) -> Record {
    Record::TextLine(text.to_string())
}

fn lines(texts: &[&str]) -> Vec<Record> {
    texts.iter().map(|t| line(t)).collect()
}

fn pending(name: &str, kind: TestResultKind) -> TestResultParseResult {
    TestResultParseResult::new(name.to_string(), kind)
}

fn info(text: &str) -> TestFailureInfo {
    TestFailureInfo::new(
        text.to_string(),
        TestFailureLocation { file: "f.rs".to_string(), line: 1, column: 2 },
        "trace".to_string(),
    )
}

#[test]
fn panic_text_is_split_at_its_last_comma() {
    let (message, location) =
        split_panic_text("assertion failed: a == b, src/lib.rs:10:5").unwrap();
    assert_eq!(message, "assertion failed: a == b");
    assert_eq!(location, "src/lib.rs:10:5");
    let parsed = TestFailureLocation::from_str(&location).ok().unwrap();
    assert_eq!(parsed.file, "src/lib.rs");
    assert_eq!(parsed.line, 10);
    assert_eq!(parsed.column, 5);
}

#[test]
fn panic_text_keeps_earlier_commas_and_lines() {
    let (message, location) =
        split_panic_text("thread 'a' panicked at 'left: 1,\nright: 2', src/a.rs:3:9  ").unwrap();
    assert_eq!(message, "thread 'a' panicked at 'left: 1,\nright: 2'");
    assert_eq!(location, "src/a.rs:3:9");
}

#[test]
fn panic_text_needs_a_comma_and_a_space() {
    assert!(split_panic_text("no comma at all").is_none());
    assert!(split_panic_text("").is_none());
    assert!(split_panic_text("message,src/lib.rs:1:1").is_none());
    assert!(split_panic_text("message,").is_none());
    let (message, location) = split_panic_text("message, ").unwrap();
    assert_eq!(message, "message");
    assert_eq!(location, "");
}

#[test]
fn attach_gives_details_to_the_first_of_that_name() {
    let mut results = vec![
        pending("a", TestResultKind::Passed),
        pending("b", TestResultKind::Failed),
        pending("b", TestResultKind::Failed),
    ];
    assert_eq!(attach_failure(&mut results, &"b".to_string(), info("first")), Ok(()));
    assert!(results[0].failure_info.is_none());
    assert_eq!(results[1].failure_info.as_ref().unwrap().panic_text, "first");
    assert!(results[2].failure_info.is_none());
    assert_eq!(attach_failure(&mut results, &"b".to_string(), info("second")), Ok(()));
    assert_eq!(results[1].failure_info.as_ref().unwrap().panic_text, "second");
    assert!(results[2].failure_info.is_none());
}

#[test]
fn attach_refuses_an_unknown_name() {
    let mut results = vec![pending("a", TestResultKind::Failed)];
    assert_eq!(
        attach_failure(&mut results, &"c".to_string(), info("x")),
        Err(ParseError::NoSuchPendingResult)
    );
    assert!(results[0].failure_info.is_none());
    let mut none: Vec<TestResultParseResult> = vec![];
    assert_eq!(
        attach_failure(&mut none, &"a".to_string(), info("x")),
        Err(ParseError::NoSuchPendingResult)
    );
}

#[test]
fn block_goes_through_its_states() {
    let records = lines(&[
        "noise",
        "failures:",
        "",
        "---- b stdout ----",
        "thread 'b' panicked at 'boom', src/lib.rs:10:5",
        "stack backtrace:",
        "   0: frame",
        "",
        "after",
    ]);
    let mut cursor = Cursor::new(&records);
    let mut block = FailureBlockParser::new(TestRunFailureParserState::Initial);
    assert_eq!(block.state, TestRunFailureParserState::Initial);
    assert_eq!(block.step(&mut cursor), Ok(()));
    assert_eq!(block.state, TestRunFailureParserState::Header);
    assert_eq!(cursor.index(), 2);
    assert_eq!(block.step(&mut cursor), Ok(()));
    assert_eq!(block.state, TestRunFailureParserState::Panic);
    assert_eq!(block.name.as_deref(), Some("b"));
    assert_eq!(cursor.index(), 4);
    assert_eq!(block.step(&mut cursor), Ok(()));
    assert_eq!(block.state, TestRunFailureParserState::Stacktrace);
    assert_eq!(block.panic_text.as_deref(), Some("thread 'b' panicked at 'boom'"));
    assert_eq!(block.location.as_deref(), Some("src/lib.rs:10:5"));
    assert_eq!(cursor.index(), 5);
    assert_eq!(block.step(&mut cursor), Ok(()));
    assert_eq!(block.state, TestRunFailureParserState::Done);
    assert_eq!(block.stacktrace.as_deref(), Some("stack backtrace:\n   0: frame"));
    assert_eq!(cursor.index(), 8);
    assert_eq!(block.step(&mut cursor), Ok(()));
    assert_eq!(cursor.index(), 8);
    let (name, failure) = block.finish().ok().unwrap();
    assert_eq!(name, "b");
    assert_eq!(failure.panic_text, "thread 'b' panicked at 'boom'");
    assert_eq!(failure.location.line, 10);
    assert_eq!(failure.location.column, 5);
    assert_eq!(failure.stacktrace, "stack backtrace:\n   0: frame");
}

#[test]
fn block_run_reads_a_whole_block() {
    let records = lines(&[
        "---- a stdout ----",
        "line one",
        "line two, src/a.rs:1:2",
        "stack backtrace:",
        "",
    ]);
    let mut cursor = Cursor::new(&records);
    let mut block = FailureBlockParser::new(TestRunFailureParserState::Header);
    assert_eq!(block.run(&mut cursor), Ok(()));
    assert_eq!(cursor.index(), 5);
    assert_eq!(block.panic_text.as_deref(), Some("line one\nline two"));
    assert_eq!(block.stacktrace.as_deref(), Some("stack backtrace:"));
}

#[test]
fn block_with_a_location_that_is_no_triplet() {
    let records = lines(&["---- a stdout ----", "boom, nowhere", "stack backtrace:", ""]);
    let mut cursor = Cursor::new(&records);
    let mut block = FailureBlockParser::new(TestRunFailureParserState::Header);
    assert_eq!(block.run(&mut cursor), Ok(()));
    assert_eq!(block.finish().err(), Some(ParseError::MalformedLocation));
}

#[test]
fn block_without_a_comma_in_its_panic() {
    let records = lines(&["---- a stdout ----", "boom", "stack backtrace:", ""]);
    let mut cursor = Cursor::new(&records);
    let mut block = FailureBlockParser::new(TestRunFailureParserState::Header);
    assert_eq!(block.run(&mut cursor), Err(ParseError::MalformedLocation));
}

#[test]
fn block_that_ends_early() {
    let state = TestRunParserState::FailuresOutput;
    for texts in [
        vec![],
        vec!["---- a stdout ----"],
        vec!["---- a stdout ----", "boom, f.rs:1:1"],
        vec!["---- a stdout ----", "boom, f.rs:1:1", "stack backtrace:"],
        vec!["---- a stdout ----", "boom, f.rs:1:1", "stack backtrace:", "  0: frame"],
    ] {
        let records = lines(&texts);
        let mut cursor = Cursor::new(&records);
        let mut block = FailureBlockParser::new(TestRunFailureParserState::Header);
        assert_eq!(block.run(&mut cursor), Err(ParseError::UnexpectedEnd { state }));
    }
}

#[test]
fn block_with_a_typed_event_inside() {
    let mut records =
        lines(&["---- a stdout ----", "boom, f.rs:1:1", "more", "stack backtrace:", ""]);
    records[2] = Record::TypedEvent(Event::Other);
    let mut cursor = Cursor::new(&records);
    let mut block = FailureBlockParser::new(TestRunFailureParserState::Header);
    assert_eq!(
        block.run(&mut cursor),
        Err(ParseError::UnexpectedRecord {
            position: 2,
            state: TestRunParserState::FailuresOutput
        })
    );
}

#[test]
fn next_section_finds_header_or_listing() {
    let records = lines(&["", "note", "---- b stdout ----", "x", "failures:", "    b"]);
    let mut cursor = Cursor::new(&records);
    assert_eq!(next_section(&mut cursor), Ok(true));
    assert_eq!(cursor.index(), 2);
    let _ = cursor.advance();
    assert_eq!(next_section(&mut cursor), Ok(false));
    assert_eq!(cursor.index(), 4);
    let _ = cursor.advance();
    assert_eq!(
        next_section(&mut cursor),
        Err(ParseError::UnexpectedEnd { state: TestRunParserState::FailuresOutput })
    );
}

#[test]
fn failure_section_with_two_blocks() {
    let records = lines(&[
        "failures:",
        "",
        "---- b stdout ----",
        "boom b, src/b.rs:1:2",
        "stack backtrace:",
        "   0: b",
        "",
        "note: run with RUST_BACKTRACE=full",
        "---- c stdout ----",
        "boom c, src/c.rs:3:4",
        "stack backtrace:",
        "   0: c",
        "   1: d",
        "",
        "",
        "failures:",
        "    b",
        "    c",
    ]);
    let mut results = vec![
        pending("a", TestResultKind::Passed),
        pending("b", TestResultKind::Failed),
        pending("c", TestResultKind::Failed),
    ];
    let mut cursor = Cursor::new(&records);
    assert_eq!(parse_failures(&mut results, &mut cursor), Ok(()));
    assert_eq!(cursor.index(), 15);
    assert!(results[0].failure_info.is_none());
    let b = results[1].failure_info.as_ref().unwrap();
    assert_eq!(b.panic_text, "boom b");
    assert_eq!(b.location.file, "src/b.rs");
    assert_eq!(b.stacktrace, "stack backtrace:\n   0: b");
    let c = results[2].failure_info.as_ref().unwrap();
    assert_eq!(c.panic_text, "boom c");
    assert_eq!(c.location.line, 3);
    assert_eq!(c.location.column, 4);
    assert_eq!(c.stacktrace, "stack backtrace:\n   0: c\n   1: d");
}

#[test]
fn failure_section_without_its_listing() {
    let records =
        lines(&["failures:", "---- b stdout ----", "boom, f.rs:1:1", "stack backtrace:", "", "x"]);
    let mut results = vec![pending("b", TestResultKind::Failed)];
    let mut cursor = Cursor::new(&records);
    assert_eq!(
        parse_failures(&mut results, &mut cursor),
        Err(ParseError::UnexpectedEnd { state: TestRunParserState::FailuresOutput })
    );
}

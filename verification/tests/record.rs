use cargo_test_annotations::lines::{failures_marker, gather_run, skip_run, Sentinel};
use cargo_test_annotations::{Artifact, Cursor, Event, ParseError, Record, TestRunParserState};

fn line(text: &str) -> Record {
    Record::TextLine(text.to_string())
}

fn text_of(record: Option<&Record>) -> Option<String> {
    match record {
        Some(Record::TextLine(text)) => Some(text.clone()),
        _ => None,
    }
}

#[test]
fn cursor_reads_front_to_back() {
    let records = vec![line("a"), Record::TypedEvent(Event::Other), line("b")];
    let mut cursor = Cursor::new(&records);
    assert_eq!(cursor.index(), 0);
    assert_eq!(text_of(cursor.peek()), Some("a".to_string()));
    assert_eq!(cursor.index(), 0);
    assert_eq!(text_of(cursor.advance()), Some("a".to_string()));
    assert_eq!(cursor.index(), 1);
    assert!(matches!(cursor.peek(), Some(Record::TypedEvent(Event::Other))));
    assert_eq!(cursor.peek_line(), None);
    assert!(cursor.advance().is_some());
    assert_eq!(cursor.peek_line().map(|s| s.as_str()), Some("b"));
    assert_eq!(text_of(cursor.advance()), Some("b".to_string()));
    assert_eq!(cursor.index(), 3);
    assert!(cursor.peek().is_none());
    assert!(cursor.advance().is_none());
    assert_eq!(cursor.index(), 3);
}

#[test]
fn expect_line_reads_text_only() {
    let artifact = Artifact { package_id: "p".to_string(), features: vec![], executable: None };
    let records = vec![line("a"), Record::TypedEvent(Event::CompilerArtifact(artifact))];
    let mut cursor = Cursor::new(&records);
    assert_eq!(
        cursor.peek_expected(TestRunParserState::Tests).map(|s| s.as_str()),
        Ok("a")
    );
    assert_eq!(cursor.expect_line(TestRunParserState::Tests).map(|s| s.as_str()), Ok("a"));
    assert_eq!(
        cursor.expect_line(TestRunParserState::Results).err(),
        Some(ParseError::UnexpectedRecord { position: 1, state: TestRunParserState::Results })
    );
    assert_eq!(cursor.index(), 1);
    let _ = cursor.advance();
    assert_eq!(
        cursor.expect_line(TestRunParserState::Initial).err(),
        Some(ParseError::UnexpectedEnd { state: TestRunParserState::Initial })
    );
    assert_eq!(
        cursor.peek_expected(TestRunParserState::FailuresListing).err(),
        Some(ParseError::UnexpectedEnd { state: TestRunParserState::FailuresListing })
    );
    assert_eq!(cursor.index(), 2);
}

#[test]
fn sentinels_stop_at_their_line() {
    assert!(Sentinel::Backtrace.hit("stack backtrace:"));
    assert!(Sentinel::Backtrace.hit("  stack backtrace:  "));
    assert!(!Sentinel::Backtrace.hit("stack backtrace: 0"));
    assert!(!Sentinel::Backtrace.hit(""));
    assert!(Sentinel::Blank.hit(""));
    assert!(Sentinel::Blank.hit(" \t"));
    assert!(!Sentinel::Blank.hit(" x "));
    assert!(!Sentinel::Never.hit(""));
    assert!(!Sentinel::Never.hit("stack backtrace:"));
    assert!(failures_marker(" failures:"));
    assert!(!failures_marker("failures"));
}

#[test]
fn skip_run_stops_at_sentinel_event_or_end() {
    let records = vec![
        line("a"),
        line("b"),
        line(""),
        line("c"),
        Record::TypedEvent(Event::Other),
        line("d"),
    ];
    let mut cursor = Cursor::new(&records);
    skip_run(&mut cursor, Sentinel::Blank);
    assert_eq!(cursor.index(), 2);
    skip_run(&mut cursor, Sentinel::Blank);
    assert_eq!(cursor.index(), 2);
    skip_run(&mut cursor, Sentinel::Never);
    assert_eq!(cursor.index(), 4);
    let _ = cursor.advance();
    skip_run(&mut cursor, Sentinel::Backtrace);
    assert_eq!(cursor.index(), 6);
}

#[test]
fn gather_run_joins_with_newlines() {
    let records = vec![line("first"), line("second"), line("third"), line("  "), line("after")];
    let mut cursor = Cursor::new(&records);
    let text = gather_run(&mut cursor, TestRunParserState::FailuresOutput, Sentinel::Blank);
    assert_eq!(text, Ok("first\nsecond\nthird".to_string()));
    assert_eq!(cursor.index(), 3);
}

#[test]
fn gather_run_of_no_line_is_the_first_line() {
    let records = vec![line("first"), line("stack backtrace:")];
    let mut cursor = Cursor::new(&records);
    let text = gather_run(&mut cursor, TestRunParserState::FailuresOutput, Sentinel::Backtrace);
    assert_eq!(text, Ok("first".to_string()));
    assert_eq!(cursor.index(), 1);
}

#[test]
fn gather_run_needs_a_first_line() {
    let records = vec![Record::TypedEvent(Event::Other), line("a")];
    let mut cursor = Cursor::new(&records);
    assert_eq!(
        gather_run(&mut cursor, TestRunParserState::FailuresOutput, Sentinel::Blank),
        Err(ParseError::UnexpectedRecord { position: 0, state: TestRunParserState::FailuresOutput })
    );
    assert_eq!(cursor.index(), 0);
    let _ = cursor.advance();
    let _ = cursor.advance();
    assert_eq!(
        gather_run(&mut cursor, TestRunParserState::Tests, Sentinel::Blank),
        Err(ParseError::UnexpectedEnd { state: TestRunParserState::Tests })
    );
}

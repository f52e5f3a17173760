//! The shapes of the lines that the test harness prints, as regular
//! expressions, and what is read from a line of each shape.

use crate::error::ParseError;
use crate::model::{kind_of, SummaryView, TestResultKind, TestSummary};
use crate::text::{parse_unsigned, parse_usize};
use vstd::prelude::*;
use vstd::string::*;

verus! {

/// The error with which `regex::Regex::new` refuses a pattern. Nothing is
/// read from it.
#[verifier::external_type_specification]
#[verifier::external_body]
pub struct ExRegexError(regex::Error);

/// What the regular-expression engine finds when it searches `haystack`
/// for `pattern`: `None` when it refuses the pattern; `Some(None)` when
/// nothing in `haystack` matches; otherwise the text of every capture
/// group of the leftmost match, group 0 (the whole match) first, with
/// `None` for a group that took no part in the match.
pub uninterp spec fn regex_captures(pattern: Seq<char>, haystack: Seq<char>) -> Option<
    Option<Seq<Option<Seq<char>>>>,
>;

/// Compiles `pattern` with `regex::Regex::new` and searches `haystack`
/// with `Regex::captures`, copying out the text of each group that
/// `Captures::iter` yields. The contract claims only that the outcome is
/// the one named by [`regex_captures`]: a function of the two texts.
#[verifier::external_body]
fn captures(pattern: &str, haystack: &str) -> (r: Result<
    Option<Vec<Option<String>>>,
    regex::Error,
>)
    ensures
        match r {
            Ok(found) => regex_captures(pattern@, haystack@) == Some(found.deep_view()),
            Err(_) => regex_captures(pattern@, haystack@) is None,
        },
{
    let re = regex::Regex::new(pattern)?;
    Ok(re.captures(haystack).map(|c| c.iter().map(|m| m.map(|m| m.as_str().to_owned())).collect()))
}

/// The capture groups of the leftmost match of `pattern` in `text`, if
/// there is a match.
pub open spec fn groups_of(pattern: Seq<char>, text: Seq<char>) -> Result<
    Option<Seq<Option<Seq<char>>>>,
    ParseError,
> {
    match regex_captures(pattern, text) {
        Some(found) => Ok(found),
        None => Err(ParseError::PatternRejected),
    }
}

/// Searches `text` for `pattern`. The pattern is compiled at each call.
pub fn find_groups(pattern: &str, text: &str) -> (r: Result<
    Option<Vec<Option<String>>>,
    ParseError,
>)
    ensures
        match r {
            Ok(found) => groups_of(pattern@, text@) == Ok::<_, ParseError>(found.deep_view()),
            Err(e) => groups_of(pattern@, text@) == Err::<Option<Seq<Option<Seq<char>>>>, _>(e),
        },
{
    match captures(pattern, text) {
        Ok(found) => Ok(found),
        Err(_) => Err(ParseError::PatternRejected),
    }
}

/// A line that announces how many tests will run.
pub const RUNNING_PATTERN: &'static str = r"running (?P<count>\d+) tests?";

/// A line that reports one test.
pub const TEST_PATTERN: &'static str = r"test (?P<name>.+?) ... (?P<result>ok|FAILED)";

/// The line that closes a phase.
pub const RESULT_PATTERN: &'static str =
    r"test result: (?P<result>ok|FAILED). (?P<passed>\d+) passed; (?P<failed>\d+) failed; (?P<ignored>\d+) ignored; (?P<measured>\d+) measured; (?P<filtered>\d+) filtered out; finished in (?P<time>.+)";

/// The line that opens the block of one failed test.
pub const FAILURE_HEADER_PATTERN: &'static str = r"---- (?P<name>.+?) stdout ----";

/// The text of capture group `i`, if the match has such a group and it
/// took part in the match.
pub open spec fn group(groups: Seq<Option<Seq<char>>>, i: int) -> Option<Seq<char>> {
    if 0 <= i < groups.len() {
        groups[i]
    } else {
        None
    }
}

/// The text of capture group `i`.
pub fn group_text(groups: &Vec<Option<String>>, i: usize) -> (r: Option<&String>)
    ensures
        match r {
            Some(t) => group(groups.deep_view(), i as int) == Some(t@),
            None => group(groups.deep_view(), i as int) is None,
        },
{
    if i < groups.len() {
        match &groups[i] {
            Some(t) => Some(t),
            None => None,
        }
    } else {
        None
    }
}

/// A count field: a number that fits in `usize`.
pub open spec fn count_field(groups: Seq<Option<Seq<char>>>, i: int) -> Option<usize> {
    match group(groups, i) {
        Some(t) => match parse_unsigned(t, usize::MAX as nat) {
            Some(n) => Some(n as usize),
            None => None,
        },
        None => None,
    }
}

/// Reads the count in capture group `i`.
pub fn read_count(groups: &Vec<Option<String>>, i: usize) -> (r: Option<usize>)
    ensures
        r == count_field(groups.deep_view(), i as int),
{
    match group_text(groups, i) {
        Some(t) => parse_usize(t.as_str()),
        None => None,
    }
}

/// An outcome field: `ok` or `FAILED`.
pub open spec fn kind_field(groups: Seq<Option<Seq<char>>>, i: int) -> Result<
    TestResultKind,
    ParseError,
> {
    match group(groups, i) {
        Some(t) => match kind_of(t) {
            Some(kind) => Ok(kind),
            None => Err(ParseError::UnknownOutcomeToken),
        },
        None => Err(ParseError::MalformedResultLine),
    }
}

/// Reads the outcome in capture group `i`.
pub fn read_kind(groups: &Vec<Option<String>>, i: usize) -> (r: Result<TestResultKind, ParseError>)
    ensures
        r == kind_field(groups.deep_view(), i as int),
{
    match group_text(groups, i) {
        Some(t) => match TestResultKind::from_str(t.as_str()) {
            Ok(kind) => Ok(kind),
            Err(_) => Err(ParseError::UnknownOutcomeToken),
        },
        None => Err(ParseError::MalformedResultLine),
    }
}

/// The number of tests that the groups of a running line declare.
pub open spec fn declared_count(groups: Seq<Option<Seq<char>>>) -> Result<usize, ParseError> {
    match count_field(groups, 1) {
        Some(n) => Ok(n),
        None => Err(ParseError::MalformedCount),
    }
}

/// What a line says in the `Initial` state: nothing (`Ok(None)`), the
/// declared number of tests, or a number that cannot be read.
pub open spec fn running_shape(text: Seq<char>) -> Result<Option<usize>, ParseError> {
    match groups_of(RUNNING_PATTERN@, text) {
        Err(e) => Err(e),
        Ok(None) => Ok(None),
        Ok(Some(groups)) => match declared_count(groups) {
            Ok(n) => Ok(Some(n)),
            Err(e) => Err(e),
        },
    }
}

/// Reads the declared number of tests from the groups of a running line.
pub fn read_declared_count(groups: &Vec<Option<String>>) -> (r: Result<usize, ParseError>)
    ensures
        r == declared_count(groups.deep_view()),
{
    match read_count(groups, 1) {
        Some(n) => Ok(n),
        None => Err(ParseError::MalformedCount),
    }
}

/// Reads a line in the `Initial` state.
pub fn match_running(text: &str) -> (r: Result<Option<usize>, ParseError>)
    ensures
        r == running_shape(text@),
{
    match find_groups(RUNNING_PATTERN, text)? {
        None => Ok(None),
        Some(groups) => Ok(Some(read_declared_count(&groups)?)),
    }
}

/// The name and outcome that the groups of a test line hold.
pub open spec fn reported_test(groups: Seq<Option<Seq<char>>>) -> Result<
    (Seq<char>, TestResultKind),
    ParseError,
> {
    match group(groups, 1) {
        None => Err(ParseError::MalformedResultLine),
        Some(name) => match kind_field(groups, 2) {
            Ok(kind) => Ok((name, kind)),
            Err(e) => Err(e),
        },
    }
}

/// What a line says in the `Tests` state: that it reports no test
/// (`Ok(None)`), the name and outcome of one test, or a report that
/// cannot be read.
pub open spec fn test_shape(text: Seq<char>) -> Result<
    Option<(Seq<char>, TestResultKind)>,
    ParseError,
> {
    match groups_of(TEST_PATTERN@, text) {
        Err(e) => Err(e),
        Ok(None) => Ok(None),
        Ok(Some(groups)) => match reported_test(groups) {
            Ok(test) => Ok(Some(test)),
            Err(e) => Err(e),
        },
    }
}

/// Reads name and outcome from the groups of a test line.
pub fn read_reported_test(groups: &Vec<Option<String>>) -> (r: Result<
    (String, TestResultKind),
    ParseError,
>)
    ensures
        match r {
            Ok(test) => reported_test(groups.deep_view()) == Ok::<_, ParseError>(
                (test.0@, test.1),
            ),
            Err(e) => reported_test(groups.deep_view()) == Err::<(Seq<char>, TestResultKind), _>(
                e,
            ),
        },
{
    match group_text(groups, 1) {
        None => Err(ParseError::MalformedResultLine),
        Some(name) => {
            let kind = read_kind(groups, 2)?;
            Ok((name.clone(), kind))
        },
    }
}

/// Reads a line in the `Tests` state.
pub fn match_test(text: &str) -> (r: Result<Option<(String, TestResultKind)>, ParseError>)
    ensures
        match r {
            Ok(Some(test)) => test_shape(text@) == Ok::<_, ParseError>(
                Some((test.0@, test.1)),
            ),
            Ok(None) => test_shape(text@) == Ok::<Option<(Seq<char>, TestResultKind)>, ParseError>(
                None,
            ),
            Err(e) => test_shape(text@) == Err::<Option<(Seq<char>, TestResultKind)>, _>(e),
        },
{
    match find_groups(TEST_PATTERN, text)? {
        None => Ok(None),
        Some(groups) => Ok(Some(read_reported_test(&groups)?)),
    }
}

/// The summary that the groups of a closing line hold. The outcome is
/// read first, then the five counts in the order in which they are
/// printed, then the elapsed time.
pub open spec fn reported_summary(groups: Seq<Option<Seq<char>>>) -> Result<
    SummaryView,
    ParseError,
> {
    match kind_field(groups, 1) {
        Err(e) => Err(e),
        Ok(result) => match (
            count_field(groups, 2),
            count_field(groups, 3),
            count_field(groups, 4),
            count_field(groups, 5),
            count_field(groups, 6),
            group(groups, 7),
        ) {
            (
                Some(passed),
                Some(failed),
                Some(ignored),
                Some(measured),
                Some(filtered),
                Some(time),
            ) => Ok(SummaryView { result, passed, failed, ignored, measured, filtered, time }),
            _ => Err(ParseError::MalformedResultLine),
        },
    }
}

/// What a line says in the `Results` state: that it closes nothing
/// (`Ok(None)`), the summary of the phase, or a summary that cannot be
/// read.
pub open spec fn summary_shape(text: Seq<char>) -> Result<Option<SummaryView>, ParseError> {
    match groups_of(RESULT_PATTERN@, text) {
        Err(e) => Err(e),
        Ok(None) => Ok(None),
        Ok(Some(groups)) => match reported_summary(groups) {
            Ok(summary) => Ok(Some(summary)),
            Err(e) => Err(e),
        },
    }
}

/// Reads the summary from the groups of a closing line.
pub fn read_reported_summary(groups: &Vec<Option<String>>) -> (r: Result<TestSummary, ParseError>)
    ensures
        match r {
            Ok(summary) => reported_summary(groups.deep_view()) == Ok::<_, ParseError>(
                summary.deep_view(),
            ),
            Err(e) => reported_summary(groups.deep_view()) == Err::<SummaryView, _>(e),
        },
{
    let result = read_kind(groups, 1)?;
    let passed = read_count(groups, 2);
    let failed = read_count(groups, 3);
    let ignored = read_count(groups, 4);
    let measured = read_count(groups, 5);
    let filtered = read_count(groups, 6);
    let time = group_text(groups, 7);
    match (passed, failed, ignored, measured, filtered, time) {
        (Some(passed), Some(failed), Some(ignored), Some(measured), Some(filtered), Some(time)) => {
            Ok(TestSummary::new(result, passed, failed, ignored, measured, filtered, time.clone()))
        },
        _ => Err(ParseError::MalformedResultLine),
    }
}

/// Reads a line in the `Results` state.
pub fn match_summary(text: &str) -> (r: Result<Option<TestSummary>, ParseError>)
    ensures
        match r {
            Ok(found) => summary_shape(text@) == Ok::<_, ParseError>(found.deep_view()),
            Err(e) => summary_shape(text@) == Err::<Option<SummaryView>, _>(e),
        },
{
    match find_groups(RESULT_PATTERN, text)? {
        None => Ok(None),
        Some(groups) => Ok(Some(read_reported_summary(&groups)?)),
    }
}

/// The test that the groups of a failure header name.
pub open spec fn headed_test(groups: Seq<Option<Seq<char>>>) -> Result<Seq<char>, ParseError> {
    match group(groups, 1) {
        Some(name) => Ok(name),
        None => Err(ParseError::MalformedResultLine),
    }
}

/// What a line says where a failure header may stand: that it is none
/// (`Ok(None)`), or the name of the failed test.
pub open spec fn header_shape(text: Seq<char>) -> Result<Option<Seq<char>>, ParseError> {
    match groups_of(FAILURE_HEADER_PATTERN@, text) {
        Err(e) => Err(e),
        Ok(None) => Ok(None),
        Ok(Some(groups)) => match headed_test(groups) {
            Ok(name) => Ok(Some(name)),
            Err(e) => Err(e),
        },
    }
}

/// Reads the test's name from the groups of a failure header.
pub fn read_headed_test(groups: &Vec<Option<String>>) -> (r: Result<String, ParseError>)
    ensures
        match r {
            Ok(name) => headed_test(groups.deep_view()) == Ok::<_, ParseError>(name@),
            Err(e) => headed_test(groups.deep_view()) == Err::<Seq<char>, _>(e),
        },
{
    match group_text(groups, 1) {
        Some(name) => Ok(name.clone()),
        None => Err(ParseError::MalformedResultLine),
    }
}

/// Reads a line where a failure header may stand.
pub fn match_header(text: &str) -> (r: Result<Option<String>, ParseError>)
    ensures
        match r {
            Ok(found) => header_shape(text@) == Ok::<_, ParseError>(found.deep_view()),
            Err(e) => header_shape(text@) == Err::<Option<Seq<char>>, _>(e),
        },
{
    match find_groups(FAILURE_HEADER_PATTERN, text)? {
        None => Ok(None),
        Some(groups) => Ok(Some(read_headed_test(&groups)?)),
    }
}

} // verus!

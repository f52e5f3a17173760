//! The typed report: test runs, their results, and what is known of each
//! failure.

use crate::text::{
    chars_of, find_char_from, first_index_of, parse_u64_range, parse_unsigned, substring,
};
use vstd::prelude::*;
use vstd::string::*;

verus! {

/// Whether a test, or a whole phase, passed or failed.
#[derive(Clone, Copy, Debug, PartialEq, Eq, Structural)]
pub enum TestResultKind {
    Passed,
    Failed,
}

/// The outcome token that could not be read.
#[derive(Debug)]
pub struct TestResultKindParseError(pub String);

/// What opens the message of a [`TestResultKindParseError`].
pub const UNKNOWN_RESULT: &'static str = "Unknown test result: ";

impl TestResultKindParseError {
    /// The error in words: what went wrong, and the token.
    pub fn message(&self) -> (r: String)
        ensures
            r@ == UNKNOWN_RESULT@ + self.0@,
    {
        let mut message = String::from_str(UNKNOWN_RESULT);
        message.append(self.0.as_str());
        message
    }
}

/// The outcome that the token `s` names.
pub open spec fn kind_of(s: Seq<char>) -> Option<TestResultKind> {
    if s == "ok"@ {
        Some(TestResultKind::Passed)
    } else if s == "FAILED"@ {
        Some(TestResultKind::Failed)
    } else {
        None
    }
}

impl TestResultKind {
    /// Reads an outcome token: `ok` or `FAILED`, nothing else.
    pub fn from_str(s: &str) -> (r: Result<TestResultKind, TestResultKindParseError>)
        ensures
            match r {
                Ok(kind) => kind_of(s@) == Some(kind),
                Err(e) => kind_of(s@) is None && e.0@ == s@,
            },
    {
        let token = String::from_str(s);
        if token == String::from_str("ok") {
            Ok(TestResultKind::Passed)
        } else if token == String::from_str("FAILED") {
            Ok(TestResultKind::Failed)
        } else {
            Err(TestResultKindParseError(token))
        }
    }
}

/// Where in the sources a failure was raised.
#[derive(Clone, Debug)]
pub struct TestFailureLocation {
    pub file: String,
    pub line: u64,
    pub column: u64,
}

/// The mathematical content of a [`TestFailureLocation`].
pub struct LocationView {
    pub file: Seq<char>,
    pub line: u64,
    pub column: u64,
}

impl DeepView for TestFailureLocation {
    type V = LocationView;

    open spec fn deep_view(&self) -> LocationView {
        LocationView { file: self.file@, line: self.line, column: self.column }
    }
}

/// The location text that could not be read.
#[derive(Debug)]
pub struct TestFailureLocationParseError(pub String);

/// What opens the message of a [`TestFailureLocationParseError`].
pub const UNKNOWN_LOCATION: &'static str = "Unknown location format: ";

impl TestFailureLocationParseError {
    /// The error in words: what went wrong, and the text.
    pub fn message(&self) -> (r: String)
        ensures
            r@ == UNKNOWN_LOCATION@ + self.0@,
    {
        let mut message = String::from_str(UNKNOWN_LOCATION);
        message.append(self.0.as_str());
        message
    }
}

/// The part of `s` before its first colon, or all of it.
pub open spec fn first_field(s: Seq<char>) -> Seq<char> {
    match first_index_of(s, ':') {
        Some(i) => s.take(i),
        None => s,
    }
}

/// The part of `s` after its first colon, if it has one.
pub open spec fn later_fields(s: Seq<char>) -> Option<Seq<char>> {
    match first_index_of(s, ':') {
        Some(i) => Some(s.skip(i + 1)),
        None => None,
    }
}

/// Reads a field as a `u64`.
pub open spec fn number_field(s: Seq<char>) -> Option<u64> {
    match parse_unsigned(s, u64::MAX as nat) {
        Some(n) => Some(n as u64),
        None => None,
    }
}

/// The location that a `file:line:column` text describes: the first three
/// colon-separated fields, of which the second and third are numbers.
/// Further fields are ignored.
pub open spec fn location_of(s: Seq<char>) -> Option<LocationView> {
    match later_fields(s) {
        None => None,
        Some(rest) => match (number_field(first_field(rest)), later_fields(rest)) {
            (Some(line), Some(last)) => match number_field(first_field(last)) {
                Some(column) => Some(LocationView { file: first_field(s), line, column }),
                None => None,
            },
            _ => None,
        },
    }
}

impl TestFailureLocation {
    /// Reads a `file:line:column` triplet.
    pub fn from_str(s: &str) -> (r: Result<TestFailureLocation, TestFailureLocationParseError>)
        ensures
            match r {
                Ok(location) => location_of(s@) == Some(location.deep_view()),
                Err(e) => location_of(s@) is None && e.0@ == s@,
            },
    {
        let v = chars_of(s);
        assert(v@.skip(0) =~= v@);
        let file_end = match find_char_from(&v, 0, ':') {
            Some(i) => i,
            None => { return Err(TestFailureLocationParseError(String::from_str(s))); },
        };
        let ghost rest = v@.skip(file_end + 1);
        let line_end = match find_char_from(&v, file_end + 1, ':') {
            Some(i) => i,
            None => { return Err(TestFailureLocationParseError(String::from_str(s))); },
        };
        assert(rest.take(line_end - file_end - 1) =~= v@.subrange(
            file_end + 1,
            line_end as int,
        ));
        let line = match parse_u64_range(&v, file_end + 1, line_end) {
            Some(n) => n,
            None => { return Err(TestFailureLocationParseError(String::from_str(s))); },
        };
        let ghost last = v@.skip(line_end + 1);
        assert(rest.skip(line_end - file_end) =~= last);
        let column_end = match find_char_from(&v, line_end + 1, ':') {
            Some(i) => i,
            None => v.len(),
        };
        assert(first_field(last) =~= v@.subrange(line_end + 1, column_end as int));
        let column = match parse_u64_range(&v, line_end + 1, column_end) {
            Some(n) => n,
            None => { return Err(TestFailureLocationParseError(String::from_str(s))); },
        };
        Ok(TestFailureLocation { file: substring(s, 0, file_end), line, column })
    }
}

/// What is known of one failure: the panic message, where it was raised, and
/// the stack trace.
#[derive(Clone, Debug)]
pub struct TestFailureInfo {
    pub panic_text: String,
    pub location: TestFailureLocation,
    pub stacktrace: String,
}

/// The mathematical content of a [`TestFailureInfo`].
pub struct FailureView {
    pub panic_text: Seq<char>,
    pub location: LocationView,
    pub stacktrace: Seq<char>,
}

impl DeepView for TestFailureInfo {
    type V = FailureView;

    open spec fn deep_view(&self) -> FailureView {
        FailureView {
            panic_text: self.panic_text@,
            location: self.location.deep_view(),
            stacktrace: self.stacktrace@,
        }
    }
}

impl TestFailureInfo {
    pub fn new(panic_text: String, location: TestFailureLocation, stacktrace: String) -> (r: Self)
        ensures
            r.panic_text == panic_text,
            r.location == location,
            r.stacktrace == stacktrace,
    {
        Self { panic_text, location, stacktrace }
    }
}

/// The closing line of a phase: its outcome, five counts and the elapsed
/// time as it was printed.
#[derive(Clone, Debug)]
pub struct TestSummary {
    pub result: TestResultKind,
    pub passed: usize,
    pub failed: usize,
    pub ignored: usize,
    pub measured: usize,
    pub filtered: usize,
    pub time: String,
}

/// The mathematical content of a [`TestSummary`].
pub struct SummaryView {
    pub result: TestResultKind,
    pub passed: usize,
    pub failed: usize,
    pub ignored: usize,
    pub measured: usize,
    pub filtered: usize,
    pub time: Seq<char>,
}

impl DeepView for TestSummary {
    type V = SummaryView;

    open spec fn deep_view(&self) -> SummaryView {
        SummaryView {
            result: self.result,
            passed: self.passed,
            failed: self.failed,
            ignored: self.ignored,
            measured: self.measured,
            filtered: self.filtered,
            time: self.time@,
        }
    }
}

impl TestSummary {
    pub fn new(
        result: TestResultKind,
        passed: usize,
        failed: usize,
        ignored: usize,
        measured: usize,
        filtered: usize,
        time: String,
    ) -> (r: Self)
        ensures
            r.result == result,
            r.passed == passed,
            r.failed == failed,
            r.ignored == ignored,
            r.measured == measured,
            r.filtered == filtered,
            r.time == time,
    {
        Self { result, passed, failed, ignored, measured, filtered, time }
    }
}

/// The outcome of one test; a failure always comes with its details.
#[derive(Clone, Debug)]
pub enum TestResultValue {
    Passed,
    Failed(TestFailureInfo),
}

/// The mathematical content of a [`TestResultValue`].
pub enum ValueView {
    Passed,
    Failed(FailureView),
}

impl DeepView for TestResultValue {
    type V = ValueView;

    open spec fn deep_view(&self) -> ValueView {
        match self {
            TestResultValue::Passed => ValueView::Passed,
            TestResultValue::Failed(info) => ValueView::Failed(info.deep_view()),
        }
    }
}

impl TestResultValue {
    /// The details of a failure. Only a failed outcome has any.
    pub fn unwrap_failure(self) -> (failure: TestFailureInfo)
        requires
            self is Failed,
        ensures
            self == TestResultValue::Failed(failure),
    {
        match self {
            TestResultValue::Failed(failure) => failure,
            TestResultValue::Passed => unreached(),
        }
    }

    /// The details of a failure, borrowed. Only a failed outcome has any.
    pub fn unwrap_failure_ref(&self) -> (failure: &TestFailureInfo)
        requires
            self is Failed,
        ensures
            *self == TestResultValue::Failed(*failure),
    {
        match self {
            TestResultValue::Failed(failure) => failure,
            TestResultValue::Passed => unreached(),
        }
    }
}

/// A test as it stands while its phase is still being read: a failed one
/// waits for the details that the failure section brings.
#[derive(Clone, Debug)]
pub struct TestResultParseResult {
    pub name: String,
    pub kind: TestResultKind,
    pub failure_info: Option<TestFailureInfo>,
}

/// The mathematical content of a [`TestResultParseResult`].
pub struct PendingView {
    pub name: Seq<char>,
    pub kind: TestResultKind,
    pub failure_info: Option<FailureView>,
}

impl DeepView for TestResultParseResult {
    type V = PendingView;

    open spec fn deep_view(&self) -> PendingView {
        PendingView {
            name: self.name@,
            kind: self.kind,
            failure_info: self.failure_info.deep_view(),
        }
    }
}

impl TestResultParseResult {
    pub fn new(name: String, kind: TestResultKind) -> (r: Self)
        ensures
            r.name == name,
            r.kind == kind,
            r.failure_info is None,
    {
        Self { name, kind, failure_info: None }
    }
}

/// One test of a phase, by name, with its outcome.
#[derive(Clone, Debug)]
pub struct TestResult {
    pub name: String,
    pub result: TestResultValue,
}

/// The mathematical content of a [`TestResult`].
pub struct ResultView {
    pub name: Seq<char>,
    pub result: ValueView,
}

impl DeepView for TestResult {
    type V = ResultView;

    open spec fn deep_view(&self) -> ResultView {
        ResultView { name: self.name@, result: self.result.deep_view() }
    }
}

impl PendingView {
    /// A pending result is settled once a failed one has its details.
    pub open spec fn settled(self) -> bool {
        self.kind is Failed ==> self.failure_info is Some
    }

    /// The final result that a settled pending result becomes. Details
    /// that came for a passed test are dropped.
    pub open spec fn finished(self) -> ResultView {
        ResultView {
            name: self.name,
            result: match self.kind {
                TestResultKind::Passed => ValueView::Passed,
                TestResultKind::Failed => ValueView::Failed(self.failure_info->0),
            },
        }
    }
}

/// Every pending result of `results` is settled.
pub open spec fn all_settled(results: Seq<PendingView>) -> bool {
    forall|i: int| 0 <= i < results.len() ==> (#[trigger] results[i]).settled()
}

/// The final results that settled pending results become, in order.
pub open spec fn finished_results(results: Seq<PendingView>) -> Seq<ResultView> {
    Seq::new(results.len(), |i: int| results[i].finished())
}

impl TestResult {
    /// Turns a settled pending result into a final one.
    pub fn from(t: TestResultParseResult) -> (r: Self)
        requires
            t.deep_view().settled(),
        ensures
            r.deep_view() == t.deep_view().finished(),
    {
        let TestResultParseResult { name, kind, failure_info } = t;
        let result = match kind {
            TestResultKind::Passed => TestResultValue::Passed,
            TestResultKind::Failed => TestResultValue::Failed(failure_info.unwrap()),
        };
        Self { name, result }
    }
}

/// A phase as it stands once its closing line was read, its results still
/// pending.
#[derive(Clone, Debug)]
pub struct TestDataParseResult {
    pub test_count: usize,
    pub test_results: Vec<TestResultParseResult>,
    pub test_summary: TestSummary,
}

/// The mathematical content of a [`TestDataParseResult`].
pub struct PendingDataView {
    pub test_count: usize,
    pub test_results: Seq<PendingView>,
    pub test_summary: SummaryView,
}

impl DeepView for TestDataParseResult {
    type V = PendingDataView;

    open spec fn deep_view(&self) -> PendingDataView {
        PendingDataView {
            test_count: self.test_count,
            test_results: self.test_results.deep_view(),
            test_summary: self.test_summary.deep_view(),
        }
    }
}

impl TestDataParseResult {
    pub fn new(
        test_count: usize,
        test_results: Vec<TestResultParseResult>,
        test_summary: TestSummary,
    ) -> (r: Self)
        ensures
            r.test_count == test_count,
            r.test_results == test_results,
            r.test_summary == test_summary,
    {
        Self { test_count, test_results, test_summary }
    }
}

/// One phase of a run: the declared number of tests, the tests that were
/// seen, and the closing summary.
#[derive(Clone, Debug)]
pub struct TestData {
    pub test_count: usize,
    pub test_results: Vec<TestResult>,
    pub test_summary: TestSummary,
}

/// The mathematical content of a [`TestData`].
pub struct DataView {
    pub test_count: usize,
    pub test_results: Seq<ResultView>,
    pub test_summary: SummaryView,
}

impl DeepView for TestData {
    type V = DataView;

    open spec fn deep_view(&self) -> DataView {
        DataView {
            test_count: self.test_count,
            test_results: self.test_results.deep_view(),
            test_summary: self.test_summary.deep_view(),
        }
    }
}

impl PendingDataView {
    /// The final phase that a pending phase with settled results becomes.
    pub open spec fn finished(self) -> DataView {
        DataView {
            test_count: self.test_count,
            test_results: finished_results(self.test_results),
            test_summary: self.test_summary,
        }
    }
}

impl TestData {
    /// Turns a pending phase whose results are all settled into a final
    /// one.
    pub fn from(r: TestDataParseResult) -> (data: Self)
        requires
            all_settled(r.deep_view().test_results),
        ensures
            data.deep_view() == r.deep_view().finished(),
    {
        let TestDataParseResult { test_count, test_results, test_summary } = r;
        let ghost items = test_results@;
        let ghost pending = test_results.deep_view();
        let mut results: Vec<TestResult> = Vec::new();
        for t in it: test_results
            invariant
                it.seq() == items,
                pending == Seq::new(items.len(), |i: int| items[i].deep_view()),
                all_settled(pending),
                results.len() == it.index(),
                forall|k: int|
                    0 <= k < results.len() ==> (#[trigger] results[k]).deep_view()
                        == pending[k].finished(),
        {
            assert(pending[it.index() as int].settled());
            results.push(TestResult::from(t));
        }
        assert(results.deep_view() =~= finished_results(pending));
        Self { test_count, test_results: results, test_summary }
    }
}

/// The package that a run belongs to.
#[derive(Debug)]
pub struct Package {
    pub id: String,
    pub name: String,
    pub version: String,
}

/// The mathematical content of a [`Package`].
pub struct PackageView {
    pub id: Seq<char>,
    pub name: Seq<char>,
    pub version: Seq<char>,
}

impl DeepView for Package {
    type V = PackageView;

    open spec fn deep_view(&self) -> PackageView {
        PackageView { id: self.id@, name: self.name@, version: self.version@ }
    }
}

impl Clone for Package {
    fn clone(&self) -> (r: Self)
        ensures
            r.deep_view() == self.deep_view(),
    {
        Package { id: self.id.clone(), name: self.name.clone(), version: self.version.clone() }
    }
}

/// A copy of a list of strings.
pub fn clone_strings(v: &Vec<String>) -> (r: Vec<String>)
    ensures
        r.deep_view() == v.deep_view(),
{
    let mut r: Vec<String> = Vec::new();
    let mut i: usize = 0;
    while i < v.len()
        invariant
            i <= v.len(),
            r.len() == i,
            forall|k: int| 0 <= k < i ==> (#[trigger] r[k])@ == v[k]@,
        decreases v.len() - i,
    {
        r.push(v[i].clone());
        i += 1;
    }
    r
}

/// The package in `packages` that has the identifier `id`: the first one,
/// should there be several.
pub open spec fn package_with_id(packages: Seq<PackageView>, id: Seq<char>) -> Option<
    PackageView,
>
    decreases packages.len(),
{
    if packages.len() == 0 {
        None
    } else if packages[0].id == id {
        Some(packages[0])
    } else {
        package_with_id(packages.drop_first(), id)
    }
}

/// Looks a package up by its identifier.
pub fn find_package<'a>(packages: &'a Vec<Package>, id: &String) -> (r: Option<&'a Package>)
    ensures
        r.deep_view() == package_with_id(packages.deep_view(), id@),
{
    let ghost all = packages.deep_view();
    let mut i: usize = 0;
    assert(all.skip(0) =~= all);
    while i < packages.len()
        invariant
            i <= packages.len(),
            all == packages.deep_view(),
            package_with_id(all, id@) == package_with_id(all.skip(i as int), id@),
        decreases packages.len() - i,
    {
        if packages[i].id == *id {
            return Some(&packages[i]);
        }
        assert(all.skip(i as int).drop_first() =~= all.skip(i as int + 1));
        i += 1;
    }
    None
}

/// The tests of one build artifact: the package it was built from, the
/// features it was built with, its plain tests and its documentation
/// tests.
#[derive(Clone, Debug)]
pub struct TestRun {
    pub package: Package,
    pub features: Vec<String>,
    pub test_run: TestData,
    pub doc_test_run: TestData,
}

/// The mathematical content of a [`TestRun`].
pub struct RunView {
    pub package: PackageView,
    pub features: Seq<Seq<char>>,
    pub test_run: DataView,
    pub doc_test_run: DataView,
}

impl DeepView for TestRun {
    type V = RunView;

    open spec fn deep_view(&self) -> RunView {
        RunView {
            package: self.package.deep_view(),
            features: self.features.deep_view(),
            test_run: self.test_run.deep_view(),
            doc_test_run: self.doc_test_run.deep_view(),
        }
    }
}

} // verus!

//! The machine that reads the two phases of one run: plain tests, then
//! documentation tests.

use crate::error::ParseError;
use crate::failure::{failure_blocks, lemma_failure_blocks, parse_failures};
use crate::lines::{lemma_run_end, run_end, skip_run, Sentinel};
use crate::model::{
    all_settled, PackageView, Package, PendingDataView, PendingView, RunView, SummaryView,
    TestData, TestDataParseResult, TestResultKind, TestResultParseResult, TestRun,
};
use crate::pattern::{
    match_running, match_summary, match_test, running_shape, summary_shape, test_shape,
};
use crate::record::{expect_line, Cursor, RecordView};
use crate::state::{TestRunFailureParserState, TestRunParserPhase, TestRunParserState};
use vstd::prelude::*;
use vstd::string::*;

verus! {

impl TestRunParserState {
    /// The number of transitions that may still follow this state.
    pub open spec fn rank(self) -> nat {
        match self {
            TestRunParserState::Initial => 5,
            TestRunParserState::Tests => 4,
            TestRunParserState::FailuresOutput => 3,
            TestRunParserState::FailuresListing => 2,
            TestRunParserState::Results => 1,
            TestRunParserState::Done => 0,
        }
    }
}

impl TestRunParserPhase {
    /// The number of phases that are still to be read.
    pub open spec fn rank(self) -> nat {
        match self {
            TestRunParserPhase::Tests => 2,
            TestRunParserPhase::DocTests => 1,
            TestRunParserPhase::Done => 0,
        }
    }
}

/// The position of the first line at or after `pos` that announces a
/// number of tests, and that number. Only text lines may come before it.
pub open spec fn running_position(records: Seq<RecordView>, pos: int) -> Result<
    (int, usize),
    ParseError,
>
    decreases records.len() - pos,
{
    match expect_line(records, pos, TestRunParserState::Initial) {
        Err(e) => Err(e),
        Ok(text) => match running_shape(text) {
            Err(e) => Err(e),
            Ok(Some(count)) => Ok((pos, count)),
            Ok(None) => running_position(records, pos + 1),
        },
    }
}

/// The pending result that a test line brings.
pub open spec fn pending(name: Seq<char>, kind: TestResultKind) -> PendingView {
    PendingView { name, kind, failure_info: None }
}

/// The test lines that stand at `pos` and after it, each added to
/// `results` as a pending result, and the position of the text line that
/// ends them: the first that reports no test.
pub open spec fn collected_tests(
    results: Seq<PendingView>,
    records: Seq<RecordView>,
    pos: int,
) -> Result<(Seq<PendingView>, int), ParseError>
    decreases records.len() - pos,
{
    match expect_line(records, pos, TestRunParserState::Tests) {
        Err(e) => Err(e),
        Ok(text) => match test_shape(text) {
            Err(e) => Err(e),
            Ok(Some((name, kind))) => collected_tests(
                results.push(pending(name, kind)),
                records,
                pos + 1,
            ),
            Ok(None) => Ok((results, pos)),
        },
    }
}

/// The position of the first line at or after `pos` that closes a phase,
/// and the summary that it holds. Only text lines may come before it.
pub open spec fn summary_position(records: Seq<RecordView>, pos: int) -> Result<
    (int, SummaryView),
    ParseError,
>
    decreases records.len() - pos,
{
    match expect_line(records, pos, TestRunParserState::Results) {
        Err(e) => Err(e),
        Ok(text) => match summary_shape(text) {
            Err(e) => Err(e),
            Ok(Some(summary)) => Ok((pos, summary)),
            Ok(None) => summary_position(records, pos + 1),
        },
    }
}

/// Some pending result is a failed one.
pub open spec fn any_failed(results: Seq<PendingView>) -> bool {
    exists|i: int| 0 <= i < results.len() && (#[trigger] results[i]).kind is Failed
}

/// Whether some pending result is a failed one.
pub fn has_failed(results: &Vec<TestResultParseResult>) -> (r: bool)
    ensures
        r == any_failed(results.deep_view()),
{
    let mut i: usize = 0;
    while i < results.len()
        invariant
            i <= results.len(),
            forall|k: int| 0 <= k < i ==> !((#[trigger] results.deep_view()[k]).kind is Failed),
        decreases results.len() - i,
    {
        if matches!(results[i].kind, TestResultKind::Failed) {
            assert(results.deep_view()[i as int].kind is Failed);
            return true;
        }
        i += 1;
    }
    false
}

/// Whether every failed pending result has its details.
pub fn settled(results: &Vec<TestResultParseResult>) -> (r: bool)
    ensures
        r == all_settled(results.deep_view()),
{
    let mut i: usize = 0;
    while i < results.len()
        invariant
            i <= results.len(),
            forall|k: int| 0 <= k < i ==> (#[trigger] results.deep_view()[k]).settled(),
        decreases results.len() - i,
    {
        if matches!(results[i].kind, TestResultKind::Failed) && results[i].failure_info.is_none() {
            return false;
        }
        assert(results.deep_view()[i as int].settled());
        i += 1;
    }
    true
}

/// The parser of one run: where it stands, and what it has read so far.
#[derive(Debug)]
pub struct TestRunParser {
    pub package: Package,
    pub features: Vec<String>,
    pub phase: TestRunParserPhase,
    pub state: TestRunParserState,
    pub test_count: usize,
    pub test_results: Vec<TestResultParseResult>,
    pub test_run: Option<TestDataParseResult>,
    pub doc_test_run: Option<TestDataParseResult>,
}

/// The mathematical content of a [`TestRunParser`].
pub struct ParserView {
    pub package: PackageView,
    pub features: Seq<Seq<char>>,
    pub phase: TestRunParserPhase,
    pub state: TestRunParserState,
    pub test_count: usize,
    pub test_results: Seq<PendingView>,
    pub test_run: Option<PendingDataView>,
    pub doc_test_run: Option<PendingDataView>,
}

impl DeepView for TestRunParser {
    type V = ParserView;

    open spec fn deep_view(&self) -> ParserView {
        ParserView {
            package: self.package.deep_view(),
            features: self.features.deep_view(),
            phase: self.phase,
            state: self.state,
            test_count: self.test_count,
            test_results: self.test_results.deep_view(),
            test_run: self.test_run.deep_view(),
            doc_test_run: self.doc_test_run.deep_view(),
        }
    }
}

impl ParserView {
    /// A parser that has read nothing yet.
    pub open spec fn fresh(package: PackageView, features: Seq<Seq<char>>) -> ParserView {
        ParserView {
            package,
            features,
            phase: TestRunParserPhase::Tests,
            state: TestRunParserState::Initial,
            test_count: 0,
            test_results: Seq::empty(),
            test_run: None,
            doc_test_run: None,
        }
    }

    /// In `Initial`: lines are passed over up to and including the one
    /// that announces the number of tests. With no test to come the
    /// summary is next, else the test lines.
    pub open spec fn initial_step(self, records: Seq<RecordView>, pos: int) -> Result<
        (ParserView, int),
        ParseError,
    > {
        match running_position(records, pos) {
            Err(e) => Err(e),
            Ok((line, count)) => Ok(
                (
                    ParserView {
                        test_count: count,
                        state: if count > 0 {
                            TestRunParserState::Tests
                        } else {
                            TestRunParserState::Results
                        },
                        ..self
                    },
                    line + 1,
                ),
            ),
        }
    }

    /// In `Tests`: each test line adds a pending result; the first line
    /// that reports no test is read too and ends the state. With a failed
    /// test the failure section is next, else the summary.
    pub open spec fn tests_step(self, records: Seq<RecordView>, pos: int) -> Result<
        (ParserView, int),
        ParseError,
    > {
        match collected_tests(self.test_results, records, pos) {
            Err(e) => Err(e),
            Ok((results, end)) => Ok(
                (
                    ParserView {
                        test_results: results,
                        state: if any_failed(results) {
                            TestRunParserState::FailuresOutput
                        } else {
                            TestRunParserState::Results
                        },
                        ..self
                    },
                    end + 1,
                ),
            ),
        }
    }

    /// In `FailuresOutput`: the failure section is read, up to the marker
    /// that opens the listing of failed tests.
    pub open spec fn failures_output_step(self, records: Seq<RecordView>, pos: int) -> Result<
        (ParserView, int),
        ParseError,
    > {
        match failure_blocks(
            self.test_results,
            records,
            pos,
            TestRunFailureParserState::Initial,
        ) {
            Err(e) => Err(e),
            Ok((results, listing)) => Ok(
                (
                    ParserView {
                        test_results: results,
                        state: TestRunParserState::FailuresListing,
                        ..self
                    },
                    listing,
                ),
            ),
        }
    }

    /// In `FailuresListing`: the line at `pos` and the run of lines after
    /// it are passed over, up to the first blank line, which is left
    /// unread.
    pub open spec fn failures_listing_step(self, records: Seq<RecordView>, pos: int) -> Result<
        (ParserView, int),
        ParseError,
    > {
        let end = run_end(records, pos + 1, Sentinel::Blank);
        match expect_line(records, pos, TestRunParserState::FailuresListing) {
            Err(e) => Err(e),
            Ok(_) => match expect_line(records, end, TestRunParserState::FailuresListing) {
                Err(e) => Err(e),
                Ok(_) => Ok((ParserView { state: TestRunParserState::Results, ..self }, end)),
            },
        }
    }

    /// In `Results`: lines are passed over up to and including the one
    /// that closes the phase. Its summary, the declared count and the
    /// pending results become the data of the current phase.
    pub open spec fn results_step(self, records: Seq<RecordView>, pos: int) -> Result<
        (ParserView, int),
        ParseError,
    > {
        match summary_position(records, pos) {
            Err(e) => Err(e),
            Ok((line, summary)) => {
                let data = PendingDataView {
                    test_count: self.test_count,
                    test_results: self.test_results,
                    test_summary: summary,
                };
                let cleared = ParserView {
                    test_results: Seq::empty(),
                    state: TestRunParserState::Done,
                    ..self
                };
                Ok(
                    (
                        match self.phase {
                            TestRunParserPhase::DocTests => ParserView {
                                doc_test_run: Some(data),
                                ..cleared
                            },
                            _ => ParserView { test_run: Some(data), ..cleared },
                        },
                        line + 1,
                    ),
                )
            },
        }
    }

    /// One transition: what the parser is after the lines of its current
    /// state were read from `pos` on, and where reading goes on.
    pub open spec fn step(self, records: Seq<RecordView>, pos: int) -> Result<
        (ParserView, int),
        ParseError,
    > {
        match self.state {
            TestRunParserState::Initial => self.initial_step(records, pos),
            TestRunParserState::Tests => self.tests_step(records, pos),
            TestRunParserState::FailuresOutput => self.failures_output_step(records, pos),
            TestRunParserState::FailuresListing => self.failures_listing_step(records, pos),
            TestRunParserState::Results => self.results_step(records, pos),
            TestRunParserState::Done => Ok((self, pos)),
        }
    }

    /// The transitions that are left in the current phase.
    pub open spec fn run_phase(self, records: Seq<RecordView>, pos: int) -> Result<
        (ParserView, int),
        ParseError,
    >
        decreases self.state.rank(),
    {
        if self.state is Done {
            Ok((self, pos))
        } else {
            match self.step(records, pos) {
                Err(e) => Err(e),
                Ok((next, after)) => next.run_phase(records, after),
            }
        }
    }

    /// The parser as it enters the phase that follows a finished one.
    pub open spec fn next_phase(self) -> ParserView {
        match self.phase {
            TestRunParserPhase::Tests => ParserView {
                phase: TestRunParserPhase::DocTests,
                state: TestRunParserState::Initial,
                test_count: 0,
                ..self
            },
            _ => ParserView { phase: TestRunParserPhase::Done, ..self },
        }
    }

    /// The phases that are left: the parser after the last of them, and
    /// the position of the first record that it did not read.
    pub open spec fn run(self, records: Seq<RecordView>, pos: int) -> Result<
        (ParserView, int),
        ParseError,
    >
        decreases self.phase.rank(),
    {
        if self.phase is Done {
            Ok((self, pos))
        } else {
            match self.run_phase(records, pos) {
                Err(e) => Err(e),
                Ok((done, after)) => {
                    proof {
                        lemma_phase_kept(self, records, pos);
                    }
                    done.next_phase().run(records, after)
                },
            }
        }
    }

    /// The run that a parser holds once both phases were read. A failed
    /// test that no failure block gave its details leaves the run
    /// incomplete.
    pub open spec fn finished(self) -> Result<RunView, ParseError> {
        match (self.test_run, self.doc_test_run) {
            (Some(tests), Some(doc_tests)) => if all_settled(tests.test_results) && all_settled(
                doc_tests.test_results,
            ) {
                Ok(
                    RunView {
                        package: self.package,
                        features: self.features,
                        test_run: tests.finished(),
                        doc_test_run: doc_tests.finished(),
                    },
                )
            } else {
                Err(ParseError::MissingFailureInfo)
            },
            _ => Err(ParseError::MissingFailureInfo),
        }
    }
}

/// Reading a phase to its end leaves the phase as it is, in state `Done`.
pub proof fn lemma_phase_kept(parser: ParserView, records: Seq<RecordView>, pos: int)
    ensures
        match parser.run_phase(records, pos) {
            Ok((done, _)) => done.phase == parser.phase && done.state is Done,
            Err(_) => true,
        },
    decreases parser.state.rank(),
{
    if !(parser.state is Done) {
        match parser.step(records, pos) {
            Err(_) => {},
            Ok((next, after)) => {
                lemma_phase_kept(next, records, after);
            },
        }
    }
}

impl TestRun {
    /// The run that a parser holds once it has read both phases and every
    /// failed test has its details.
    pub fn from(parser: TestRunParser) -> (run: Self)
        requires
            parser.deep_view().finished() is Ok,
        ensures
            parser.deep_view().finished() == Ok::<_, ParseError>(run.deep_view()),
    {
        let TestRunParser { package, features, test_run, doc_test_run, .. } = parser;
        TestRun {
            package,
            features,
            test_run: TestData::from(test_run.unwrap()),
            doc_test_run: TestData::from(doc_test_run.unwrap()),
        }
    }
}

impl TestRunParser {
    /// A parser for the run of `package`, built with `features`, that has
    /// read nothing yet.
    pub fn new(package: Package, features: Vec<String>) -> (parser: Self)
        ensures
            parser.deep_view() == ParserView::fresh(package.deep_view(), features.deep_view()),
    {
        let parser = TestRunParser {
            package,
            features,
            state: TestRunParserState::Initial,
            phase: TestRunParserPhase::Tests,
            test_count: 0,
            test_results: Vec::new(),
            test_run: None,
            doc_test_run: None,
        };
        assert(parser.test_results.deep_view() =~= Seq::empty());
        parser
    }

    /// Reads the lines of the current state and moves to the next state.
    #[verifier::loop_isolation(false)]
    pub fn step(&mut self, cursor: &mut Cursor) -> (r: Result<(), ParseError>)
        ensures
            final(cursor).well_formed(),
            final(cursor).records() == old(cursor).records(),
            match old(self).deep_view().step(old(cursor).records(), old(cursor).position()) {
                Ok((next, after)) => r is Ok && final(self).deep_view() == next
                    && final(cursor).position() == after,
                Err(e) => r == Err::<(), _>(e),
            },
    {
        let ghost records = cursor.records();
        proof {
            use_type_invariant(&*cursor);
        }
        let ghost start = cursor.position();
        let ghost before = self.deep_view();
        match self.state {
            TestRunParserState::Initial => {
                loop
                    invariant
                        cursor.well_formed(),
                        cursor.records() == records,
                        running_position(records, start) == running_position(
                            records,
                            cursor.position(),
                        ),
                        *self == *old(self),
                    decreases records.len() - cursor.position(),
                {
                    let text = cursor.expect_line(TestRunParserState::Initial)?;
                    match match_running(text.as_str())? {
                        Some(count) => {
                            self.test_count = count;
                            if count > 0 {
                                self.state = TestRunParserState::Tests;
                            } else {
                                self.state = TestRunParserState::Results;
                            }
                            return Ok(());
                        },
                        None => {},
                    }
                }
            },
            TestRunParserState::Tests => {
                loop
                    invariant
                        cursor.well_formed(),
                        cursor.records() == records,
                        collected_tests(before.test_results, records, start) == collected_tests(
                            self.test_results.deep_view(),
                            records,
                            cursor.position(),
                        ),
                        self.deep_view() == (ParserView {
                            test_results: self.test_results.deep_view(),
                            ..before
                        }),
                    decreases records.len() - cursor.position(),
                {
                    let text = cursor.expect_line(TestRunParserState::Tests)?;
                    match match_test(text.as_str())? {
                        Some((name, kind)) => {
                            let ghost earlier = self.test_results.deep_view();
                            self.test_results.push(TestResultParseResult::new(name, kind));
                            assert(self.test_results.deep_view() =~= earlier.push(
                                pending(name@, kind),
                            ));
                        },
                        None => {
                            if has_failed(&self.test_results) {
                                self.state = TestRunParserState::FailuresOutput;
                            } else {
                                self.state = TestRunParserState::Results;
                            }
                            return Ok(());
                        },
                    }
                }
            },
            TestRunParserState::FailuresOutput => {
                parse_failures(&mut self.test_results, cursor)?;
                self.state = TestRunParserState::FailuresListing;
                Ok(())
            },
            TestRunParserState::FailuresListing => {
                let _ = cursor.expect_line(TestRunParserState::FailuresListing)?;
                skip_run(cursor, Sentinel::Blank);
                let _ = cursor.peek_expected(TestRunParserState::FailuresListing)?;
                self.state = TestRunParserState::Results;
                Ok(())
            },
            TestRunParserState::Results => {
                loop
                    invariant
                        cursor.well_formed(),
                        cursor.records() == records,
                        summary_position(records, start) == summary_position(
                            records,
                            cursor.position(),
                        ),
                        *self == *old(self),
                    decreases records.len() - cursor.position(),
                {
                    let text = cursor.expect_line(TestRunParserState::Results)?;
                    match match_summary(text.as_str())? {
                        Some(summary) => {
                            let mut results: Vec<TestResultParseResult> = Vec::new();
                            std::mem::swap(&mut self.test_results, &mut results);
                            assert(self.test_results.deep_view() =~= Seq::empty());
                            let data = TestDataParseResult::new(self.test_count, results, summary);
                            match self.phase {
                                TestRunParserPhase::DocTests => {
                                    self.doc_test_run = Some(data);
                                },
                                _ => {
                                    self.test_run = Some(data);
                                },
                            }
                            self.state = TestRunParserState::Done;
                            return Ok(());
                        },
                        None => {},
                    }
                }
            },
            TestRunParserState::Done => Ok(()),
        }
    }

    /// Reads both phases of a run from the cursor and returns the run.
    ///
    /// The stream must hold the whole run: where it ends early, or a typed
    /// event stands where only text can follow, the parse fails. So it
    /// does where a line that should hold a number or an outcome holds
    /// none, where a failure block names no test that was seen, and where
    /// a failed test got no failure block.
    #[verifier::loop_isolation(false)]
    pub fn parse(self, cursor: &mut Cursor) -> (r: Result<TestRun, ParseError>)
        ensures
            final(cursor).well_formed(),
            final(cursor).records() == old(cursor).records(),
            match run_of(self.deep_view(), old(cursor).records(), old(cursor).position()) {
                Ok((run, after)) => r is Ok && r->Ok_0.deep_view() == run
                    && final(cursor).position() == after,
                Err(e) => r == Err::<TestRun, _>(e),
            },
    {
        let ghost records = cursor.records();
        proof {
            use_type_invariant(&*cursor);
        }
        let ghost start = cursor.position();
        let ghost initial = self.deep_view();
        let mut parser = self;
        while !matches!(parser.phase, TestRunParserPhase::Done)
            invariant
                cursor.well_formed(),
                cursor.records() == records,
                initial.run(records, start) == parser.deep_view().run(records, cursor.position()),
            decreases parser.phase.rank(),
        {
            let ghost entered = parser.deep_view();
            let ghost entered_at = cursor.position();
            while !matches!(parser.state, TestRunParserState::Done)
                invariant
                    cursor.well_formed(),
                    cursor.records() == records,
                    entered.run_phase(records, entered_at) == parser.deep_view().run_phase(
                        records,
                        cursor.position(),
                    ),
                decreases parser.state.rank(),
            {
                parser.step(cursor)?;
            }
            proof {
                lemma_phase_kept(entered, records, entered_at);
            }
            match parser.phase {
                TestRunParserPhase::Tests => {
                    parser.phase = TestRunParserPhase::DocTests;
                    parser.state = TestRunParserState::Initial;
                    parser.test_count = 0;
                },
                _ => {
                    parser.phase = TestRunParserPhase::Done;
                },
            }
        }
        let complete = match (&parser.test_run, &parser.doc_test_run) {
            (Some(tests), Some(doc_tests)) => settled(&tests.test_results) && settled(
                &doc_tests.test_results,
            ),
            _ => false,
        };
        if complete {
            Ok(TestRun::from(parser))
        } else {
            Err(ParseError::MissingFailureInfo)
        }
    }
}

/// The run that a parser reads from `pos` on, and the position of the
/// first record after it.
pub open spec fn run_of(parser: ParserView, records: Seq<RecordView>, pos: int) -> Result<
    (RunView, int),
    ParseError,
> {
    match parser.run(records, pos) {
        Err(e) => Err(e),
        Ok((done, after)) => match done.finished() {
            Err(e) => Err(e),
            Ok(run) => Ok((run, after)),
        },
    }
}

/// The line that announces the tests stands at or after the position
/// from which it is sought.
pub proof fn lemma_running_position(records: Seq<RecordView>, pos: int)
    ensures
        match running_position(records, pos) {
            Ok((line, _)) => 0 <= pos <= line < records.len(),
            Err(_) => true,
        },
    decreases records.len() - pos,
{
    match expect_line(records, pos, TestRunParserState::Initial) {
        Err(_) => {},
        Ok(text) => {
            if running_shape(text) == Ok::<Option<usize>, ParseError>(None) {
                lemma_running_position(records, pos + 1);
            }
        },
    }
}

/// The line that ends the test lines stands at or after the position
/// from which they are read, and the results that were there before are
/// still there, in front of the new ones.
pub proof fn lemma_collected_tests(results: Seq<PendingView>, records: Seq<RecordView>, pos: int)
    ensures
        match collected_tests(results, records, pos) {
            Ok((collected, end)) => {
                &&& 0 <= pos <= end < records.len()
                &&& collected.len() == results.len() + (end - pos)
                &&& collected.take(results.len() as int) == results
            },
            Err(_) => true,
        },
    decreases records.len() - pos,
{
    match expect_line(records, pos, TestRunParserState::Tests) {
        Err(_) => {},
        Ok(text) => match test_shape(text) {
            Ok(Some((name, kind))) => {
                let more = results.push(pending(name, kind));
                lemma_collected_tests(more, records, pos + 1);
                match collected_tests(more, records, pos + 1) {
                    Ok((collected, end)) => {
                    },
                    Err(_) => {},
                }
            },
            Ok(None) => {
            },
            Err(_) => {},
        },
    }
}

/// The line that closes a phase stands at or after the position from
/// which it is sought.
pub proof fn lemma_summary_position(records: Seq<RecordView>, pos: int)
    ensures
        match summary_position(records, pos) {
            Ok((line, _)) => 0 <= pos <= line < records.len(),
            Err(_) => true,
        },
    decreases records.len() - pos,
{
    match expect_line(records, pos, TestRunParserState::Results) {
        Err(_) => {},
        Ok(text) => {
            if summary_shape(text) == Ok::<Option<SummaryView>, ParseError>(None) {
                lemma_summary_position(records, pos + 1);
            }
        },
    }
}

/// No transition moves backwards or beyond the end of the stream.
pub proof fn lemma_step_advances(parser: ParserView, records: Seq<RecordView>, pos: int)
    requires
        0 <= pos <= records.len(),
    ensures
        match parser.step(records, pos) {
            Ok((_, after)) => pos <= after <= records.len(),
            Err(_) => true,
        },
{
    match parser.state {
        TestRunParserState::Initial => {
            lemma_running_position(records, pos);
        },
        TestRunParserState::Tests => {
            lemma_collected_tests(parser.test_results, records, pos);
        },
        TestRunParserState::FailuresOutput => {
            lemma_failure_blocks(
                parser.test_results,
                records,
                pos,
                TestRunFailureParserState::Initial,
            );
        },
        TestRunParserState::FailuresListing => {
            if pos < records.len() {
                lemma_run_end(records, pos + 1, Sentinel::Blank);
            }
        },
        TestRunParserState::Results => {
            lemma_summary_position(records, pos);
        },
        TestRunParserState::Done => {},
    }
}

/// Reading a phase to its end moves neither backwards nor beyond the end
/// of the stream.
pub proof fn lemma_run_phase_advances(parser: ParserView, records: Seq<RecordView>, pos: int)
    requires
        0 <= pos <= records.len(),
    ensures
        match parser.run_phase(records, pos) {
            Ok((_, after)) => pos <= after <= records.len(),
            Err(_) => true,
        },
    decreases parser.state.rank(),
{
    if !(parser.state is Done) {
        lemma_step_advances(parser, records, pos);
        match parser.step(records, pos) {
            Err(_) => {},
            Ok((next, after)) => {
                lemma_run_phase_advances(next, records, after);
            },
        }
    }
}

/// Reading a run moves neither backwards nor beyond the end of the
/// stream.
pub proof fn lemma_run_advances(parser: ParserView, records: Seq<RecordView>, pos: int)
    requires
        0 <= pos <= records.len(),
    ensures
        match parser.run(records, pos) {
            Ok((_, after)) => pos <= after <= records.len(),
            Err(_) => true,
        },
    decreases parser.phase.rank(),
{
    if !(parser.phase is Done) {
        lemma_run_phase_advances(parser, records, pos);
        lemma_phase_kept(parser, records, pos);
        match parser.run_phase(records, pos) {
            Err(_) => {},
            Ok((done, after)) => {
                lemma_run_advances(done.next_phase(), records, after);
            },
        }
    }
}

} // verus!

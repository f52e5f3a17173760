//! What holds of every run that is read: which tests it holds, how its
//! failures are counted, and that reading is a function of the stream.

use crate::error::ParseError;
use crate::failure::{
    attach, failure_blocks, lemma_block_run, lemma_first_named, lemma_section_position,
    section_position, BlockView,
};
use crate::lines::{lemma_run_end, run_end, Sentinel};
use crate::model::{
    DataView, FailureView, Package, PackageView, PendingDataView, PendingView, ResultView,
    RunView, TestRun,
};
use crate::record::{ArtifactView, Record, RecordView};
use crate::run::{collected_tests, running_position, run_of, ParserView};
use crate::state::{TestRunFailureParserState, TestRunParserPhase};
use crate::stream::{current_after, lemma_segment_advances, outcome, parsed, partition, segment};
use vstd::prelude::*;

verus! {

/// Two lists of pending results report the same tests with the same
/// outcomes, whatever details the failed ones have.
pub open spec fn same_tests(a: Seq<PendingView>, b: Seq<PendingView>) -> bool {
    &&& a.len() == b.len()
    &&& forall|i: int|
        0 <= i < a.len() ==> (#[trigger] a[i]).name == b[i].name && a[i].kind == b[i].kind
}

/// The number of pending results that are failed ones.
pub open spec fn failed_count(results: Seq<PendingView>) -> nat
    decreases results.len(),
{
    if results.len() == 0 {
        0
    } else {
        failed_count(results.drop_last()) + if results.last().kind is Failed {
            1nat
        } else {
            0nat
        }
    }
}

/// The number of results that hold the details of a failure.
pub open spec fn failures_attached(results: Seq<ResultView>) -> nat
    decreases results.len(),
{
    if results.len() == 0 {
        0
    } else {
        failures_attached(results.drop_last()) + if results.last().result is Failed {
            1nat
        } else {
            0nat
        }
    }
}

/// Giving a result its details changes neither which tests are reported
/// nor their outcomes.
pub proof fn lemma_attach_keeps(results: Seq<PendingView>, name: Seq<char>, info: FailureView)
    ensures
        match attach(results, name, info) {
            Some(updated) => same_tests(results, updated),
            None => true,
        },
{
    lemma_first_named(results, name);
}

/// Reading the failure section changes neither which tests are reported
/// nor their outcomes.
pub proof fn lemma_failure_blocks_keep(
    results: Seq<PendingView>,
    records: Seq<RecordView>,
    pos: int,
    state: TestRunFailureParserState,
)
    requires
        state is Initial || state is Header,
    ensures
        match failure_blocks(results, records, pos, state) {
            Ok((updated, _)) => same_tests(results, updated),
            Err(_) => true,
        },
    decreases records.len() - pos,
{
    lemma_block_run(records, pos, state);
    match BlockView::fresh(state).run(records, pos) {
        Err(_) => {},
        Ok((block, end)) => match block.failure() {
            Err(_) => {},
            Ok((name, info)) => {
                lemma_attach_keeps(results, name, info);
                match attach(results, name, info) {
                    None => {},
                    Some(updated) => {
                        lemma_section_position(records, end);
                        match section_position(records, end) {
                            Err(_) => {},
                            Ok((next, more)) => {
                                if more {
                                    lemma_failure_blocks_keep(
                                        updated,
                                        records,
                                        next,
                                        TestRunFailureParserState::Header,
                                    );
                                }
                            },
                        }
                    },
                }
            },
        },
    }
}

/// The tests that the test lines of a phase report, for a phase that is
/// read from `pos` on: those that follow the line that announces them,
/// or none where that line announces none.
pub open spec fn phase_tests(records: Seq<RecordView>, pos: int) -> Result<
    Seq<PendingView>,
    ParseError,
> {
    match running_position(records, pos) {
        Err(e) => Err(e),
        Ok((line, count)) => if count > 0 {
            match collected_tests(Seq::empty(), records, line + 1) {
                Err(e) => Err(e),
                Ok((tests, _)) => Ok(tests),
            }
        } else {
            Ok(Seq::empty())
        },
    }
}

/// The data of the phase that a parser has just read.
pub open spec fn phase_data(done: ParserView, phase: TestRunParserPhase) -> Option<
    PendingDataView,
> {
    match phase {
        TestRunParserPhase::DocTests => done.doc_test_run,
        _ => done.test_run,
    }
}

/// What reading one phase from its start comes to: the data of that phase
/// holds the announced count and the tests that the test lines report, in
/// their order and with their outcomes; the data of the other phase, the
/// package and the features stay as they were; no pending result is left
/// over.
pub proof fn lemma_phase_data(parser: ParserView, records: Seq<RecordView>, pos: int)
    requires
        parser.state is Initial,
        parser.test_results.len() == 0,
        !(parser.phase is Done),
    ensures
        match parser.run_phase(records, pos) {
            Err(_) => true,
            Ok((done, _)) => {
                &&& running_position(records, pos) is Ok
                &&& phase_tests(records, pos) is Ok
                &&& phase_data(done, parser.phase) is Some
                &&& phase_data(done, parser.phase)->0.test_count == running_position(
                    records,
                    pos,
                )->Ok_0.1
                &&& same_tests(
                    phase_tests(records, pos)->Ok_0,
                    phase_data(done, parser.phase)->0.test_results,
                )
                &&& done.test_results.len() == 0
                &&& done.phase == parser.phase
                &&& done.state is Done
                &&& done.package == parser.package
                &&& done.features == parser.features
                &&& parser.phase is Tests ==> done.doc_test_run == parser.doc_test_run
                &&& parser.phase is DocTests ==> done.test_run == parser.test_run
            },
        },
{
    reveal_with_fuel(ParserView::run_phase, 6);
    assert(parser.test_results =~= Seq::empty());
    match parser.step(records, pos) {
        Err(_) => {},
        Ok((counted, first)) => {
            if counted.state is Tests {
                match counted.step(records, first) {
                    Err(_) => {},
                    Ok((listed, after)) => {
                        if listed.state is FailuresOutput {
                            lemma_failure_blocks_keep(
                                listed.test_results,
                                records,
                                after,
                                TestRunFailureParserState::Initial,
                            );
                        }
                    },
                }
            }
        },
    }
}

/// The position at which a phase of a run begins, for a run that is read
/// from `pos` on: the plain tests at `pos`, the documentation tests at
/// the first position after the plain tests.
pub open spec fn phase_start(
    package: PackageView,
    features: Seq<Seq<char>>,
    records: Seq<RecordView>,
    pos: int,
    phase: TestRunParserPhase,
) -> int {
    match phase {
        TestRunParserPhase::DocTests => match ParserView::fresh(package, features).run_phase(
            records,
            pos,
        ) {
            Ok((_, after)) => after,
            Err(_) => pos,
        },
        _ => pos,
    }
}

/// The data that a run holds of a phase.
pub open spec fn phase_of(run: RunView, phase: TestRunParserPhase) -> DataView {
    match phase {
        TestRunParserPhase::DocTests => run.doc_test_run,
        _ => run.test_run,
    }
}

/// The final results report the tests of `tests`, in their order and
/// with their outcomes.
pub open spec fn reports(results: Seq<ResultView>, tests: Seq<PendingView>) -> bool {
    &&& results.len() == tests.len()
    &&& forall|i: int|
        0 <= i < results.len() ==> (#[trigger] results[i]).name == tests[i].name && (
        results[i].result is Failed <==> tests[i].kind is Failed)
}

/// Results that report a list of tests hold the details of as many
/// failures as the list holds failed tests.
pub proof fn lemma_reports_failures(results: Seq<ResultView>, tests: Seq<PendingView>)
    requires
        reports(results, tests),
    ensures
        failures_attached(results) == failed_count(tests),
    decreases results.len(),
{
    if results.len() > 0 {
        lemma_reports_failures(results.drop_last(), tests.drop_last());
    }
}

/// A run that was read is that of the package and the features that the
/// parser was made with, and each of its two phases holds the announced
/// count and exactly the tests that the test lines of that phase report,
/// in their order; a test is failed in the run, and has its details, if
/// and only if its line said that it failed.
pub proof fn law_run_reports(
    package: PackageView,
    features: Seq<Seq<char>>,
    records: Seq<RecordView>,
    pos: int,
    run: RunView,
    after: int,
    phase: TestRunParserPhase,
)
    requires
        run_of(ParserView::fresh(package, features), records, pos) == Ok::<_, ParseError>(
            (run, after),
        ),
        phase is Tests || phase is DocTests,
    ensures
        run.package == package,
        run.features == features,
        running_position(records, phase_start(package, features, records, pos, phase)) is Ok,
        phase_of(run, phase).test_count == running_position(
            records,
            phase_start(package, features, records, pos, phase),
        )->Ok_0.1,
        phase_tests(records, phase_start(package, features, records, pos, phase)) is Ok,
        reports(
            phase_of(run, phase).test_results,
            phase_tests(records, phase_start(package, features, records, pos, phase))->Ok_0,
        ),
{
    reveal_with_fuel(ParserView::run, 3);
    let fresh = ParserView::fresh(package, features);
    lemma_phase_data(fresh, records, pos);
    match fresh.run_phase(records, pos) {
        Err(_) => {},
        Ok((tested, doc_pos)) => {
            lemma_phase_data(tested.next_phase(), records, doc_pos);
        },
    }
}

/// In a run that was read, a phase whose summary counts the failed tests
/// as its test lines do holds the details of exactly so many failures
/// as the summary counts.
pub proof fn law_failures_match_summary(
    package: PackageView,
    features: Seq<Seq<char>>,
    records: Seq<RecordView>,
    pos: int,
    run: RunView,
    after: int,
    phase: TestRunParserPhase,
    tests: Seq<PendingView>,
)
    requires
        run_of(ParserView::fresh(package, features), records, pos) == Ok::<_, ParseError>(
            (run, after),
        ),
        phase is Tests || phase is DocTests,
        phase_tests(records, phase_start(package, features, records, pos, phase)) == Ok::<
            _,
            ParseError,
        >(tests),
        phase_of(run, phase).test_summary.failed == failed_count(tests),
    ensures
        failures_attached(phase_of(run, phase).test_results) == phase_of(
            run,
            phase,
        ).test_summary.failed,
{
    law_run_reports(package, features, records, pos, run, after, phase);
    lemma_reports_failures(phase_of(run, phase).test_results, tests);
}

/// In a run that was read, a phase that is well formed and passing (its
/// test lines are as many as were announced, none of them reports a
/// failed test, and its summary counts passed and failed tests as the
/// test lines do) holds as many results as were announced, so many
/// passed, and none failed.
pub proof fn law_passing_phase(
    package: PackageView,
    features: Seq<Seq<char>>,
    records: Seq<RecordView>,
    pos: int,
    run: RunView,
    after: int,
    phase: TestRunParserPhase,
    tests: Seq<PendingView>,
)
    requires
        run_of(ParserView::fresh(package, features), records, pos) == Ok::<_, ParseError>(
            (run, after),
        ),
        phase is Tests || phase is DocTests,
        phase_tests(records, phase_start(package, features, records, pos, phase)) == Ok::<
            _,
            ParseError,
        >(tests),
        tests.len() == phase_of(run, phase).test_count,
        failed_count(tests) == 0,
        phase_of(run, phase).test_summary.failed == failed_count(tests),
        phase_of(run, phase).test_summary.passed == tests.len() - failed_count(tests),
    ensures
        phase_of(run, phase).test_results.len() == phase_of(run, phase).test_count,
        phase_of(run, phase).test_summary.passed == phase_of(run, phase).test_count,
        phase_of(run, phase).test_summary.failed == 0,
        failures_attached(phase_of(run, phase).test_results) == 0,
{
    law_run_reports(package, features, records, pos, run, after, phase);
    lemma_reports_failures(phase_of(run, phase).test_results, tests);
}

/// Reading is a function of the stream: two readings of the same records
/// with the same packages come to runs that are equal part by part, or to
/// the same error.
pub proof fn law_reparse(
    records: Vec<Record>,
    packages: Vec<Package>,
    first: Result<Vec<TestRun>, ParseError>,
    second: Result<Vec<TestRun>, ParseError>,
)
    requires
        outcome(first) == parsed(records.deep_view(), packages.deep_view()),
        outcome(second) == parsed(records.deep_view(), packages.deep_view()),
    ensures
        outcome(first) == outcome(second),
{
}

/// `run` is the run of a segment of the stream: a text line stands at the
/// segment's start, and reading the segment for some artifact comes to
/// `run`.
pub open spec fn from_segment(
    records: Seq<RecordView>,
    packages: Seq<PackageView>,
    run: RunView,
) -> bool {
    exists|pos: int, artifact: ArtifactView|
        0 <= pos < records.len() && records[pos] is TextLine && (#[trigger] segment(
            records,
            packages,
            pos,
            Some(artifact),
        )) is Ok && segment(records, packages, pos, Some(artifact))->Ok_0.0 == run
}

/// Cutting the stream from `pos` on adds nothing but runs of segments to
/// the runs that were found before.
pub proof fn lemma_partition_segments(
    records: Seq<RecordView>,
    packages: Seq<PackageView>,
    pos: int,
    current: Option<ArtifactView>,
    runs: Seq<RunView>,
)
    requires
        forall|k: int| 0 <= k < runs.len() ==> from_segment(records, packages, #[trigger] runs[k]),
    ensures
        match partition(records, packages, pos, current, runs) {
            Ok(all) => forall|k: int|
                0 <= k < all.len() ==> from_segment(records, packages, #[trigger] all[k]),
            Err(_) => true,
        },
    decreases records.len() - pos,
{
    if 0 <= pos < records.len() {
        match records[pos] {
            RecordView::TypedEvent(event) => {
                lemma_partition_segments(
                    records,
                    packages,
                    pos + 1,
                    current_after(current, event),
                    runs,
                );
            },
            RecordView::TextLine(_) => match segment(records, packages, pos, current) {
                Err(_) => {},
                Ok((run, after)) => {
                    lemma_segment_advances(records, packages, pos, current);
                    lemma_run_end(records, after, Sentinel::Never);
                    let more = runs.push(run);
                    lemma_partition_segments(
                        records,
                        packages,
                        run_end(records, after, Sentinel::Never),
                        current,
                        more,
                    );
                },
            },
        }
    }
}

/// Every run that reading a stream comes to is the run of one of the
/// stream's segments, read by a parser that was made for the package and
/// the features of the segment's artifact. So what holds of every run
/// that such a parser reads holds of every run of every stream.
pub proof fn law_runs_come_from_segments(
    records: Seq<RecordView>,
    packages: Seq<PackageView>,
    runs: Seq<RunView>,
    k: int,
)
    requires
        parsed(records, packages) == Ok::<_, ParseError>(runs),
        0 <= k < runs.len(),
    ensures
        from_segment(records, packages, runs[k]),
{
    lemma_partition_segments(records, packages, 0, None, Seq::empty());
    let all = partition(records, packages, 0, None, Seq::empty())->Ok_0;
}

} // verus!

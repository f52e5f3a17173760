//! From runs to annotations: one for each failed test, at the place
//! where it failed.

use crate::checks::{AnnotationLevel, AnnotationView, CheckRunAnnotation};
use crate::doctest::{correct_doctest_location, doctest_location};
use crate::error::ParseError;
use crate::model::{
    FailureView, LocationView, ResultView, RunView, TestFailureInfo, TestFailureLocation,
    TestResult, TestResultValue, TestRun, ValueView,
};
use crate::text::{join_strings, joined_with, to_unix_newlines, unix_newlines};
use vstd::prelude::*;
use vstd::string::*;

verus! {

/// What opens the message of an annotation.
pub const MESSAGE_OPENING: &'static str = "features: [";

/// What stands between two features.
pub const FEATURE_SEPARATOR: &'static str = ", ";

/// What stands between the features and the panic's text, for a plain
/// test.
pub const CAUSE_HEADING: &'static str = "]\n\ncause:\n";

/// What stands between the features and the panic's text, for a
/// documentation test.
pub const DOC_CAUSE_HEADING: &'static str = "]\n    \ncause:\n";

/// What stands between the panic's text and the stack trace.
pub const TRACE_GAP: &'static str = "\n\n";

/// The text that the debug formatter of the standard library writes for
/// a test result, in its pretty form.
pub uninterp spec fn debug_rendering(result: ResultView) -> Seq<char>;

/// Formats `result` with `format!` and the pretty debug form `{:#?}`.
/// The contract claims only that the text is a function of what the
/// result holds.
#[verifier::external_body]
fn pretty_debug(result: &TestResult) -> (r: String)
    ensures
        r@ == debug_rendering(result.deep_view()),
{
    format!("{:#?}", result)
}

/// The message of an annotation: the features, the panic's text and the
/// stack trace, the latter two with every line ending written as a line
/// feed.
pub open spec fn message_of(features: Seq<Seq<char>>, failure: FailureView, heading: Seq<char>)
    -> Seq<char> {
    MESSAGE_OPENING@ + joined_with(features, FEATURE_SEPARATOR@) + heading + unix_newlines(
        failure.panic_text,
    ) + TRACE_GAP@ + unix_newlines(failure.stacktrace)
}

/// Writes the message of an annotation.
pub fn failure_message(features: &Vec<String>, failure: &TestFailureInfo, heading: &str) -> (r:
    String)
    ensures
        r@ == message_of(features.deep_view(), failure.deep_view(), heading@),
{
    let mut message = String::from_str(MESSAGE_OPENING);
    let joined = join_strings(features, FEATURE_SEPARATOR);
    message.append(joined.as_str());
    message.append(heading);
    let panic_text = to_unix_newlines(failure.panic_text.as_str());
    message.append(panic_text.as_str());
    message.append(TRACE_GAP);
    let stacktrace = to_unix_newlines(failure.stacktrace.as_str());
    message.append(stacktrace.as_str());
    message
}

/// The annotation for the failed test `result`, put at `location`.
pub open spec fn annotation_of(
    features: Seq<Seq<char>>,
    result: ResultView,
    location: LocationView,
    heading: Seq<char>,
) -> AnnotationView {
    AnnotationView {
        path: location.file,
        start_line: location.line,
        end_line: location.line,
        start_column: Some(location.column),
        end_column: None,
        annotation_level: AnnotationLevel::Failure,
        message: message_of(features, result.result->Failed_0, heading),
        title: Some(result.name),
        raw_details: Some(debug_rendering(result)),
    }
}

/// Writes the annotation for the failed test `result`, put at `location`.
pub fn annotate(
    features: &Vec<String>,
    result: &TestResult,
    location: &TestFailureLocation,
    heading: &str,
) -> (r: CheckRunAnnotation)
    requires
        result.result is Failed,
    ensures
        r.deep_view() == annotation_of(
            features.deep_view(),
            result.deep_view(),
            location.deep_view(),
            heading@,
        ),
{
    let failure = result.result.unwrap_failure_ref();
    CheckRunAnnotation {
        path: location.file.clone(),
        start_line: location.line,
        end_line: location.line,
        start_column: Some(location.column),
        end_column: None,
        annotation_level: AnnotationLevel::Failure,
        message: failure_message(features, failure, heading),
        title: Some(result.name.clone()),
        raw_details: Some(pretty_debug(result)),
    }
}

/// The annotations of the failed plain tests among `results`, in their
/// order, each at the location that was reported.
pub open spec fn plain_annotations(features: Seq<Seq<char>>, results: Seq<ResultView>) -> Seq<
    AnnotationView,
>
    decreases results.len(),
{
    if results.len() == 0 {
        Seq::empty()
    } else {
        let earlier = plain_annotations(features, results.drop_last());
        match results.last().result {
            ValueView::Failed(failure) => earlier.push(
                annotation_of(features, results.last(), failure.location, CAUSE_HEADING@),
            ),
            ValueView::Passed => earlier,
        }
    }
}

/// The annotations of the failed documentation tests among `results`, in
/// their order, each at the corrected location. The first test whose
/// location cannot be corrected fails the whole.
pub open spec fn doc_annotations(features: Seq<Seq<char>>, results: Seq<ResultView>) -> Result<
    Seq<AnnotationView>,
    ParseError,
>
    decreases results.len(),
{
    if results.len() == 0 {
        Ok(Seq::empty())
    } else {
        match doc_annotations(features, results.drop_last()) {
            Err(e) => Err(e),
            Ok(earlier) => match results.last().result {
                ValueView::Failed(failure) => match doctest_location(
                    results.last().name,
                    failure.location,
                ) {
                    Err(e) => Err(e),
                    Ok(location) => Ok(
                        earlier.push(
                            annotation_of(features, results.last(), location, DOC_CAUSE_HEADING@),
                        ),
                    ),
                },
                ValueView::Passed => Ok(earlier),
            },
        }
    }
}

/// Some result is a failed one.
pub open spec fn any_failure(results: Seq<ResultView>) -> bool {
    exists|i: int| 0 <= i < results.len() && (#[trigger] results[i]).result is Failed
}

/// A run is reported if it announced a test in either phase and a test
/// failed in either phase.
pub open spec fn reportable(run: RunView) -> bool {
    &&& run.test_run.test_count != 0 || run.doc_test_run.test_count != 0
    &&& any_failure(run.test_run.test_results) || any_failure(run.doc_test_run.test_results)
}

/// The annotations of one run: none if it is not reported, else those of
/// its plain tests, then those of its documentation tests.
pub open spec fn run_annotations(run: RunView) -> Result<Seq<AnnotationView>, ParseError> {
    if reportable(run) {
        match doc_annotations(run.features, run.doc_test_run.test_results) {
            Err(e) => Err(e),
            Ok(doc) => Ok(plain_annotations(run.features, run.test_run.test_results) + doc),
        }
    } else {
        Ok(Seq::empty())
    }
}

/// The annotations of all runs, in the order of the runs. The first run
/// that cannot be annotated fails the whole.
pub open spec fn all_annotations(runs: Seq<RunView>) -> Result<Seq<AnnotationView>, ParseError>
    decreases runs.len(),
{
    if runs.len() == 0 {
        Ok(Seq::empty())
    } else {
        match all_annotations(runs.drop_last()) {
            Err(e) => Err(e),
            Ok(earlier) => match run_annotations(runs.last()) {
                Err(e) => Err(e),
                Ok(last) => Ok(earlier + last),
            },
        }
    }
}

/// Whether some result is a failed one.
pub fn has_failure(results: &Vec<TestResult>) -> (r: bool)
    ensures
        r == any_failure(results.deep_view()),
{
    let mut i: usize = 0;
    while i < results.len()
        invariant
            i <= results.len(),
            forall|k: int| 0 <= k < i ==> !((#[trigger] results.deep_view()[k]).result is Failed),
        decreases results.len() - i,
    {
        if matches!(results[i].result, TestResultValue::Failed(_)) {
            assert(results.deep_view()[i as int].result is Failed);
            return true;
        }
        i += 1;
    }
    false
}

/// Writes the annotations of one run.
#[verifier::loop_isolation(false)]
pub fn annotate_run(run: &TestRun) -> (r: Result<Vec<CheckRunAnnotation>, ParseError>)
    ensures
        match r {
            Ok(found) => run_annotations(run.deep_view()) == Ok::<_, ParseError>(
                found.deep_view(),
            ),
            Err(e) => run_annotations(run.deep_view()) == Err::<Seq<AnnotationView>, _>(e),
        },
{
    let mut annotations: Vec<CheckRunAnnotation> = Vec::new();
    let announced = run.test_run.test_count != 0 || run.doc_test_run.test_count != 0;
    let failed = has_failure(&run.test_run.test_results) || has_failure(
        &run.doc_test_run.test_results,
    );
    if !(announced && failed) {
        assert(annotations.deep_view() =~= Seq::empty());
        return Ok(annotations);
    }
    let ghost features = run.features.deep_view();
    let ghost plain = run.test_run.test_results.deep_view();
    let mut i: usize = 0;
    while i < run.test_run.test_results.len()
        invariant
            i <= run.test_run.test_results.len(),
            features == run.features.deep_view(),
            plain == run.test_run.test_results.deep_view(),
            annotations.deep_view() == plain_annotations(features, plain.take(i as int)),
        decreases run.test_run.test_results.len() - i,
    {
        let result = &run.test_run.test_results[i];
        let ghost next = plain.take(i as int + 1);
        let ghost earlier = annotations.deep_view();
        assert(next.drop_last() =~= plain.take(i as int));
        match &result.result {
            TestResultValue::Failed(failure) => {
                let annotation = annotate(&run.features, result, &failure.location, CAUSE_HEADING);
                annotations.push(annotation);
            },
            TestResultValue::Passed => {},
        }
        i += 1;
    }
    assert(plain.take(i as int) =~= plain);
    let ghost written = annotations.deep_view();
    let ghost doc = run.doc_test_run.test_results.deep_view();
    let mut j: usize = 0;
    while j < run.doc_test_run.test_results.len()
        invariant
            j <= run.doc_test_run.test_results.len(),
            features == run.features.deep_view(),
            doc == run.doc_test_run.test_results.deep_view(),
            doc_annotations(features, doc.take(j as int)) is Ok,
            annotations.deep_view() == written + doc_annotations(
                features,
                doc.take(j as int),
            )->Ok_0,
        decreases run.doc_test_run.test_results.len() - j,
    {
        let result = &run.doc_test_run.test_results[j];
        let ghost next = doc.take(j as int + 1);
        let ghost earlier = annotations.deep_view();
        assert(next.drop_last() =~= doc.take(j as int));
        match &result.result {
            TestResultValue::Failed(failure) => {
                match correct_doctest_location(result.name.as_str(), &failure.location) {
                    Ok(location) => {
                        let annotation = annotate(
                            &run.features,
                            result,
                            &location,
                            DOC_CAUSE_HEADING,
                        );
                        annotations.push(annotation);
                        assert(annotations.deep_view() =~= earlier.push(annotation.deep_view()));
                    },
                    Err(e) => {
                        proof {
                            lemma_doc_annotations_fail(features, doc, j as int + 1);
                        }
                        return Err(e);
                    },
                }
            },
            TestResultValue::Passed => {},
        }
        j += 1;
    }
    assert(doc.take(j as int) =~= doc);
    Ok(annotations)
}

/// Where the documentation tests up to some test cannot be annotated,
/// neither can all of them, for the same reason.
pub proof fn lemma_doc_annotations_fail(
    features: Seq<Seq<char>>,
    results: Seq<ResultView>,
    k: int,
)
    requires
        0 <= k <= results.len(),
        doc_annotations(features, results.take(k)) is Err,
    ensures
        doc_annotations(features, results) == doc_annotations(features, results.take(k)),
    decreases results.len(),
{
    if k == results.len() {
        assert(results.take(k) =~= results);
    } else {
        assert(results.drop_last().take(k) =~= results.take(k));
        lemma_doc_annotations_fail(features, results.drop_last(), k);
    }
}

/// Where the runs up to some run cannot be annotated, neither can all of
/// them, for the same reason.
pub proof fn lemma_all_annotations_fail(runs: Seq<RunView>, k: int)
    requires
        0 <= k <= runs.len(),
        all_annotations(runs.take(k)) is Err,
    ensures
        all_annotations(runs) == all_annotations(runs.take(k)),
    decreases runs.len(),
{
    if k == runs.len() {
        assert(runs.take(k) =~= runs);
    } else {
        assert(runs.drop_last().take(k) =~= runs.take(k));
        lemma_all_annotations_fail(runs.drop_last(), k);
    }
}

/// Writes the annotations of all runs: one for each failed test of each
/// run that is reported.
pub fn annotations(test_runs: &Vec<TestRun>) -> (r: Result<Vec<CheckRunAnnotation>, ParseError>)
    ensures
        match r {
            Ok(found) => all_annotations(test_runs.deep_view()) == Ok::<_, ParseError>(
                found.deep_view(),
            ),
            Err(e) => all_annotations(test_runs.deep_view()) == Err::<Seq<AnnotationView>, _>(e),
        },
{
    let ghost runs = test_runs.deep_view();
    let mut all: Vec<CheckRunAnnotation> = Vec::new();
    let mut i: usize = 0;
    assert(all.deep_view() =~= Seq::empty());
    while i < test_runs.len()
        invariant
            i <= test_runs.len(),
            runs == test_runs.deep_view(),
            all_annotations(runs.take(i as int)) == Ok::<_, ParseError>(all.deep_view()),
        decreases test_runs.len() - i,
    {
        let ghost next = runs.take(i as int + 1);
        let ghost earlier = all.deep_view();
        assert(next.drop_last() =~= runs.take(i as int));
        match annotate_run(&test_runs[i]) {
            Ok(mut found) => {
                let ghost added = found.deep_view();
                all.append(&mut found);
                assert(all.deep_view() =~= earlier + added);
            },
            Err(e) => {
                proof {
                    lemma_all_annotations_fail(runs, i as int + 1);
                }
                return Err(e);
            },
        }
        i += 1;
    }
    assert(runs.take(i as int) =~= runs);
    Ok(all)
}

} // verus!

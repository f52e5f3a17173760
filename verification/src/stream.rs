//! The whole stream: it is cut into one segment per build artifact, and
//! each segment is read as one run.

use crate::error::ParseError;
use crate::lines::{lemma_run_end, run_end, skip_run, Sentinel};
use crate::model::{
    clone_strings, find_package, package_with_id, Package, PackageView, RunView, TestRun,
};
use crate::record::{Artifact, ArtifactView, Cursor, Event, EventView, Record, RecordView};
use crate::run::{lemma_run_advances, run_of, ParserView, TestRunParser};
use vstd::prelude::*;

verus! {

/// The artifact that later text lines belong to, once `event` was read:
/// the one that `event` reports, if it has an executable, else the one
/// before.
pub open spec fn current_after(current: Option<ArtifactView>, event: EventView) -> Option<
    ArtifactView,
> {
    match event {
        EventView::CompilerArtifact(artifact) => if artifact.executable is Some {
            Some(artifact)
        } else {
            current
        },
        EventView::Other => current,
    }
}

/// The run of the segment whose first text line stands at `pos`, and the
/// position of the first record after the run. The first line itself
/// belongs to no run. The package is the one that the current artifact
/// names; the features are the artifact's.
pub open spec fn segment(
    records: Seq<RecordView>,
    packages: Seq<PackageView>,
    pos: int,
    current: Option<ArtifactView>,
) -> Result<(RunView, int), ParseError> {
    match current {
        None => Err(ParseError::UnresolvedPackage),
        Some(artifact) => match package_with_id(packages, artifact.package_id) {
            None => Err(ParseError::UnresolvedPackage),
            Some(package) => run_of(
                ParserView::fresh(package, artifact.features),
                records,
                pos + 1,
            ),
        },
    }
}

/// The runs of the stream from `pos` on, added to `runs`. A typed event
/// may change the current artifact. A text line opens a segment, which
/// is read as a run; the text lines that follow the run are passed over.
pub open spec fn partition(
    records: Seq<RecordView>,
    packages: Seq<PackageView>,
    pos: int,
    current: Option<ArtifactView>,
    runs: Seq<RunView>,
) -> Result<Seq<RunView>, ParseError>
    decreases records.len() - pos,
{
    if pos < 0 || pos >= records.len() {
        Ok(runs)
    } else {
        match records[pos] {
            RecordView::TypedEvent(event) => partition(
                records,
                packages,
                pos + 1,
                current_after(current, event),
                runs,
            ),
            RecordView::TextLine(_) => match segment(records, packages, pos, current) {
                Err(e) => Err(e),
                Ok((run, after)) => {
                    proof {
                        lemma_segment_advances(records, packages, pos, current);
                        lemma_run_end(records, after, Sentinel::Never);
                    }
                    partition(
                        records,
                        packages,
                        run_end(records, after, Sentinel::Never),
                        current,
                        runs.push(run),
                    )
                },
            },
        }
    }
}

/// The runs that a stream of records holds, in the order in which their
/// segments stand in the stream.
pub open spec fn parsed(records: Seq<RecordView>, packages: Seq<PackageView>) -> Result<
    Seq<RunView>,
    ParseError,
> {
    partition(records, packages, 0, None, Seq::empty())
}

/// What a reading of a stream came to, as mathematical content.
pub open spec fn outcome(r: Result<Vec<TestRun>, ParseError>) -> Result<Seq<RunView>, ParseError> {
    match r {
        Ok(runs) => Ok(runs.deep_view()),
        Err(e) => Err(e),
    }
}

/// A segment ends after its first line, within the stream.
pub proof fn lemma_segment_advances(
    records: Seq<RecordView>,
    packages: Seq<PackageView>,
    pos: int,
    current: Option<ArtifactView>,
)
    requires
        0 <= pos < records.len(),
    ensures
        match segment(records, packages, pos, current) {
            Ok((_, after)) => pos < after <= records.len(),
            Err(_) => true,
        },
{
    match current {
        None => {},
        Some(artifact) => match package_with_id(packages, artifact.package_id) {
            None => {},
            Some(package) => {
                lemma_run_advances(
                    ParserView::fresh(package, artifact.features),
                    records,
                    pos + 1,
                );
            },
        },
    }
}

/// Reads a stream of records into the runs that it holds.
///
/// `workspace_packages` are the packages that an artifact may belong to.
/// The parse fails as a whole on the first segment that cannot be read.
#[verifier::loop_isolation(false)]
pub fn parse(records: &Vec<Record>, workspace_packages: &Vec<Package>) -> (r: Result<
    Vec<TestRun>,
    ParseError,
>)
    ensures
        outcome(r) == parsed(records.deep_view(), workspace_packages.deep_view()),
{
    let ghost all = records.deep_view();
    let ghost packages = workspace_packages.deep_view();
    let mut cursor = Cursor::new(records);
    let mut current: Option<&Artifact> = None;
    let mut test_runs: Vec<TestRun> = Vec::new();
    assert(test_runs.deep_view() =~= Seq::empty());
    loop
        invariant
            cursor.well_formed(),
            cursor.records() == all,
            parsed(all, packages) == partition(
                all,
                packages,
                cursor.position(),
                current.deep_view(),
                test_runs.deep_view(),
            ),
        decreases all.len() - cursor.position(),
    {
        let ghost pos = cursor.position();
        proof {
            cursor.lemma_within();
        }
        match cursor.advance() {
            None => {
                return Ok(test_runs);
            },
            Some(Record::TypedEvent(Event::CompilerArtifact(artifact))) => {
                if artifact.executable.is_some() {
                    current = Some(artifact);
                }
            },
            Some(Record::TypedEvent(Event::Other)) => {},
            Some(Record::TextLine(_)) => {
                let artifact = match current {
                    Some(artifact) => artifact,
                    None => {
                        return Err(ParseError::UnresolvedPackage);
                    },
                };
                let package = match find_package(workspace_packages, &artifact.package_id) {
                    Some(package) => package,
                    None => {
                        return Err(ParseError::UnresolvedPackage);
                    },
                };
                let features = clone_strings(&artifact.features);
                let test_run_parser = TestRunParser::new(package.clone(), features);
                proof {
                    lemma_segment_advances(all, packages, pos, current.deep_view());
                }
                let test_run = test_run_parser.parse(&mut cursor)?;
                let ghost earlier = test_runs.deep_view();
                test_runs.push(test_run);
                assert(test_runs.deep_view() =~= earlier.push(test_run.deep_view()));
                proof {
                    lemma_run_end(all, cursor.position(), Sentinel::Never);
                }
                skip_run(&mut cursor, Sentinel::Never);
            },
        }
    }
}

} // verus!

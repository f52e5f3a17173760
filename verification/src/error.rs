//! The ways in which reading a stream can fail. Every one of them ends the
//! whole parse.

use crate::state::TestRunParserState;
use vstd::prelude::*;

verus! {

#[derive(Clone, Copy, Debug, PartialEq, Eq, Structural)]
pub enum ParseError {
    /// A text line opens a segment whose package cannot be told: no
    /// artifact with an executable precedes it, or the artifact's package
    /// identifier matches no known package.
    UnresolvedPackage,
    /// The record at `position` is a typed event, met while the parser was
    /// in `state` and only text lines could follow.
    UnexpectedRecord { position: usize, state: TestRunParserState },
    /// The stream ended while the parser was in `state`, before the run
    /// was complete.
    UnexpectedEnd { state: TestRunParserState },
    /// A line announces a number of tests that cannot be read.
    MalformedCount,
    /// A test line or a summary line lacks a field, or one of the counts
    /// of a summary line cannot be read.
    MalformedResultLine,
    /// The text of a panic does not end in `, file:line:column`.
    MalformedLocation,
    /// The name of a documentation test is not `file - (line N)`, or the
    /// corrected location does not fit.
    MalformedDoctestName,
    /// An outcome is neither `ok` nor `FAILED`.
    UnknownOutcomeToken,
    /// A failure block names a test that was not seen among the test
    /// lines.
    NoSuchPendingResult,
    /// A test was reported as failed and no failure block came for it.
    MissingFailureInfo,
    /// The regular-expression engine refused one of the line patterns.
    PatternRejected,
}

} // verus!

//! The states of the two nested machines, and the phases of a run.

use vstd::prelude::*;

verus! {

/// The states of the machine that reads one phase.
#[derive(Clone, Copy, Debug, PartialEq, Eq, Structural)]
pub enum TestRunParserState {
    Initial,
    Tests,
    FailuresOutput,
    FailuresListing,
    Results,
    Done,
}

/// The states of the machine that reads one failure block.
#[derive(Clone, Copy, Debug, PartialEq, Eq, Structural)]
pub enum TestRunFailureParserState {
    Initial,
    Header,
    Panic,
    Stacktrace,
    Done,
}

/// The phases of a run: plain tests, then documentation tests.
#[derive(Clone, Copy, Debug, PartialEq, Eq, Structural)]
pub enum TestRunParserPhase {
    Tests,
    DocTests,
    Done,
}

} // verus!

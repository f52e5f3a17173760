//! Reads the output of a test harness, interleaved with typed build
//! events, into a typed report: which tests ran, which failed, and for
//! each failure the panic message, the source location and the stack
//! trace. From the report it writes the annotations of a check run.

pub mod check_run;
pub mod checks;
pub mod doctest;
pub mod error;
pub mod failure;
pub mod laws;
pub mod lines;
pub mod model;
pub mod pattern;
pub mod record;
pub mod report;
pub mod run;
pub mod state;
pub mod stream;
pub mod text;

pub use check_run::{CheckHandler, CreateCheckRunBuilder};
pub use checks::{
    AnnotationLevel, CheckRunAction, CheckRunAnnotation, CheckRunCheckSuite, CheckRunConclusion,
    CheckRunImage, CheckRunOutputArgument, CheckRunOutputResponse, CheckRunStatus, Timestamp,
};
pub use error::ParseError;
pub use model::{
    Package, TestData, TestDataParseResult, TestFailureInfo, TestFailureLocation,
    TestFailureLocationParseError, TestResult, TestResultKind, TestResultKindParseError,
    TestResultParseResult, TestResultValue, TestRun, TestSummary,
};
pub use record::{Artifact, Cursor, Event, Record};
pub use run::TestRunParser;
pub use state::{TestRunFailureParserState, TestRunParserPhase, TestRunParserState};
pub use stream::parse;

//! Documentation tests report failures at a place in the wrapper that the
//! compiler builds around each example. The test's name tells where the
//! example stands, and so where the failure really is.

use crate::error::ParseError;
use crate::model::{LocationView, TestFailureLocation};
use crate::pattern::{find_groups, group, group_text, groups_of};
use crate::text::{parse_u64, parse_unsigned};
use vstd::prelude::*;
use vstd::string::*;

verus! {

/// The name of a documentation test: the file, and the line at which the
/// example starts.
pub const DOCTEST_NAME_PATTERN: &'static str = r"(?P<file>.+?) - \(line (?P<line>\d+)\)";

/// The lines that the wrapper puts in front of an example.
pub const WRAPPER_LINES: u64 = 3;

/// The columns by which the wrapper indents an example.
pub const WRAPPER_COLUMNS: u64 = 4;

/// The line at which the example starts, from the groups of a
/// documentation test's name.
pub open spec fn example_line(groups: Seq<Option<Seq<char>>>) -> Result<u64, ParseError> {
    match (group(groups, 1), group(groups, 2)) {
        (Some(_), Some(line)) => match parse_unsigned(line, u64::MAX as nat) {
            Some(n) => Ok(n as u64),
            None => Err(ParseError::MalformedDoctestName),
        },
        _ => Err(ParseError::MalformedDoctestName),
    }
}

/// The line at which the example of the documentation test `name` starts.
pub open spec fn doctest_shape(name: Seq<char>) -> Result<u64, ParseError> {
    match groups_of(DOCTEST_NAME_PATTERN@, name) {
        Err(e) => Err(e),
        Ok(None) => Err(ParseError::MalformedDoctestName),
        Ok(Some(groups)) => example_line(groups),
    }
}

/// Reads the example's line from the groups of a documentation test's
/// name.
pub fn read_example_line(groups: &Vec<Option<String>>) -> (r: Result<u64, ParseError>)
    ensures
        r == example_line(groups.deep_view()),
{
    match (group_text(groups, 1), group_text(groups, 2)) {
        (Some(_), Some(line)) => match parse_u64(line.as_str()) {
            Some(n) => Ok(n),
            None => Err(ParseError::MalformedDoctestName),
        },
        _ => Err(ParseError::MalformedDoctestName),
    }
}

/// Reads the example's line from a documentation test's name.
pub fn match_doctest_name(name: &str) -> (r: Result<u64, ParseError>)
    ensures
        r == doctest_shape(name@),
{
    match find_groups(DOCTEST_NAME_PATTERN, name)? {
        None => Err(ParseError::MalformedDoctestName),
        Some(groups) => read_example_line(&groups),
    }
}

/// The corrected line and column are numbers that a location can hold.
pub open spec fn correction_fits(location: LocationView, example: u64) -> bool {
    &&& location.line + example >= WRAPPER_LINES
    &&& location.line + example - WRAPPER_LINES <= u64::MAX
    &&& location.column + WRAPPER_COLUMNS <= u64::MAX
}

/// The place in the sources that a failure reported at `location` in the
/// wrapper belongs to, for an example that starts at line `example`: the
/// same file, line `location.line + example - 3`, column
/// `location.column + 4`.
pub open spec fn corrected(location: LocationView, example: u64) -> LocationView {
    LocationView {
        file: location.file,
        line: (location.line + example - WRAPPER_LINES) as u64,
        column: (location.column + WRAPPER_COLUMNS) as u64,
    }
}

/// Corrects a location reported in the wrapper of an example that starts
/// at line `example`.
pub fn corrected_location(location: &TestFailureLocation, example: u64) -> (r: TestFailureLocation)
    requires
        correction_fits(location.deep_view(), example),
    ensures
        r.deep_view() == corrected(location.deep_view(), example),
{
    let sum: u128 = location.line as u128 + example as u128;
    TestFailureLocation {
        file: location.file.clone(),
        line: (sum - WRAPPER_LINES as u128) as u64,
        column: location.column + WRAPPER_COLUMNS,
    }
}

/// Whether the corrected line and column fit.
pub fn fits(location: &TestFailureLocation, example: u64) -> (r: bool)
    ensures
        r == correction_fits(location.deep_view(), example),
{
    let sum: u128 = location.line as u128 + example as u128;
    sum >= WRAPPER_LINES as u128 && sum - WRAPPER_LINES as u128 <= u64::MAX as u128
        && location.column <= u64::MAX - WRAPPER_COLUMNS
}

/// What the correction of `location` for the documentation test `name`
/// comes to.
pub open spec fn doctest_location(name: Seq<char>, location: LocationView) -> Result<
    LocationView,
    ParseError,
> {
    match doctest_shape(name) {
        Err(e) => Err(e),
        Ok(example) => if correction_fits(location, example) {
            Ok(corrected(location, example))
        } else {
            Err(ParseError::MalformedDoctestName)
        },
    }
}

/// Corrects the location of a failure of the documentation test `name`.
/// Fails where the name is not `file - (line N)`, and where the corrected
/// line or column is no number that a location can hold.
pub fn correct_doctest_location(name: &str, location: &TestFailureLocation) -> (r: Result<
    TestFailureLocation,
    ParseError,
>)
    ensures
        match r {
            Ok(true_place) => doctest_location(name@, location.deep_view()) == Ok::<_, ParseError>(
                true_place.deep_view(),
            ),
            Err(e) => doctest_location(name@, location.deep_view()) == Err::<LocationView, _>(e),
        },
{
    let example = match_doctest_name(name)?;
    if fits(location, example) {
        Ok(corrected_location(location, example))
    } else {
        Err(ParseError::MalformedDoctestName)
    }
}

} // verus!

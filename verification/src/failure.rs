//! The failure section: one block per failed test, each holding the test's
//! name, the text of its panic with the place where it was raised, and a
//! stack trace.

use crate::error::ParseError;
use crate::lines::{
    failures_marker, gather_run, is_failures_marker, joined, lemma_run_end, run_end, Sentinel,
};
use crate::model::{
    location_of, FailureView, PendingView, TestFailureInfo, TestFailureLocation,
    TestResultParseResult,
};
use crate::pattern::{header_shape, match_header};
use crate::record::{expect_line, Cursor, RecordView};
use crate::state::{TestRunFailureParserState, TestRunParserState};
use crate::text::{chars_of, last_index_of, rfind_char, substring, trim_bounds, trimmed};
use vstd::prelude::*;
use vstd::string::*;

verus! {

/// The position of the first line at or after `pos` that is the marker of
/// the failure section. Only text lines may come before it.
pub open spec fn marker_position(records: Seq<RecordView>, pos: int) -> Result<int, ParseError>
    decreases records.len() - pos,
{
    match expect_line(records, pos, TestRunParserState::FailuresOutput) {
        Err(e) => Err(e),
        Ok(text) => if is_failures_marker(text) {
            Ok(pos)
        } else {
            marker_position(records, pos + 1)
        },
    }
}

/// The position of the first line at or after `pos` that is a failure
/// header, and the test that it names. Only text lines may come before it.
pub open spec fn header_position(records: Seq<RecordView>, pos: int) -> Result<
    (int, Seq<char>),
    ParseError,
>
    decreases records.len() - pos,
{
    match expect_line(records, pos, TestRunParserState::FailuresOutput) {
        Err(e) => Err(e),
        Ok(text) => match header_shape(text) {
            Err(e) => Err(e),
            Ok(Some(name)) => Ok((pos, name)),
            Ok(None) => header_position(records, pos + 1),
        },
    }
}

/// The two parts of a panic's text: the message, which is all that stands
/// before the last comma, and the location, which is what follows that
/// comma and one space, trimmed.
pub open spec fn split_panic(text: Seq<char>) -> Option<(Seq<char>, Seq<char>)> {
    match last_index_of(text, ',') {
        None => None,
        Some(i) => if i + 1 < text.len() && text[i + 1] == ' ' {
            Some((text.take(i), trimmed(text.skip(i + 2))))
        } else {
            None
        },
    }
}

/// Splits a panic's text into message and location.
pub fn split_panic_text(text: &str) -> (r: Option<(String, String)>)
    ensures
        match r {
            Some(parts) => split_panic(text@) == Some((parts.0@, parts.1@)),
            None => split_panic(text@) is None,
        },
{
    let v = chars_of(text);
    match rfind_char(&v, ',') {
        None => None,
        Some(i) => {
            if i + 1 < v.len() && v[i + 1] == ' ' {
                let message = substring(text, 0, i);
                let rest = substring(text, i + 2, v.len());
                let w = chars_of(rest.as_str());
                let (a, b) = trim_bounds(&w);
                let location = substring(rest.as_str(), a, b);
                Some((message, location))
            } else {
                None
            }
        },
    }
}

/// One failure block while it is being read.
#[derive(Debug)]
pub struct FailureBlockParser {
    pub state: TestRunFailureParserState,
    pub name: Option<String>,
    pub panic_text: Option<String>,
    pub location: Option<String>,
    pub stacktrace: Option<String>,
}

/// The mathematical content of a [`FailureBlockParser`].
pub struct BlockView {
    pub state: TestRunFailureParserState,
    pub name: Option<Seq<char>>,
    pub panic_text: Option<Seq<char>>,
    pub location: Option<Seq<char>>,
    pub stacktrace: Option<Seq<char>>,
}

impl DeepView for FailureBlockParser {
    type V = BlockView;

    open spec fn deep_view(&self) -> BlockView {
        BlockView {
            state: self.state,
            name: self.name.deep_view(),
            panic_text: self.panic_text.deep_view(),
            location: self.location.deep_view(),
            stacktrace: self.stacktrace.deep_view(),
        }
    }
}

impl BlockView {
    /// A block of which nothing was read yet, in `state`.
    pub open spec fn fresh(state: TestRunFailureParserState) -> BlockView {
        BlockView { state, name: None, panic_text: None, location: None, stacktrace: None }
    }

    /// In `Initial`: lines are passed over up to and including the marker
    /// of the failure section.
    pub open spec fn initial_step(self, records: Seq<RecordView>, pos: int) -> Result<
        (BlockView, int),
        ParseError,
    > {
        match marker_position(records, pos) {
            Err(e) => Err(e),
            Ok(marker) => Ok(
                (BlockView { state: TestRunFailureParserState::Header, ..self }, marker + 1),
            ),
        }
    }

    /// In `Header`: lines are passed over up to and including the next
    /// failure header, which gives the block its name.
    pub open spec fn header_step(self, records: Seq<RecordView>, pos: int) -> Result<
        (BlockView, int),
        ParseError,
    > {
        match header_position(records, pos) {
            Err(e) => Err(e),
            Ok((header, name)) => Ok(
                (
                    BlockView {
                        state: TestRunFailureParserState::Panic,
                        name: Some(name),
                        ..self
                    },
                    header + 1,
                ),
            ),
        }
    }

    /// In `Panic`: the line at `pos` and the run of lines after it, up to
    /// the line that opens the stack trace, are the panic's text, which
    /// is split into message and location. The opening line of the stack
    /// trace is left unread.
    pub open spec fn panic_step(self, records: Seq<RecordView>, pos: int) -> Result<
        (BlockView, int),
        ParseError,
    > {
        let end = run_end(records, pos + 1, Sentinel::Backtrace);
        match expect_line(records, pos, TestRunParserState::FailuresOutput) {
            Err(e) => Err(e),
            Ok(_) => match expect_line(records, end, TestRunParserState::FailuresOutput) {
                Err(e) => Err(e),
                Ok(_) => match split_panic(joined(records, pos, end)) {
                    None => Err(ParseError::MalformedLocation),
                    Some((message, location)) => Ok(
                        (
                            BlockView {
                                state: TestRunFailureParserState::Stacktrace,
                                panic_text: Some(message),
                                location: Some(location),
                                ..self
                            },
                            end,
                        ),
                    ),
                },
            },
        }
    }

    /// In `Stacktrace`: the line at `pos` and the run of lines after it,
    /// up to the first blank line, are the stack trace. The blank line is
    /// read too.
    pub open spec fn stacktrace_step(self, records: Seq<RecordView>, pos: int) -> Result<
        (BlockView, int),
        ParseError,
    > {
        let end = run_end(records, pos + 1, Sentinel::Blank);
        match expect_line(records, pos, TestRunParserState::FailuresOutput) {
            Err(e) => Err(e),
            Ok(_) => match expect_line(records, end, TestRunParserState::FailuresOutput) {
                Err(e) => Err(e),
                Ok(_) => Ok(
                    (
                        BlockView {
                            state: TestRunFailureParserState::Done,
                            stacktrace: Some(joined(records, pos, end)),
                            ..self
                        },
                        end + 1,
                    ),
                ),
            },
        }
    }

    /// One transition: what the block is after the lines of its current
    /// state were read from `pos` on, and where reading goes on.
    pub open spec fn step(self, records: Seq<RecordView>, pos: int) -> Result<
        (BlockView, int),
        ParseError,
    > {
        match self.state {
            TestRunFailureParserState::Initial => self.initial_step(records, pos),
            TestRunFailureParserState::Header => self.header_step(records, pos),
            TestRunFailureParserState::Panic => self.panic_step(records, pos),
            TestRunFailureParserState::Stacktrace => self.stacktrace_step(records, pos),
            TestRunFailureParserState::Done => Ok((self, pos)),
        }
    }

    /// The transitions that are left before the block is `Done`: at most
    /// four.
    pub open spec fn run(self, records: Seq<RecordView>, pos: int) -> Result<
        (BlockView, int),
        ParseError,
    >
        decreases self.state.rank(),
    {
        if self.state is Done {
            Ok((self, pos))
        } else {
            match self.step(records, pos) {
                Err(e) => Err(e),
                Ok((next, after)) => next.run(records, after),
            }
        }
    }
}

impl TestRunFailureParserState {
    /// The number of transitions from this state to `Done`.
    pub open spec fn rank(self) -> nat {
        match self {
            TestRunFailureParserState::Initial => 4,
            TestRunFailureParserState::Header => 3,
            TestRunFailureParserState::Panic => 2,
            TestRunFailureParserState::Stacktrace => 1,
            TestRunFailureParserState::Done => 0,
        }
    }
}

impl FailureBlockParser {
    /// A block of which nothing was read yet, in `state`.
    pub fn new(state: TestRunFailureParserState) -> (block: Self)
        ensures
            block.deep_view() == BlockView::fresh(state),
    {
        FailureBlockParser { state, name: None, panic_text: None, location: None, stacktrace: None }
    }

    /// Reads the lines of the current state and moves to the next state.
    #[verifier::loop_isolation(false)]
    pub fn step(&mut self, cursor: &mut Cursor) -> (r: Result<(), ParseError>)
        ensures
            final(cursor).well_formed(),
            final(cursor).records() == old(cursor).records(),
            match old(self).deep_view().step(old(cursor).records(), old(cursor).position()) {
                Ok((next, after)) => r is Ok && final(self).deep_view() == next
                    && final(cursor).position() == after,
                Err(e) => r == Err::<(), _>(e),
            },
    {
        let ghost records = cursor.records();
        proof {
            use_type_invariant(&*cursor);
        }
        let ghost start = cursor.position();
        match self.state {
            TestRunFailureParserState::Initial => {
                loop
                    invariant
                        cursor.well_formed(),
                        cursor.records() == records,
                        marker_position(records, start) == marker_position(
                            records,
                            cursor.position(),
                        ),
                        *self == *old(self),
                    decreases records.len() - cursor.position(),
                {
                    let text = cursor.expect_line(TestRunParserState::FailuresOutput)?;
                    if failures_marker(text.as_str()) {
                        self.state = TestRunFailureParserState::Header;
                        return Ok(());
                    }
                }
            },
            TestRunFailureParserState::Header => {
                loop
                    invariant
                        cursor.well_formed(),
                        cursor.records() == records,
                        header_position(records, start) == header_position(
                            records,
                            cursor.position(),
                        ),
                        *self == *old(self),
                    decreases records.len() - cursor.position(),
                {
                    let text = cursor.expect_line(TestRunParserState::FailuresOutput)?;
                    match match_header(text.as_str())? {
                        Some(name) => {
                            self.name = Some(name);
                            self.state = TestRunFailureParserState::Panic;
                            return Ok(());
                        },
                        None => {},
                    }
                }
            },
            TestRunFailureParserState::Panic => {
                let text = gather_run(
                    cursor,
                    TestRunParserState::FailuresOutput,
                    Sentinel::Backtrace,
                )?;
                let _ = cursor.peek_expected(TestRunParserState::FailuresOutput)?;
                match split_panic_text(text.as_str()) {
                    None => Err(ParseError::MalformedLocation),
                    Some((message, location)) => {
                        self.panic_text = Some(message);
                        self.location = Some(location);
                        self.state = TestRunFailureParserState::Stacktrace;
                        Ok(())
                    },
                }
            },
            TestRunFailureParserState::Stacktrace => {
                let text = gather_run(
                    cursor,
                    TestRunParserState::FailuresOutput,
                    Sentinel::Blank,
                )?;
                let _ = cursor.expect_line(TestRunParserState::FailuresOutput)?;
                self.stacktrace = Some(text);
                self.state = TestRunFailureParserState::Done;
                Ok(())
            },
            TestRunFailureParserState::Done => Ok(()),
        }
    }

    /// Reads on until the block is `Done`.
    #[verifier::loop_isolation(false)]
    pub fn run(&mut self, cursor: &mut Cursor) -> (r: Result<(), ParseError>)
        ensures
            final(cursor).well_formed(),
            final(cursor).records() == old(cursor).records(),
            match old(self).deep_view().run(old(cursor).records(), old(cursor).position()) {
                Ok((done, after)) => r is Ok && final(self).deep_view() == done
                    && final(cursor).position() == after,
                Err(e) => r == Err::<(), _>(e),
            },
    {
        let ghost records = cursor.records();
        proof {
            use_type_invariant(&*cursor);
        }
        let ghost start = cursor.position();
        while !matches!(self.state, TestRunFailureParserState::Done)
            invariant
                cursor.well_formed(),
                cursor.records() == records,
                old(self).deep_view().run(records, start) == self.deep_view().run(
                    records,
                    cursor.position(),
                ),
            decreases self.state.rank(),
        {
            self.step(cursor)?;
        }
        Ok(())
    }
}

impl BlockView {
    /// What a finished block says: the test's name and the details of its
    /// failure, with the location read from its text.
    pub open spec fn failure(self) -> Result<(Seq<char>, FailureView), ParseError> {
        match (self.name, self.panic_text, self.location, self.stacktrace) {
            (Some(name), Some(panic_text), Some(location), Some(stacktrace)) => match location_of(
                location,
            ) {
                Some(location) => Ok((name, FailureView { panic_text, location, stacktrace })),
                None => Err(ParseError::MalformedLocation),
            },
            _ => Err(ParseError::MalformedLocation),
        }
    }
}

impl FailureBlockParser {
    /// The test's name and the details of its failure, from a finished
    /// block.
    pub fn finish(self) -> (r: Result<(String, TestFailureInfo), ParseError>)
        ensures
            match r {
                Ok(found) => self.deep_view().failure() == Ok::<_, ParseError>(
                    (found.0@, found.1.deep_view()),
                ),
                Err(e) => self.deep_view().failure() == Err::<(Seq<char>, FailureView), _>(e),
            },
    {
        let FailureBlockParser { state: _, name, panic_text, location, stacktrace } = self;
        match (name, panic_text, location, stacktrace) {
            (Some(name), Some(panic_text), Some(location), Some(stacktrace)) => {
                match TestFailureLocation::from_str(location.as_str()) {
                    Ok(location) => Ok(
                        (name, TestFailureInfo::new(panic_text, location, stacktrace)),
                    ),
                    Err(_) => Err(ParseError::MalformedLocation),
                }
            },
            _ => Err(ParseError::MalformedLocation),
        }
    }
}

/// The index of the first pending result with the given name.
pub open spec fn first_named(results: Seq<PendingView>, name: Seq<char>) -> Option<int>
    decreases results.len(),
{
    if results.len() == 0 {
        None
    } else if results[0].name == name {
        Some(0)
    } else {
        match first_named(results.drop_first(), name) {
            Some(i) => Some(i + 1),
            None => None,
        }
    }
}

/// The pending results after the details of a failure were given to the
/// first result with that name, if there is one.
pub open spec fn attach(results: Seq<PendingView>, name: Seq<char>, info: FailureView) -> Option<
    Seq<PendingView>,
> {
    match first_named(results, name) {
        Some(i) => Some(results.update(i, PendingView { failure_info: Some(info), ..results[i] })),
        None => None,
    }
}

/// The index that `first_named` gives lies within the results, holds the
/// name, and no earlier result holds it.
pub proof fn lemma_first_named(results: Seq<PendingView>, name: Seq<char>)
    ensures
        match first_named(results, name) {
            Some(i) => 0 <= i < results.len() && results[i].name == name && forall|j: int|
                0 <= j < i ==> (#[trigger] results[j]).name != name,
            None => forall|j: int| 0 <= j < results.len() ==> (#[trigger] results[j]).name != name,
        },
    decreases results.len(),
{
    if results.len() > 0 && results[0].name != name {
        let rest = results.drop_first();
        lemma_first_named(rest, name);
        match first_named(rest, name) {
            Some(i) => {
                assert forall|j: int| 0 <= j < i + 1 implies (#[trigger] results[j]).name
                    != name by {
                    if j > 0 {
                        assert(rest[j - 1].name != name);
                    }
                }
            },
            None => {
                assert forall|j: int| 0 <= j < results.len() implies (#[trigger] results[j]).name
                    != name by {
                    if j > 0 {
                        assert(rest[j - 1].name != name);
                    }
                }
            },
        }
    }
}

/// Gives the details of a failure to the first pending result with the
/// given name.
pub fn attach_failure(
    results: &mut Vec<TestResultParseResult>,
    name: &String,
    info: TestFailureInfo,
) -> (r: Result<(), ParseError>)
    ensures
        match attach(old(results).deep_view(), name@, info.deep_view()) {
            Some(updated) => r is Ok && final(results).deep_view() == updated,
            None => r == Err::<(), _>(ParseError::NoSuchPendingResult)
                && final(results).deep_view() == old(results).deep_view(),
        },
{
    let ghost pending = results.deep_view();
    let n = results.len();
    let mut i: usize = 0;
    assert(pending.skip(0) =~= pending);
    while i < n
        invariant
            i <= n,
            n == results.len(),
            *results == *old(results),
            pending == results.deep_view(),
            match first_named(pending.skip(i as int), name@) {
                Some(k) => first_named(pending, name@) == Some(k + i),
                None => first_named(pending, name@) is None,
            },
        decreases n - i,
    {
        if results[i].name == *name {
            results[i].failure_info = Some(info);
            return Ok(());
        }
        assert(pending.skip(i as int).drop_first() =~= pending.skip(i as int + 1));
        i += 1;
    }
    Err(ParseError::NoSuchPendingResult)
}

/// Where reading goes on after a block: the position of the first line
/// at or after `pos` that is a failure header (with `true`: another block
/// follows) or the marker that opens the listing of failed tests (with
/// `false`). Only text lines may come before it. Neither line is read.
pub open spec fn section_position(records: Seq<RecordView>, pos: int) -> Result<
    (int, bool),
    ParseError,
>
    decreases records.len() - pos,
{
    match expect_line(records, pos, TestRunParserState::FailuresOutput) {
        Err(e) => Err(e),
        Ok(text) => match header_shape(text) {
            Err(e) => Err(e),
            Ok(Some(_)) => Ok((pos, true)),
            Ok(None) => if is_failures_marker(text) {
                Ok((pos, false))
            } else {
                section_position(records, pos + 1)
            },
        },
    }
}

/// The marker of the failure section stands at or after the position
/// from which it is sought.
pub proof fn lemma_marker_position(records: Seq<RecordView>, pos: int)
    ensures
        match marker_position(records, pos) {
            Ok(marker) => 0 <= pos <= marker < records.len(),
            Err(_) => true,
        },
    decreases records.len() - pos,
{
    match expect_line(records, pos, TestRunParserState::FailuresOutput) {
        Err(_) => {},
        Ok(text) => {
            if !is_failures_marker(text) {
                lemma_marker_position(records, pos + 1);
            }
        },
    }
}

/// A failure header stands at or after the position from which it is
/// sought.
pub proof fn lemma_header_position(records: Seq<RecordView>, pos: int)
    ensures
        match header_position(records, pos) {
            Ok((header, _)) => 0 <= pos <= header < records.len(),
            Err(_) => true,
        },
    decreases records.len() - pos,
{
    match expect_line(records, pos, TestRunParserState::FailuresOutput) {
        Err(_) => {},
        Ok(text) => {
            if header_shape(text) == Ok::<Option<Seq<char>>, ParseError>(None) {
                lemma_header_position(records, pos + 1);
            }
        },
    }
}

/// What follows a block stands at or after the position from which it is
/// sought.
pub proof fn lemma_section_position(records: Seq<RecordView>, pos: int)
    ensures
        match section_position(records, pos) {
            Ok((next, _)) => 0 <= pos <= next < records.len(),
            Err(_) => true,
        },
    decreases records.len() - pos,
{
    match expect_line(records, pos, TestRunParserState::FailuresOutput) {
        Err(_) => {},
        Ok(text) => {
            if header_shape(text) == Ok::<Option<Seq<char>>, ParseError>(None)
                && !is_failures_marker(text) {
                lemma_section_position(records, pos + 1);
            }
        },
    }
}

/// A block that is read from its first or second state on ends after at
/// least one line, within the stream, with all four of its parts.
pub proof fn lemma_block_run(records: Seq<RecordView>, pos: int, state: TestRunFailureParserState)
    requires
        state is Initial || state is Header,
    ensures
        match BlockView::fresh(state).run(records, pos) {
            Ok((block, end)) => {
                &&& 0 <= pos < end <= records.len()
                &&& block.state is Done
                &&& block.name is Some
                &&& block.panic_text is Some
                &&& block.location is Some
                &&& block.stacktrace is Some
            },
            Err(_) => true,
        },
{
    let fresh = BlockView::fresh(state);
    if state is Initial {
        lemma_marker_position(records, pos);
        match fresh.step(records, pos) {
            Ok((headed, after)) => {
                lemma_block_from_header(records, after, headed);
            },
            Err(_) => {},
        }
    } else {
        lemma_block_from_header(records, pos, fresh);
    }
}

/// The same, for a block that stands in its second state.
proof fn lemma_block_from_header(records: Seq<RecordView>, pos: int, block: BlockView)
    requires
        block.state is Header,
    ensures
        match block.run(records, pos) {
            Ok((done, end)) => {
                &&& 0 <= pos < end <= records.len()
                &&& done.state is Done
                &&& done.name is Some
                &&& done.panic_text is Some
                &&& done.location is Some
                &&& done.stacktrace is Some
            },
            Err(_) => true,
        },
{
    reveal_with_fuel(BlockView::run, 4);
    lemma_header_position(records, pos);
    match block.step(records, pos) {
        Ok((named, first)) => {
            match named.step(records, first) {
                Ok((split, marker)) => {
                    lemma_run_end(records, marker + 1, Sentinel::Blank);
                },
                Err(_) => {},
            }
        },
        Err(_) => {},
    }
}

/// The failure section from `pos` on. Its first block is sought from the
/// marker of the section on (`state` is `Initial`), each later one from
/// its header on (`state` is `Header`). Each block gives its details to
/// the pending result that it names. The section ends in front of the
/// marker that opens the listing of failed tests. The result is the
/// pending results as they then stand, and the position of that marker.
pub open spec fn failure_blocks(
    results: Seq<PendingView>,
    records: Seq<RecordView>,
    pos: int,
    state: TestRunFailureParserState,
) -> Result<(Seq<PendingView>, int), ParseError>
    decreases records.len() - pos,
    when state is Initial || state is Header
{
    match BlockView::fresh(state).run(records, pos) {
        Err(e) => Err(e),
        Ok((block, end)) => match block.failure() {
            Err(e) => Err(e),
            Ok((name, info)) => match attach(results, name, info) {
                None => Err(ParseError::NoSuchPendingResult),
                Some(updated) => match section_position(records, end) {
                    Err(e) => Err(e),
                    Ok((next, more)) => if more {
                        proof {
                            lemma_block_run(records, pos, state);
                            lemma_section_position(records, end);
                        }
                        failure_blocks(updated, records, next, TestRunFailureParserState::Header)
                    } else {
                        Ok((updated, next))
                    },
                },
            },
        },
    }
}

/// Moves the cursor in front of what follows a block, and tells whether
/// that is another block.
#[verifier::loop_isolation(false)]
pub fn next_section(cursor: &mut Cursor) -> (r: Result<bool, ParseError>)
    ensures
        final(cursor).well_formed(),
        final(cursor).records() == old(cursor).records(),
        match section_position(old(cursor).records(), old(cursor).position()) {
            Ok((next, more)) => r == Ok::<_, ParseError>(more) && final(cursor).position()
                == next,
            Err(e) => r == Err::<bool, _>(e),
        },
{
    let ghost records = cursor.records();
    proof {
        use_type_invariant(&*cursor);
    }
    let ghost start = cursor.position();
    loop
        invariant
            cursor.well_formed(),
            cursor.records() == records,
            section_position(records, start) == section_position(records, cursor.position()),
        decreases records.len() - cursor.position(),
    {
        let text = cursor.peek_expected(TestRunParserState::FailuresOutput)?;
        match match_header(text.as_str())? {
            Some(_) => { return Ok(true); },
            None => {
                if failures_marker(text.as_str()) {
                    return Ok(false);
                }
            },
        }
        let _ = cursor.advance();
    }
}

/// Reads the failure section and gives each failed test its details.
#[verifier::loop_isolation(false)]
pub fn parse_failures(results: &mut Vec<TestResultParseResult>, cursor: &mut Cursor) -> (r: Result<
    (),
    ParseError,
>)
    ensures
        final(cursor).well_formed(),
        final(cursor).records() == old(cursor).records(),
        match failure_blocks(
            old(results).deep_view(),
            old(cursor).records(),
            old(cursor).position(),
            TestRunFailureParserState::Initial,
        ) {
            Ok((updated, after)) => r is Ok && final(results).deep_view() == updated
                && final(cursor).position() == after,
            Err(e) => r == Err::<(), _>(e),
        },
{
    let ghost records = cursor.records();
    proof {
        use_type_invariant(&*cursor);
    }
    let ghost start = cursor.position();
    let mut state = TestRunFailureParserState::Initial;
    loop
        invariant
            cursor.well_formed(),
            cursor.records() == records,
            state is Initial || state is Header,
            failure_blocks(
                old(results).deep_view(),
                records,
                start,
                TestRunFailureParserState::Initial,
            ) == failure_blocks(results.deep_view(), records, cursor.position(), state),
        decreases records.len() - cursor.position(),
    {
        proof {
            lemma_block_run(records, cursor.position(), state);
        }
        let mut block = FailureBlockParser::new(state);
        block.run(cursor)?;
        let (name, info) = block.finish()?;
        attach_failure(results, &name, info)?;
        proof {
            lemma_section_position(records, cursor.position());
        }
        if !next_section(cursor)? {
            return Ok(());
        }
        state = TestRunFailureParserState::Header;
    }
}

/// A failure section ends at or after the position from which it is
/// read, in front of a line.
pub proof fn lemma_failure_blocks(
    results: Seq<PendingView>,
    records: Seq<RecordView>,
    pos: int,
    state: TestRunFailureParserState,
)
    requires
        state is Initial || state is Header,
    ensures
        match failure_blocks(results, records, pos, state) {
            Ok((_, listing)) => 0 <= pos < listing < records.len(),
            Err(_) => true,
        },
    decreases records.len() - pos,
{
    lemma_block_run(records, pos, state);
    match BlockView::fresh(state).run(records, pos) {
        Err(_) => {},
        Ok((block, end)) => match block.failure() {
            Err(_) => {},
            Ok((name, info)) => match attach(results, name, info) {
                None => {},
                Some(updated) => {
                    lemma_section_position(records, end);
                    match section_position(records, end) {
                        Err(_) => {},
                        Ok((next, more)) => {
                            if more {
                                lemma_failure_blocks(
                                    updated,
                                    records,
                                    next,
                                    TestRunFailureParserState::Header,
                                );
                            }
                        },
                    }
                },
            },
        },
    }
}

} // verus!

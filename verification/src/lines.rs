//! Runs of text lines: where a run ends, and what its lines read when
//! they are joined.

use crate::error::ParseError;
use crate::record::{expect_line, line_at, text_of, Cursor, RecordView};
use crate::state::TestRunParserState;
use crate::text::{blank, is_blank, trimmed, trimmed_equals};
use vstd::prelude::*;
use vstd::string::*;

verus! {

/// The line that opens the failure section, and later its listing.
pub const FAILURES_MARKER: &'static str = "failures:";

/// The line that parts a panic's text from its stack trace.
pub const BACKTRACE_MARKER: &'static str = "stack backtrace:";

/// Whether `text`, once trimmed, is the marker of the failure section.
pub open spec fn is_failures_marker(text: Seq<char>) -> bool {
    trimmed(text) == FAILURES_MARKER@
}

/// Whether `text`, once trimmed, is the marker of the failure section.
pub fn failures_marker(text: &str) -> (r: bool)
    ensures
        r == is_failures_marker(text@),
{
    trimmed_equals(text, FAILURES_MARKER)
}

/// The line at which a run of text lines stops.
#[derive(Clone, Copy, Debug, PartialEq, Eq, Structural)]
pub enum Sentinel {
    /// The line that opens a stack trace.
    Backtrace,
    /// A line of whitespace only.
    Blank,
    /// No line at all: the run goes on to the next typed event, or to the
    /// end.
    Never,
}

impl Sentinel {
    /// Whether a run stops in front of `text`.
    pub open spec fn stops(self, text: Seq<char>) -> bool {
        match self {
            Sentinel::Backtrace => trimmed(text) == BACKTRACE_MARKER@,
            Sentinel::Blank => is_blank(text),
            Sentinel::Never => false,
        }
    }

    /// Whether a run stops in front of `text`.
    pub fn hit(self, text: &str) -> (r: bool)
        ensures
            r == self.stops(text@),
    {
        match self {
            Sentinel::Backtrace => trimmed_equals(text, BACKTRACE_MARKER),
            Sentinel::Blank => blank(text),
            Sentinel::Never => false,
        }
    }
}

/// Where the run of text lines that starts at `pos` ends: the first
/// position at or after `pos` that holds the sentinel, a typed event, or
/// nothing.
pub open spec fn run_end(records: Seq<RecordView>, pos: int, sentinel: Sentinel) -> int
    decreases records.len() - pos,
{
    match line_at(records, pos) {
        Some(text) => if sentinel.stops(text) {
            pos
        } else {
            run_end(records, pos + 1, sentinel)
        },
        None => pos,
    }
}

/// The text lines at `from..to`, joined by newlines.
pub open spec fn joined(records: Seq<RecordView>, from: int, to: int) -> Seq<char>
    decreases to - from,
{
    if to <= from || from < 0 || to > records.len() {
        Seq::empty()
    } else if to == from + 1 {
        text_of(records[from])
    } else {
        joined(records, from, to - 1) + seq!['\n'] + text_of(records[to - 1])
    }
}

/// A run ends at or after its start, within the stream, and every
/// position before its end holds a text line that is not the sentinel.
pub proof fn lemma_run_end(records: Seq<RecordView>, pos: int, sentinel: Sentinel)
    requires
        0 <= pos <= records.len(),
    ensures
        pos <= run_end(records, pos, sentinel) <= records.len(),
        forall|i: int|
            pos <= i < run_end(records, pos, sentinel) ==> match #[trigger] line_at(records, i) {
                Some(text) => !sentinel.stops(text),
                None => false,
            },
        match line_at(records, run_end(records, pos, sentinel)) {
            Some(text) => sentinel.stops(text),
            None => true,
        },
    decreases records.len() - pos,
{
    match line_at(records, pos) {
        Some(text) => {
            if !sentinel.stops(text) {
                lemma_run_end(records, pos + 1, sentinel);
            }
        },
        None => {},
    }
}

/// Moves the cursor to the end of the run of text lines in front of it.
pub fn skip_run(cursor: &mut Cursor, sentinel: Sentinel)
    ensures
        final(cursor).well_formed(),
        final(cursor).records() == old(cursor).records(),
        final(cursor).position() == run_end(
            old(cursor).records(),
            old(cursor).position(),
            sentinel,
        ),
{
    let ghost records = cursor.records();
    proof {
        use_type_invariant(&*cursor);
    }
    let ghost start = cursor.position();
    loop
        invariant
            cursor.well_formed(),
            cursor.records() == records,
            run_end(records, start, sentinel) == run_end(records, cursor.position(), sentinel),
        ensures
            cursor.well_formed(),
            cursor.records() == records,
            cursor.position() == run_end(records, start, sentinel),
        decreases records.len() - cursor.position(),
    {
        match cursor.peek_line() {
            None => { break ; },
            Some(text) => {
                if sentinel.hit(text.as_str()) {
                    break ;
                }
                let _ = cursor.advance();
            },
        }
    }
}

/// Reads a text line and the run of text lines after it, for a parser
/// that is in `state`, and joins them with newlines. Nothing is read
/// where no text line stands in front of the cursor.
pub fn gather_run(cursor: &mut Cursor, state: TestRunParserState, sentinel: Sentinel) -> (r:
    Result<String, ParseError>)
    ensures
        final(cursor).well_formed(),
        final(cursor).records() == old(cursor).records(),
        match expect_line(old(cursor).records(), old(cursor).position(), state) {
            Ok(_) => r is Ok && final(cursor).position() == run_end(
                old(cursor).records(),
                old(cursor).position() + 1,
                sentinel,
            ) && r->Ok_0@ == joined(
                old(cursor).records(),
                old(cursor).position(),
                final(cursor).position(),
            ),
            Err(e) => r == Err::<String, _>(e)
                && final(cursor).position() == old(cursor).position(),
        },
{
    let ghost records = cursor.records();
    let ghost start = cursor.position();
    proof {
        use_type_invariant(&*cursor);
    }
    let first = cursor.expect_line(state)?;
    let mut text = first.clone();
    loop
        invariant
            cursor.well_formed(),
            cursor.records() == records,
            0 <= start < cursor.position(),
            run_end(records, start + 1, sentinel) == run_end(
                records,
                cursor.position(),
                sentinel,
            ),
            text@ == joined(records, start, cursor.position()),
        ensures
            cursor.well_formed(),
            cursor.records() == records,
            cursor.position() == run_end(records, start + 1, sentinel),
            text@ == joined(records, start, cursor.position()),
        decreases records.len() - cursor.position(),
    {
        match cursor.peek_line() {
            None => { break ; },
            Some(line) => {
                if sentinel.hit(line.as_str()) {
                    break ;
                }
                proof {
                    reveal_strlit("\n");
                }
                text.append("\n");
                text.append(line.as_str());
                let _ = cursor.advance();
            },
        }
    }
    Ok(text)
}

} // verus!

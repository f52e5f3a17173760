//! The input: a stream of records, each a typed build event or a line of
//! text, and a cursor that reads it front to back with one record of
//! lookahead.

use crate::error::ParseError;
use crate::state::TestRunParserState;
use vstd::prelude::*;
use vstd::string::*;

verus! {

/// A build product, as far as it matters here: the package it was built
/// from, the features it was built with, and its executable, if it has one.
#[derive(Clone, Debug)]
pub struct Artifact {
    pub package_id: String,
    pub features: Vec<String>,
    pub executable: Option<String>,
}

/// The mathematical content of an [`Artifact`].
pub struct ArtifactView {
    pub package_id: Seq<char>,
    pub features: Seq<Seq<char>>,
    pub executable: Option<Seq<char>>,
}

impl DeepView for Artifact {
    type V = ArtifactView;

    open spec fn deep_view(&self) -> ArtifactView {
        ArtifactView {
            package_id: self.package_id@,
            features: self.features.deep_view(),
            executable: self.executable.deep_view(),
        }
    }
}

/// What a typed event reports.
#[derive(Clone, Debug)]
pub enum Event {
    /// The build produced an artifact.
    CompilerArtifact(Artifact),
    /// Anything else; it plays no part.
    Other,
}

/// The mathematical content of an [`Event`].
pub enum EventView {
    CompilerArtifact(ArtifactView),
    Other,
}

impl DeepView for Event {
    type V = EventView;

    open spec fn deep_view(&self) -> EventView {
        match self {
            Event::CompilerArtifact(artifact) => EventView::CompilerArtifact(artifact.deep_view()),
            Event::Other => EventView::Other,
        }
    }
}

/// One unit of input.
#[derive(Clone, Debug)]
pub enum Record {
    TypedEvent(Event),
    TextLine(String),
}

/// The mathematical content of a [`Record`].
pub enum RecordView {
    TypedEvent(EventView),
    TextLine(Seq<char>),
}

impl DeepView for Record {
    type V = RecordView;

    open spec fn deep_view(&self) -> RecordView {
        match self {
            Record::TypedEvent(event) => RecordView::TypedEvent(event.deep_view()),
            Record::TextLine(text) => RecordView::TextLine(text@),
        }
    }
}

/// The text at `pos`, if a text line stands there.
pub open spec fn line_at(records: Seq<RecordView>, pos: int) -> Option<Seq<char>> {
    if 0 <= pos < records.len() {
        match records[pos] {
            RecordView::TextLine(text) => Some(text),
            RecordView::TypedEvent(_) => None,
        }
    } else {
        None
    }
}

/// The text that a record holds; a typed event holds none.
pub open spec fn text_of(record: RecordView) -> Seq<char> {
    match record {
        RecordView::TextLine(text) => text,
        RecordView::TypedEvent(_) => Seq::empty(),
    }
}

/// What reading the record at `pos` gives a parser that is in `state` and
/// can only go on with a text line: the text, or the error that ends the
/// parse.
pub open spec fn expect_line(records: Seq<RecordView>, pos: int, state: TestRunParserState)
    -> Result<Seq<char>, ParseError> {
    if pos < 0 || pos >= records.len() {
        Err(ParseError::UnexpectedEnd { state })
    } else {
        match records[pos] {
            RecordView::TextLine(text) => Ok(text),
            RecordView::TypedEvent(_) => Err(
                ParseError::UnexpectedRecord { position: pos as usize, state },
            ),
        }
    }
}

/// A position in a stream of records. Reading moves it forward only.
pub struct Cursor<'a> {
    records: &'a Vec<Record>,
    position: usize,
}

impl<'a> Cursor<'a> {
    /// The whole stream.
    pub closed spec fn records(&self) -> Seq<RecordView> {
        self.records.deep_view()
    }

    /// The index of the next record to be read.
    pub closed spec fn position(&self) -> int {
        self.position as int
    }

    /// The position lies within the stream or at its end. This holds of
    /// every cursor.
    #[verifier::type_invariant]
    pub closed spec fn well_formed(&self) -> bool {
        self.position <= self.records.len()
    }

    /// The position of a cursor is no index beyond the end of its stream.
    pub proof fn lemma_within(self)
        requires
            self.well_formed(),
        ensures
            0 <= self.position() <= self.records().len() <= usize::MAX,
    {
    }

    /// A cursor at the start of `records`.
    pub fn new(records: &'a Vec<Record>) -> (cursor: Self)
        ensures
            cursor.well_formed(),
            cursor.records() == records.deep_view(),
            cursor.position() == 0,
    {
        Cursor { records, position: 0 }
    }

    /// The index of the next record to be read.
    pub fn index(&self) -> (i: usize)
        ensures
            i == self.position(),
    {
        self.position
    }

    /// The next record, without reading it.
    pub fn peek(&self) -> (r: Option<&'a Record>)
        ensures
            match r {
                Some(record) => self.position() < self.records().len() && record.deep_view()
                    == self.records()[self.position()],
                None => self.position() == self.records().len(),
            },
    {
        proof {
            use_type_invariant(self);
        }
        if self.position < self.records.len() {
            Some(&self.records[self.position])
        } else {
            None
        }
    }

    /// The text of the next record, without reading it, if it is a text
    /// line.
    pub fn peek_line(&self) -> (r: Option<&'a String>)
        ensures
            r.deep_view() == line_at(self.records(), self.position()),
    {
        match self.peek() {
            Some(Record::TextLine(text)) => Some(text),
            _ => None,
        }
    }

    /// Reads the next record.
    pub fn advance(&mut self) -> (r: Option<&'a Record>)
        ensures
            final(self).well_formed(),
            final(self).records() == old(self).records(),
            match r {
                Some(record) => old(self).position() < old(self).records().len()
                    && record.deep_view() == old(self).records()[old(self).position()]
                    && final(self).position() == old(self).position() + 1,
                None => old(self).position() == old(self).records().len()
                    && final(self).position() == old(self).position(),
            },
    {
        proof {
            use_type_invariant(&*self);
        }
        if self.position < self.records.len() {
            let record = &self.records[self.position];
            self.position = self.position + 1;
            Some(record)
        } else {
            None
        }
    }

    /// The text of the next record, without reading it, for a parser that
    /// is in `state` and can only go on with a text line.
    pub fn peek_expected(&self, state: TestRunParserState) -> (r: Result<&'a String, ParseError>)
        ensures
            match r {
                Ok(text) => expect_line(self.records(), self.position(), state) == Ok::<
                    _,
                    ParseError,
                >(text@),
                Err(e) => expect_line(self.records(), self.position(), state) == Err::<
                    Seq<char>,
                    _,
                >(e),
            },
    {
        match self.peek() {
            None => Err(ParseError::UnexpectedEnd { state }),
            Some(Record::TypedEvent(_)) => Err(
                ParseError::UnexpectedRecord { position: self.position, state },
            ),
            Some(Record::TextLine(text)) => Ok(text),
        }
    }

    /// Reads the next record for a parser that is in `state` and can only
    /// go on with a text line. Nothing is read where that fails.
    pub fn expect_line(&mut self, state: TestRunParserState) -> (r: Result<&'a String, ParseError>)
        ensures
            final(self).well_formed(),
            final(self).records() == old(self).records(),
            match r {
                Ok(text) => expect_line(old(self).records(), old(self).position(), state) == Ok::<
                    _,
                    ParseError,
                >(text@) && final(self).position() == old(self).position() + 1,
                Err(e) => expect_line(old(self).records(), old(self).position(), state) == Err::<
                    Seq<char>,
                    _,
                >(e) && final(self).position() == old(self).position(),
            },
    {
        proof {
            use_type_invariant(&*self);
        }
        let text = self.peek_expected(state)?;
        self.position = self.position + 1;
        Ok(text)
    }
}

} // verus!

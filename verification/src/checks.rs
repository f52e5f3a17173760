//! What a check run on a code-hosting service is made of: its status and
//! conclusion, and the output that annotates lines of source.

use vstd::prelude::*;
use vstd::string::*;

verus! {

/// How far a check run has come.
#[derive(Debug, Copy, Clone, PartialEq, Eq, Structural)]
pub enum CheckRunStatus {
    Queued,
    InProgress,
    Completed,
}

/// How a completed check run ended.
#[derive(Debug, Copy, Clone, PartialEq, Eq, Structural)]
pub enum CheckRunConclusion {
    ActionRequired,
    Cancelled,
    Failure,
    Neutral,
    Success,
    Skipped,
    Stale,
    TimedOut,
}

/// How grave an annotation is.
#[derive(Debug, Copy, Clone, PartialEq, Eq, Structural)]
pub enum AnnotationLevel {
    Notice,
    Warning,
    Failure,
}

/// A note on some lines of one file.
#[derive(Clone, Debug, PartialEq)]
pub struct CheckRunAnnotation {
    /// The path of the file to add an annotation to.
    pub path: String,
    /// The start line of the annotation.
    pub start_line: u64,
    /// The end line of the annotation.
    pub end_line: u64,
    /// The start column of the annotation, for one on a single line.
    pub start_column: Option<u64>,
    /// The end column of the annotation, for one on a single line.
    pub end_column: Option<u64>,
    /// The level of the annotation.
    pub annotation_level: AnnotationLevel,
    /// A short description of the feedback for these lines of code.
    pub message: String,
    /// The title that represents the annotation.
    pub title: Option<String>,
    /// Details about this annotation.
    pub raw_details: Option<String>,
}

/// The mathematical content of a [`CheckRunAnnotation`].
pub struct AnnotationView {
    pub path: Seq<char>,
    pub start_line: u64,
    pub end_line: u64,
    pub start_column: Option<u64>,
    pub end_column: Option<u64>,
    pub annotation_level: AnnotationLevel,
    pub message: Seq<char>,
    pub title: Option<Seq<char>>,
    pub raw_details: Option<Seq<char>>,
}

impl DeepView for CheckRunAnnotation {
    type V = AnnotationView;

    open spec fn deep_view(&self) -> AnnotationView {
        AnnotationView {
            path: self.path@,
            start_line: self.start_line,
            end_line: self.end_line,
            start_column: self.start_column,
            end_column: self.end_column,
            annotation_level: self.annotation_level,
            message: self.message@,
            title: self.title.deep_view(),
            raw_details: self.raw_details.deep_view(),
        }
    }
}

/// An image shown with the output of a check run.
#[derive(Clone, Debug, PartialEq)]
pub struct CheckRunImage {
    /// The alternative text for the image.
    pub alt: String,
    /// The full URL of the image.
    pub image_url: String,
    /// A short image description.
    pub caption: Option<String>,
}

/// The mathematical content of a [`CheckRunImage`].
pub struct ImageView {
    pub alt: Seq<char>,
    pub image_url: Seq<char>,
    pub caption: Option<Seq<char>>,
}

impl DeepView for CheckRunImage {
    type V = ImageView;

    open spec fn deep_view(&self) -> ImageView {
        ImageView {
            alt: self.alt@,
            image_url: self.image_url@,
            caption: self.caption.deep_view(),
        }
    }
}

/// A button shown with a completed check run.
#[derive(Clone, Debug, PartialEq)]
pub struct CheckRunAction {
    /// The text to be displayed on the button.
    pub label: String,
    /// A short explanation of what this action would do.
    pub description: String,
    /// A reference for the action on the integrator's system.
    pub identifier: String,
}

/// The mathematical content of a [`CheckRunAction`].
pub struct ActionView {
    pub label: Seq<char>,
    pub description: Seq<char>,
    pub identifier: Seq<char>,
}

impl DeepView for CheckRunAction {
    type V = ActionView;

    open spec fn deep_view(&self) -> ActionView {
        ActionView {
            label: self.label@,
            description: self.description@,
            identifier: self.identifier@,
        }
    }
}

/// The output that is sent with a check run.
#[derive(Clone, Debug, PartialEq)]
pub struct CheckRunOutputArgument {
    pub title: String,
    pub summary: String,
    pub text: Option<String>,
    pub annotations: Option<Vec<CheckRunAnnotation>>,
    pub images: Option<Vec<CheckRunImage>>,
}

/// The mathematical content of a [`CheckRunOutputArgument`].
pub struct OutputView {
    pub title: Seq<char>,
    pub summary: Seq<char>,
    pub text: Option<Seq<char>>,
    pub annotations: Option<Seq<AnnotationView>>,
    pub images: Option<Seq<ImageView>>,
}

impl DeepView for CheckRunOutputArgument {
    type V = OutputView;

    open spec fn deep_view(&self) -> OutputView {
        OutputView {
            title: self.title@,
            summary: self.summary@,
            text: self.text.deep_view(),
            annotations: self.annotations.deep_view(),
            images: self.images.deep_view(),
        }
    }
}

/// The output as the service reports it back.
#[derive(Clone, Debug, PartialEq)]
pub struct CheckRunOutputResponse {
    pub title: Option<String>,
    pub summary: Option<String>,
    pub text: Option<String>,
    pub annotations_count: u64,
    pub annotations_url: String,
}

/// The suite that a check run belongs to.
#[derive(Debug, Clone, Copy, PartialEq, Eq, Structural)]
pub struct CheckRunCheckSuite {
    pub id: u64,
}

/// A point in time: seconds since the start of 1970 in UTC, and the
/// nanoseconds into that second.
#[derive(Debug, Clone, Copy, PartialEq, Eq, Structural)]
pub struct Timestamp {
    pub seconds: i64,
    pub nanoseconds: u32,
}

} // verus!

//! The request that creates a check run: what it holds and where it is
//! sent.

use crate::checks::{
    ActionView, AnnotationView, CheckRunAction, CheckRunAnnotation, CheckRunConclusion,
    CheckRunImage, CheckRunOutputArgument, CheckRunStatus, OutputView, Timestamp,
};
use crate::text::{decimal_of, decimal_text};
use vstd::prelude::*;
use vstd::string::*;

verus! {

/// The repository whose commits are checked.
#[derive(Debug)]
pub struct CheckHandler {
    pub owner: String,
    pub repo: String,
}

/// A request to create a check run, as it is being put together.
#[derive(Debug)]
pub struct CreateCheckRunBuilder<'r> {
    pub handler: &'r CheckHandler,
    pub name: String,
    pub head_sha: String,
    pub details_url: Option<String>,
    pub external_id: Option<String>,
    pub status: Option<CheckRunStatus>,
    pub started_at: Option<Timestamp>,
    pub conclusion: Option<CheckRunConclusion>,
    pub completed_at: Option<Timestamp>,
    pub output: Option<CheckRunOutputArgument>,
    pub actions: Option<Vec<CheckRunAction>>,
}

/// The mathematical content of a [`CreateCheckRunBuilder`].
pub struct RequestView {
    pub owner: Seq<char>,
    pub repo: Seq<char>,
    pub name: Seq<char>,
    pub head_sha: Seq<char>,
    pub details_url: Option<Seq<char>>,
    pub external_id: Option<Seq<char>>,
    pub status: Option<CheckRunStatus>,
    pub started_at: Option<Timestamp>,
    pub conclusion: Option<CheckRunConclusion>,
    pub completed_at: Option<Timestamp>,
    pub output: Option<OutputView>,
    pub actions: Option<Seq<ActionView>>,
}

impl<'r> DeepView for CreateCheckRunBuilder<'r> {
    type V = RequestView;

    open spec fn deep_view(&self) -> RequestView {
        RequestView {
            owner: self.handler.owner@,
            repo: self.handler.repo@,
            name: self.name@,
            head_sha: self.head_sha@,
            details_url: self.details_url.deep_view(),
            external_id: self.external_id.deep_view(),
            status: self.status,
            started_at: self.started_at,
            conclusion: self.conclusion,
            completed_at: self.completed_at,
            output: self.output.deep_view(),
            actions: self.actions.deep_view(),
        }
    }
}

/// The head of every route.
pub const ROUTE_HEAD: &'static str = "repos/";

/// What parts owner and repository.
pub const ROUTE_SLASH: &'static str = "/";

/// The tail of the route on which check runs are created.
pub const ROUTE_TAIL: &'static str = "/check-runs";

/// The route on which a check run is created for a repository.
pub open spec fn route_of(owner: Seq<char>, repo: Seq<char>) -> Seq<char> {
    ROUTE_HEAD@ + owner + ROUTE_SLASH@ + repo + ROUTE_TAIL@
}

impl CheckHandler {
    /// A handler for the repository `repo` of `owner`.
    pub fn new(owner: String, repo: String) -> (handler: Self)
        ensures
            handler.owner == owner,
            handler.repo == repo,
    {
        CheckHandler { owner, repo }
    }

    /// Begins a request to create the check run `name` on the commit
    /// `head_sha`.
    pub fn create_check_run(&self, name: String, head_sha: String) -> (builder:
        CreateCheckRunBuilder<'_>)
        ensures
            builder == CreateCheckRunBuilder::blank(self, name, head_sha),
    {
        CreateCheckRunBuilder::new(self, name, head_sha)
    }
}

impl<'r> CreateCheckRunBuilder<'r> {
    /// A request that holds a name and a commit and nothing else.
    pub open spec fn blank(handler: &'r CheckHandler, name: String, head_sha: String) -> Self {
        CreateCheckRunBuilder {
            handler,
            name,
            head_sha,
            details_url: None,
            external_id: None,
            status: None,
            started_at: None,
            conclusion: None,
            completed_at: None,
            output: None,
            actions: None,
        }
    }

    pub fn new(handler: &'r CheckHandler, name: String, head_sha: String) -> (builder: Self)
        ensures
            builder == Self::blank(handler, name, head_sha),
    {
        CreateCheckRunBuilder {
            handler,
            name,
            head_sha,
            details_url: None,
            external_id: None,
            status: None,
            started_at: None,
            conclusion: None,
            completed_at: None,
            output: None,
            actions: None,
        }
    }

    /// The URL of the integrator's site that has the full details of the
    /// check.
    pub fn details_url(self, details_url: String) -> (builder: Self)
        ensures
            builder == (CreateCheckRunBuilder { details_url: Some(details_url), ..self }),
    {
        let mut builder = self;
        builder.details_url = Some(details_url);
        builder
    }

    /// A reference for the run on the integrator's system.
    pub fn external_id(self, external_id: String) -> (builder: Self)
        ensures
            builder == (CreateCheckRunBuilder { external_id: Some(external_id), ..self }),
    {
        let mut builder = self;
        builder.external_id = Some(external_id);
        builder
    }

    /// The current status.
    pub fn status(self, status: CheckRunStatus) -> (builder: Self)
        ensures
            builder == (CreateCheckRunBuilder { status: Some(status), ..self }),
    {
        let mut builder = self;
        builder.status = Some(status);
        builder
    }

    /// The time that the check run began.
    pub fn started_at(self, started_at: Timestamp) -> (builder: Self)
        ensures
            builder == (CreateCheckRunBuilder { started_at: Some(started_at), ..self }),
    {
        let mut builder = self;
        builder.started_at = Some(started_at);
        builder
    }

    /// The final conclusion of the check.
    pub fn conclusion(self, conclusion: CheckRunConclusion) -> (builder: Self)
        ensures
            builder == (CreateCheckRunBuilder { conclusion: Some(conclusion), ..self }),
    {
        let mut builder = self;
        builder.conclusion = Some(conclusion);
        builder
    }

    /// The time that the check completed.
    pub fn completed_at(self, completed_at: Timestamp) -> (builder: Self)
        ensures
            builder == (CreateCheckRunBuilder { completed_at: Some(completed_at), ..self }),
    {
        let mut builder = self;
        builder.completed_at = Some(completed_at);
        builder
    }

    /// The title, the summary and the annotations of the run.
    pub fn output(self, output: CheckRunOutputArgument) -> (builder: Self)
        ensures
            builder == (CreateCheckRunBuilder { output: Some(output), ..self }),
    {
        let mut builder = self;
        builder.output = Some(output);
        builder
    }

    /// The buttons that are shown once the run has completed.
    pub fn actions(self, actions: Vec<CheckRunAction>) -> (builder: Self)
        ensures
            builder == (CreateCheckRunBuilder { actions: Some(actions), ..self }),
    {
        let mut builder = self;
        builder.actions = Some(actions);
        builder
    }

    /// The route to which the request is posted.
    pub fn route(&self) -> (route: String)
        ensures
            route@ == route_of(self.handler.owner@, self.handler.repo@),
    {
        let mut route = String::from_str(ROUTE_HEAD);
        route.append(self.handler.owner.as_str());
        route.append(ROUTE_SLASH);
        route.append(self.handler.repo.as_str());
        route.append(ROUTE_TAIL);
        route
    }
}

/// The number of annotations that one request can hold is below this.
pub const ANNOTATION_LIMIT: usize = 50;

/// What follows the number of failures in the summary.
pub const SUMMARY_TAIL: &'static str = " test failures";

/// How a check run with `count` annotations ends: in success with none,
/// in failure with some; with too many for one request, it cannot be
/// sent.
pub open spec fn conclusion_of(count: nat) -> Option<CheckRunConclusion> {
    if count == 0 {
        Some(CheckRunConclusion::Success)
    } else if count < ANNOTATION_LIMIT {
        Some(CheckRunConclusion::Failure)
    } else {
        None
    }
}

/// How a check run with `count` annotations ends.
pub fn conclusion_for(count: usize) -> (r: Option<CheckRunConclusion>)
    ensures
        r == conclusion_of(count as nat),
{
    if count == 0 {
        Some(CheckRunConclusion::Success)
    } else if count < ANNOTATION_LIMIT {
        Some(CheckRunConclusion::Failure)
    } else {
        None
    }
}

/// The output of a check run called `name` with the given annotations:
/// the name as its title, the number of annotations in its summary, no
/// text and no images.
pub open spec fn output_of(name: Seq<char>, annotations: Seq<AnnotationView>) -> OutputView {
    OutputView {
        title: name,
        summary: decimal_of(annotations.len()) + SUMMARY_TAIL@,
        text: None,
        annotations: Some(annotations),
        images: Some(Seq::empty()),
    }
}

/// Puts the output of a check run together.
pub fn check_run_output(name: String, annotations: Vec<CheckRunAnnotation>) -> (output:
    CheckRunOutputArgument)
    ensures
        output.deep_view() == output_of(name@, annotations.deep_view()),
{
    let mut summary = decimal_text(annotations.len());
    summary.append(SUMMARY_TAIL);
    let images: Vec<CheckRunImage> = Vec::new();
    assert(images.deep_view() =~= Seq::empty());
    CheckRunOutputArgument {
        title: name,
        summary,
        text: None,
        annotations: Some(annotations),
        images: Some(images),
    }
}

/// The request that reports a completed check run called `name` on the
/// commit `head_sha`, with the given annotations, if they fit in one
/// request.
pub open spec fn completed_request(
    owner: Seq<char>,
    repo: Seq<char>,
    name: Seq<char>,
    head_sha: Seq<char>,
    annotations: Seq<AnnotationView>,
    completed_at: Timestamp,
) -> Option<RequestView> {
    match conclusion_of(annotations.len()) {
        None => None,
        Some(conclusion) => Some(
            RequestView {
                owner,
                repo,
                name,
                head_sha,
                details_url: None,
                external_id: None,
                status: Some(CheckRunStatus::Completed),
                started_at: None,
                conclusion: Some(conclusion),
                completed_at: Some(completed_at),
                output: Some(output_of(name, annotations)),
                actions: None,
            },
        ),
    }
}

/// Puts together the request that reports a completed check run.
pub fn completed_check_run<'r>(
    handler: &'r CheckHandler,
    name: String,
    head_sha: String,
    annotations: Vec<CheckRunAnnotation>,
    completed_at: Timestamp,
) -> (r: Option<CreateCheckRunBuilder<'r>>)
    ensures
        r.deep_view() == completed_request(
            handler.owner@,
            handler.repo@,
            name@,
            head_sha@,
            annotations.deep_view(),
            completed_at,
        ),
{
    match conclusion_for(annotations.len()) {
        None => None,
        Some(conclusion) => {
            let output = check_run_output(name.clone(), annotations);
            Some(
                handler.create_check_run(name, head_sha).output(output).status(
                    CheckRunStatus::Completed,
                ).conclusion(conclusion).completed_at(completed_at),
            )
        },
    }
}

} // verus!

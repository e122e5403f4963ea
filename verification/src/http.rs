//! HTTP as the forge sees it: requests to send, replies to read, and operations
//! that take several of them.
//!
//! An operation is a state together with a step. A step reads the reply to the
//! last request and answers with the next request and the state that waits for
//! its reply, or with the result.

use vstd::prelude::*;

use crate::error::{outcome, ForgeError, ForgeErrorView};
use crate::text::same_text;
use crate::wire::{
    CreateLabel, CreateLabelView, CreatePull, CreatePullView, CreateRelease, CreateReleaseView,
    CreateTag, CreateTagView, GiteaCommitQueryObject, GiteaCommitQueryObjectView,
    GiteaCreatedCommit, GiteaCreatedCommitView, GiteaModifyFiles, GiteaModifyFilesView,
    GiteaPullRequest, GiteaPullRequestView, GiteaRelease, GiteaReleaseView, GiteaTag, GiteaTagView,
    Label, LabelView, UpdatePullBody, UpdatePullBodyView, UpdatePullLabels, UpdatePullLabelsView,
    UpdatePullState, UpdatePullStateView,
};

verus! {

/// The method of a request.
#[derive(Clone, Copy, Debug, PartialEq, Eq, Structural)]
pub enum Method {
    Get,
    Post,
    Put,
    Patch,
    Delete,
}

/// What the body of a successful reply is read as.
#[derive(Clone, Copy, Debug, PartialEq, Eq, Structural)]
pub enum Expect {
    /// The body is left alone.
    Nothing,
    /// It is the text of the body.
    Text,
    /// It is the bytes of a JSON body.
    Json,
    /// It is a label.
    Label,
    /// It is a page of labels.
    Labels,
    /// It is a tag.
    Tag,
    /// It is a page of tags.
    Tags,
    /// It is a release.
    Release,
    /// It is a commit.
    Commit,
    /// It is a page of commits.
    Commits,
    /// It is the commit that was made.
    CreatedCommit,
    /// It is a pull request.
    Pull,
    /// It is a page of pull requests.
    Pulls,
}

/// The body of a request, to be sent as JSON.
#[derive(Debug)]
pub enum Body {
    Empty,
    CreateLabel(CreateLabel),
    UpdatePullState(UpdatePullState),
    ModifyFiles(GiteaModifyFiles),
    CreateTag(CreateTag),
    CreatePull(CreatePull),
    UpdatePullBody(UpdatePullBody),
    UpdatePullLabels(UpdatePullLabels),
    CreateRelease(CreateRelease),
}

/// The value of a [`Body`].
#[verifier::ext_equal]
pub enum BodyView {
    Empty,
    CreateLabel(CreateLabelView),
    UpdatePullState(UpdatePullStateView),
    ModifyFiles(GiteaModifyFilesView),
    CreateTag(CreateTagView),
    CreatePull(CreatePullView),
    UpdatePullBody(UpdatePullBodyView),
    UpdatePullLabels(UpdatePullLabelsView),
    CreateRelease(CreateReleaseView),
}

impl DeepView for Body {
    type V = BodyView;

    open spec fn deep_view(&self) -> BodyView {
        match self {
            Body::Empty => BodyView::Empty,
            Body::CreateLabel(body) => BodyView::CreateLabel(body.deep_view()),
            Body::UpdatePullState(body) => BodyView::UpdatePullState(body.deep_view()),
            Body::ModifyFiles(body) => BodyView::ModifyFiles(body.deep_view()),
            Body::CreateTag(body) => BodyView::CreateTag(body.deep_view()),
            Body::CreatePull(body) => BodyView::CreatePull(body.deep_view()),
            Body::UpdatePullBody(body) => BodyView::UpdatePullBody(body.deep_view()),
            Body::UpdatePullLabels(body) => BodyView::UpdatePullLabels(body.deep_view()),
            Body::CreateRelease(body) => BodyView::CreateRelease(body.deep_view()),
        }
    }
}

/// A request to the forge.
#[derive(Debug)]
pub struct Request {
    pub method: Method,
    pub url: String,
    pub body: Body,
    /// What the reply is to be read as.
    pub expect: Expect,
}

/// The value of a [`Request`].
#[verifier::ext_equal]
pub struct RequestView {
    pub method: Method,
    pub url: Seq<char>,
    pub body: BodyView,
    pub expect: Expect,
}

impl DeepView for Request {
    type V = RequestView;

    open spec fn deep_view(&self) -> RequestView {
        RequestView {
            method: self.method,
            url: self.url@,
            body: self.body.deep_view(),
            expect: self.expect,
        }
    }
}

/// A request with a URL that may not have come about.
pub open spec fn request_to(
    method: Method,
    url: Result<Seq<char>, ForgeErrorView>,
    body: BodyView,
    expect: Expect,
) -> Result<RequestView, ForgeErrorView> {
    match url {
        Ok(url) => Ok(RequestView { method, url, body, expect }),
        Err(error) => Err(error),
    }
}

/// Puts a request together, where its URL came about.
pub fn make_request(
    method: Method,
    url: Result<String, ForgeError>,
    body: Body,
    expect: Expect,
) -> (res: Result<Request, ForgeError>)
    ensures
        outcome(res) == request_to(method, outcome(url), body.deep_view(), expect),
{
    match url {
        Ok(url) => Ok(Request { method, url, body, expect }),
        Err(error) => Err(error),
    }
}

/// The body of a reply, read as its request asked for.
#[derive(Debug)]
pub enum Payload {
    /// It was left alone.
    Nothing,
    Text(String),
    Json(Vec<u8>),
    Label(Label),
    Labels(Vec<Label>),
    Tag(GiteaTag),
    Tags(Vec<GiteaTag>),
    Release(GiteaRelease),
    Commit(GiteaCommitQueryObject),
    Commits(Vec<GiteaCommitQueryObject>),
    CreatedCommit(GiteaCreatedCommit),
    Pull(GiteaPullRequest),
    Pulls(Vec<GiteaPullRequest>),
    /// It could not be read, for the reason given.
    Unreadable(String),
}

/// The value of a [`Payload`].
#[verifier::ext_equal]
pub enum PayloadView {
    Nothing,
    Text(Seq<char>),
    Json(Seq<u8>),
    Label(LabelView),
    Labels(Seq<LabelView>),
    Tag(GiteaTagView),
    Tags(Seq<GiteaTagView>),
    Release(GiteaReleaseView),
    Commit(GiteaCommitQueryObjectView),
    Commits(Seq<GiteaCommitQueryObjectView>),
    CreatedCommit(GiteaCreatedCommitView),
    Pull(GiteaPullRequestView),
    Pulls(Seq<GiteaPullRequestView>),
    Unreadable(Seq<char>),
}

impl DeepView for Payload {
    type V = PayloadView;

    open spec fn deep_view(&self) -> PayloadView {
        match self {
            Payload::Nothing => PayloadView::Nothing,
            Payload::Text(body) => PayloadView::Text(body.deep_view()),
            Payload::Json(body) => PayloadView::Json(body.deep_view()),
            Payload::Label(body) => PayloadView::Label(body.deep_view()),
            Payload::Labels(body) => PayloadView::Labels(body.deep_view()),
            Payload::Tag(body) => PayloadView::Tag(body.deep_view()),
            Payload::Tags(body) => PayloadView::Tags(body.deep_view()),
            Payload::Release(body) => PayloadView::Release(body.deep_view()),
            Payload::Commit(body) => PayloadView::Commit(body.deep_view()),
            Payload::Commits(body) => PayloadView::Commits(body.deep_view()),
            Payload::CreatedCommit(body) => PayloadView::CreatedCommit(body.deep_view()),
            Payload::Pull(body) => PayloadView::Pull(body.deep_view()),
            Payload::Pulls(body) => PayloadView::Pulls(body.deep_view()),
            Payload::Unreadable(reason) => PayloadView::Unreadable(reason@),
        }
    }
}

impl PayloadView {
    /// The error that a body of another kind than the one asked for stands for.
    pub open spec fn mismatch(self) -> ForgeErrorView {
        match self {
            PayloadView::Unreadable(reason) => ForgeErrorView::Undecodable(reason),
            _ => ForgeErrorView::UnexpectedPayload,
        }
    }
}

impl Payload {
    /// The error that a body of another kind than the one asked for stands for.
    fn mismatch(self) -> (res: ForgeError)
        ensures
            res.deep_view() == self.deep_view().mismatch(),
    {
        match self {
            Payload::Unreadable(reason) => ForgeError::Undecodable(reason),
            _ => ForgeError::UnexpectedPayload,
        }
    }
}

/// A reply of the forge.
#[derive(Debug)]
pub struct Reply {
    pub status: u16,
    /// The header `x-hasmore`, where there is one.
    pub has_more: Option<String>,
    pub payload: Payload,
}

/// The value of a [`Reply`].
#[verifier::ext_equal]
pub struct ReplyView {
    pub status: u16,
    pub has_more: Option<Seq<char>>,
    pub payload: PayloadView,
}

impl DeepView for Reply {
    type V = ReplyView;

    open spec fn deep_view(&self) -> ReplyView {
        ReplyView {
            status: self.status,
            has_more: self.has_more.deep_view(),
            payload: self.payload.deep_view(),
        }
    }
}

/// The status of a resource that is not there.
pub const NOT_FOUND: u16 = 404;

/// The status of a resource that is there already.
pub const CONFLICT: u16 = 409;

/// Whether a status is a client or a server error.
pub open spec fn is_error_status(status: u16) -> bool {
    400 <= status < 600
}

/// A client or server error is an error.
pub open spec fn accepted(status: u16) -> Result<(), ForgeErrorView> {
    if is_error_status(status) {
        Err(ForgeErrorView::Status(status))
    } else {
        Ok(())
    }
}

/// Turns a client or server error into an error.
pub fn error_for_status(status: u16) -> (res: Result<(), ForgeError>)
    ensures
        outcome(res) == accepted(status),
{
    if 400 <= status && status < 600 {
        Err(ForgeError::Status(status))
    } else {
        Ok(())
    }
}

impl ReplyView {
    /// Whether the listing goes on behind this page.
    pub open spec fn goes_on(self) -> bool {
        self.has_more == Some("true"@)
    }

    /// The reply as the text of the body.
    pub open spec fn text(self) -> Result<Seq<char>, ForgeErrorView> {
        if is_error_status(self.status) {
            Err(ForgeErrorView::Status(self.status))
        } else {
            match self.payload {
                PayloadView::Text(body) => Ok(body),
                other => Err(other.mismatch()),
            }
        }
    }

    /// The reply as the bytes of a JSON body.
    pub open spec fn json(self) -> Result<Seq<u8>, ForgeErrorView> {
        if is_error_status(self.status) {
            Err(ForgeErrorView::Status(self.status))
        } else {
            match self.payload {
                PayloadView::Json(body) => Ok(body),
                other => Err(other.mismatch()),
            }
        }
    }

    /// The reply as a label.
    pub open spec fn label(self) -> Result<LabelView, ForgeErrorView> {
        if is_error_status(self.status) {
            Err(ForgeErrorView::Status(self.status))
        } else {
            match self.payload {
                PayloadView::Label(body) => Ok(body),
                other => Err(other.mismatch()),
            }
        }
    }

    /// The reply as a page of labels.
    pub open spec fn labels(self) -> Result<Seq<LabelView>, ForgeErrorView> {
        if is_error_status(self.status) {
            Err(ForgeErrorView::Status(self.status))
        } else {
            match self.payload {
                PayloadView::Labels(body) => Ok(body),
                other => Err(other.mismatch()),
            }
        }
    }

    /// The reply as a tag.
    pub open spec fn tag(self) -> Result<GiteaTagView, ForgeErrorView> {
        if is_error_status(self.status) {
            Err(ForgeErrorView::Status(self.status))
        } else {
            match self.payload {
                PayloadView::Tag(body) => Ok(body),
                other => Err(other.mismatch()),
            }
        }
    }

    /// The reply as a page of tags.
    pub open spec fn tags(self) -> Result<Seq<GiteaTagView>, ForgeErrorView> {
        if is_error_status(self.status) {
            Err(ForgeErrorView::Status(self.status))
        } else {
            match self.payload {
                PayloadView::Tags(body) => Ok(body),
                other => Err(other.mismatch()),
            }
        }
    }

    /// The reply as a release.
    pub open spec fn release(self) -> Result<GiteaReleaseView, ForgeErrorView> {
        if is_error_status(self.status) {
            Err(ForgeErrorView::Status(self.status))
        } else {
            match self.payload {
                PayloadView::Release(body) => Ok(body),
                other => Err(other.mismatch()),
            }
        }
    }

    /// The reply as a commit.
    pub open spec fn commit(self) -> Result<GiteaCommitQueryObjectView, ForgeErrorView> {
        if is_error_status(self.status) {
            Err(ForgeErrorView::Status(self.status))
        } else {
            match self.payload {
                PayloadView::Commit(body) => Ok(body),
                other => Err(other.mismatch()),
            }
        }
    }

    /// The reply as a page of commits.
    pub open spec fn commits(self) -> Result<Seq<GiteaCommitQueryObjectView>, ForgeErrorView> {
        if is_error_status(self.status) {
            Err(ForgeErrorView::Status(self.status))
        } else {
            match self.payload {
                PayloadView::Commits(body) => Ok(body),
                other => Err(other.mismatch()),
            }
        }
    }

    /// The reply as the commit that was made.
    pub open spec fn created_commit(self) -> Result<GiteaCreatedCommitView, ForgeErrorView> {
        if is_error_status(self.status) {
            Err(ForgeErrorView::Status(self.status))
        } else {
            match self.payload {
                PayloadView::CreatedCommit(body) => Ok(body),
                other => Err(other.mismatch()),
            }
        }
    }

    /// The reply as a pull request.
    pub open spec fn pull(self) -> Result<GiteaPullRequestView, ForgeErrorView> {
        if is_error_status(self.status) {
            Err(ForgeErrorView::Status(self.status))
        } else {
            match self.payload {
                PayloadView::Pull(body) => Ok(body),
                other => Err(other.mismatch()),
            }
        }
    }

    /// The reply as a page of pull requests.
    pub open spec fn pulls(self) -> Result<Seq<GiteaPullRequestView>, ForgeErrorView> {
        if is_error_status(self.status) {
            Err(ForgeErrorView::Status(self.status))
        } else {
            match self.payload {
                PayloadView::Pulls(body) => Ok(body),
                other => Err(other.mismatch()),
            }
        }
    }

}

impl Reply {
    /// Whether the listing goes on behind this page.
    pub fn goes_on(&self) -> (res: bool)
        ensures
            res == self.deep_view().goes_on(),
    {
        match &self.has_more {
            Some(value) => same_text(value.as_str(), "true"),
            None => false,
        }
    }

    /// Reads the reply as the text of the body.
    pub fn text(self) -> (res: Result<String, ForgeError>)
        ensures
            outcome(res) == self.deep_view().text(),
    {
        match error_for_status(self.status) {
            Err(error) => Err(error),
            Ok(_) => match self.payload {
                Payload::Text(body) => Ok(body),
                other => Err(other.mismatch()),
            },
        }
    }

    /// Reads the reply as the bytes of a JSON body.
    pub fn json(self) -> (res: Result<Vec<u8>, ForgeError>)
        ensures
            outcome(res) == self.deep_view().json(),
    {
        match error_for_status(self.status) {
            Err(error) => Err(error),
            Ok(_) => match self.payload {
                Payload::Json(body) => Ok(body),
                other => Err(other.mismatch()),
            },
        }
    }

    /// Reads the reply as a label.
    pub fn label(self) -> (res: Result<Label, ForgeError>)
        ensures
            outcome(res) == self.deep_view().label(),
    {
        match error_for_status(self.status) {
            Err(error) => Err(error),
            Ok(_) => match self.payload {
                Payload::Label(body) => Ok(body),
                other => Err(other.mismatch()),
            },
        }
    }

    /// Reads the reply as a page of labels.
    pub fn labels(self) -> (res: Result<Vec<Label>, ForgeError>)
        ensures
            outcome(res) == self.deep_view().labels(),
    {
        match error_for_status(self.status) {
            Err(error) => Err(error),
            Ok(_) => match self.payload {
                Payload::Labels(body) => Ok(body),
                other => Err(other.mismatch()),
            },
        }
    }

    /// Reads the reply as a tag.
    pub fn tag(self) -> (res: Result<GiteaTag, ForgeError>)
        ensures
            outcome(res) == self.deep_view().tag(),
    {
        match error_for_status(self.status) {
            Err(error) => Err(error),
            Ok(_) => match self.payload {
                Payload::Tag(body) => Ok(body),
                other => Err(other.mismatch()),
            },
        }
    }

    /// Reads the reply as a page of tags.
    pub fn tags(self) -> (res: Result<Vec<GiteaTag>, ForgeError>)
        ensures
            outcome(res) == self.deep_view().tags(),
    {
        match error_for_status(self.status) {
            Err(error) => Err(error),
            Ok(_) => match self.payload {
                Payload::Tags(body) => Ok(body),
                other => Err(other.mismatch()),
            },
        }
    }

    /// Reads the reply as a release.
    pub fn release(self) -> (res: Result<GiteaRelease, ForgeError>)
        ensures
            outcome(res) == self.deep_view().release(),
    {
        match error_for_status(self.status) {
            Err(error) => Err(error),
            Ok(_) => match self.payload {
                Payload::Release(body) => Ok(body),
                other => Err(other.mismatch()),
            },
        }
    }

    /// Reads the reply as a commit.
    pub fn commit(self) -> (res: Result<GiteaCommitQueryObject, ForgeError>)
        ensures
            outcome(res) == self.deep_view().commit(),
    {
        match error_for_status(self.status) {
            Err(error) => Err(error),
            Ok(_) => match self.payload {
                Payload::Commit(body) => Ok(body),
                other => Err(other.mismatch()),
            },
        }
    }

    /// Reads the reply as a page of commits.
    pub fn commits(self) -> (res: Result<Vec<GiteaCommitQueryObject>, ForgeError>)
        ensures
            outcome(res) == self.deep_view().commits(),
    {
        match error_for_status(self.status) {
            Err(error) => Err(error),
            Ok(_) => match self.payload {
                Payload::Commits(body) => Ok(body),
                other => Err(other.mismatch()),
            },
        }
    }

    /// Reads the reply as the commit that was made.
    pub fn created_commit(self) -> (res: Result<GiteaCreatedCommit, ForgeError>)
        ensures
            outcome(res) == self.deep_view().created_commit(),
    {
        match error_for_status(self.status) {
            Err(error) => Err(error),
            Ok(_) => match self.payload {
                Payload::CreatedCommit(body) => Ok(body),
                other => Err(other.mismatch()),
            },
        }
    }

    /// Reads the reply as a pull request.
    pub fn pull(self) -> (res: Result<GiteaPullRequest, ForgeError>)
        ensures
            outcome(res) == self.deep_view().pull(),
    {
        match error_for_status(self.status) {
            Err(error) => Err(error),
            Ok(_) => match self.payload {
                Payload::Pull(body) => Ok(body),
                other => Err(other.mismatch()),
            },
        }
    }

    /// Reads the reply as a page of pull requests.
    pub fn pulls(self) -> (res: Result<Vec<GiteaPullRequest>, ForgeError>)
        ensures
            outcome(res) == self.deep_view().pulls(),
    {
        match error_for_status(self.status) {
            Err(error) => Err(error),
            Ok(_) => match self.payload {
                Payload::Pulls(body) => Ok(body),
                other => Err(other.mismatch()),
            },
        }
    }

}

/// Where an operation is: it waits for the reply to a request, or is done.
#[derive(Debug)]
pub enum Flow<S, T> {
    Send(Request, S),
    Done(T),
}

/// The value of a [`Flow`].
#[verifier::ext_equal]
pub enum FlowView<S, T> {
    Send(RequestView, S),
    Done(T),
}

impl<S: DeepView, T: DeepView> DeepView for Flow<S, T> {
    type V = FlowView<S::V, T::V>;

    open spec fn deep_view(&self) -> FlowView<S::V, T::V> {
        match self {
            Flow::Send(request, state) => FlowView::Send(request.deep_view(), state.deep_view()),
            Flow::Done(value) => FlowView::Done(value.deep_view()),
        }
    }
}

/// Where an operation stands, or why it failed.
pub type Progress<S, T> = Result<FlowView<S, T>, ForgeErrorView>;

/// Done, with the given result.
pub open spec fn done<S, T>(value: T) -> Progress<S, T> {
    Ok(FlowView::Done(value))
}

/// Sends a request, where it came about, and waits in the given state.
pub open spec fn sending<S, T>(
    request: Result<RequestView, ForgeErrorView>,
    state: S,
) -> Progress<S, T> {
    match request {
        Ok(request) => Ok(FlowView::Send(request, state)),
        Err(error) => Err(error),
    }
}

/// Sends a request, where it came about, and waits in the given state.
pub fn send<S: DeepView, T: DeepView>(
    request: Result<Request, ForgeError>,
    state: S,
) -> (res: Result<Flow<S, T>, ForgeError>)
    ensures
        outcome(res) == sending::<S::V, T::V>(outcome(request), state.deep_view()),
{
    match request {
        Ok(request) => Ok(Flow::Send(request, state)),
        Err(error) => Err(error),
    }
}

/// Where an operation stands once it has read the given replies, as far as it
/// asked for them.
pub open spec fn run<S, T>(
    step: spec_fn(S, ReplyView) -> Progress<S, T>,
    at: Progress<S, T>,
    replies: Seq<ReplyView>,
) -> Progress<S, T>
    decreases replies.len(),
{
    match at {
        Ok(FlowView::Send(_, state)) if replies.len() > 0 => run(
            step,
            step(state, replies.first()),
            replies.drop_first(),
        ),
        _ => at,
    }
}

/// The requests that an operation sends while it reads the given replies, the
/// one that waits for a further reply counted in.
pub open spec fn sent<S, T>(
    step: spec_fn(S, ReplyView) -> Progress<S, T>,
    at: Progress<S, T>,
    replies: Seq<ReplyView>,
) -> Seq<RequestView>
    decreases replies.len(),
{
    match at {
        Ok(FlowView::Send(request, state)) => if replies.len() > 0 {
            seq![request] + sent(step, step(state, replies.first()), replies.drop_first())
        } else {
            seq![request]
        },
        _ => Seq::empty(),
    }
}

} // verus!

//! What holds of the values of data: they have every field, as it is.

use vstd::prelude::*;

use crate::error::{outcome, ForgeError, ForgeErrorView};
use crate::http::{Body, BodyView, Flow, FlowView, Payload, PayloadView, Reply, Request};
use crate::types::{
    CreateCommitRequest, CreatePrRequest, CreateReleaseBranchRequest, FileChange, ForgeCommit,
    ForgeSettings, GetFileContentRequest, GetPrRequest, PrLabelsRequest, PullRequest,
    ReleaseByTagResponse, RepoUrl, SemVer, Tag, UpdatePrRequest,
};
use crate::wire::{
    Commit, CreateLabel, CreatePull, CreateRelease, CreateTag, GiteaCommitAuthor,
    GiteaCommitDetails, GiteaCommitFile, GiteaCommitQueryObject, GiteaCreatedCommit,
    GiteaFileChange, GiteaModifyFiles, GiteaPullHead, GiteaPullRequest, GiteaRelease, GiteaTag,
    GiteaTagCommit, Label, UpdatePullBody, UpdatePullLabels, UpdatePullState,
};

verus! {

/// Where a repository is, and what a forge is set up with, are taken as they are.
pub proof fn values_of_settings(
    url: RepoUrl,
    settings: ForgeSettings,
)
    ensures
        url.deep_view().scheme == url.scheme@,
        url.deep_view().host == url.host@,
        url.deep_view().port == url.port,
        url.deep_view().owner == url.owner@,
        url.deep_view().name == url.name@,
        url.deep_view().link_base_url == url.link_base_url@,
        settings.deep_view().commit_search_depth == settings.commit_search_depth,
        settings.deep_view().tag_search_depth == settings.tag_search_depth,
        settings.deep_view().page_size == settings.page_size,
        settings.deep_view().pending_label == settings.pending_label@,
        settings.deep_view().legacy_pending_label == settings.legacy_pending_label@,
        settings.deep_view().label_color == settings.label_color@,
        settings.deep_view().config_file == settings.config_file@,
{
}

/// What a caller asks for is taken as it is.
pub proof fn values_of_questions(
    file: GetFileContentRequest,
    pull: GetPrRequest,
    change: FileChange,
    branch: CreateReleaseBranchRequest,
    commit: CreateCommitRequest,
)
    ensures
        file.branch is None ==> file.deep_view().branch is None,
        file.branch matches Some(text) ==> file.deep_view().branch == Some(text@),
        file.deep_view().path == file.path@,
        pull.deep_view().base_branch == pull.base_branch@,
        pull.deep_view().head_branch == pull.head_branch@,
        change.deep_view().path == change.path@,
        change.deep_view().content == change.content@,
        change.deep_view().update_type == change.update_type,
        branch.deep_view().base_branch == branch.base_branch@,
        branch.deep_view().release_branch == branch.release_branch@,
        branch.deep_view().message == branch.message@,
        branch.deep_view().file_changes.len() == branch.file_changes.len(),
        forall|i: int| 0 <= i < branch.file_changes.len()
            ==> branch.deep_view().file_changes[i]
                == (#[trigger] branch.file_changes[i]).deep_view(),
        commit.deep_view().target_branch == commit.target_branch@,
        commit.deep_view().message == commit.message@,
        commit.deep_view().file_changes.len() == commit.file_changes.len(),
        forall|i: int| 0 <= i < commit.file_changes.len()
            ==> commit.deep_view().file_changes[i]
                == (#[trigger] commit.file_changes[i]).deep_view(),
{
}

/// What a caller asks of pull requests is taken as it is.
pub proof fn values_of_pull_edits(
    new_pull: CreatePrRequest,
    update: UpdatePrRequest,
    labels: PrLabelsRequest,
)
    ensures
        new_pull.deep_view().head_branch == new_pull.head_branch@,
        new_pull.deep_view().base_branch == new_pull.base_branch@,
        new_pull.deep_view().title == new_pull.title@,
        new_pull.deep_view().body == new_pull.body@,
        update.deep_view().pr_number == update.pr_number,
        update.deep_view().title == update.title@,
        update.deep_view().body == update.body@,
        labels.deep_view().pr_number == labels.pr_number,
        labels.deep_view().labels.len() == labels.labels.len(),
        forall|i: int| 0 <= i < labels.labels.len()
            ==> labels.deep_view().labels[i] == (#[trigger] labels.labels[i])@,
{
}

/// What a caller gets is told as it is.
pub proof fn values_of_results(
    pull: PullRequest,
    response: ReleaseByTagResponse,
    semver: SemVer,
    tag: Tag,
    commit: ForgeCommit,
)
    ensures
        pull.deep_view().number == pull.number,
        pull.deep_view().sha == pull.sha@,
        pull.deep_view().body == pull.body@,
        response.deep_view().tag == response.tag@,
        response.deep_view().sha == response.sha@,
        response.deep_view().notes == response.notes@,
        semver.deep_view().major == semver.major,
        semver.deep_view().minor == semver.minor,
        semver.deep_view().patch == semver.patch,
        semver.deep_view().pre == semver.pre@,
        semver.deep_view().build == semver.build@,
        tag.deep_view().name == tag.name@,
        tag.deep_view().semver == tag.semver.deep_view(),
        tag.deep_view().sha == tag.sha@,
        tag.deep_view().timestamp == tag.timestamp,
        commit.deep_view().id == commit.id@,
        commit.deep_view().short_id == commit.short_id@,
        commit.deep_view().link == commit.link@,
        commit.deep_view().author_name == commit.author_name@,
        commit.deep_view().author_email == commit.author_email@,
        commit.deep_view().merge_commit == commit.merge_commit,
        commit.deep_view().message == commit.message@,
        commit.deep_view().timestamp == commit.timestamp,
        commit.deep_view().files.len() == commit.files.len(),
        forall|i: int| 0 <= i < commit.files.len()
            ==> commit.deep_view().files[i] == (#[trigger] commit.files[i])@,
{
}

/// What the forge tells is taken as it is.
pub proof fn values_of_replies(
    label: Label,
    tagged: GiteaTagCommit,
    tag: GiteaTag,
    release: GiteaRelease,
    commit: Commit,
    created: GiteaCreatedCommit,
    head: GiteaPullHead,
    pull: GiteaPullRequest,
)
    ensures
        label.deep_view().id == label.id,
        label.deep_view().name == label.name@,
        tagged.deep_view().sha == tagged.sha@,
        tagged.deep_view().created == tagged.created@,
        tag.deep_view().name == tag.name@,
        tag.deep_view().commit == tag.commit.deep_view(),
        release.deep_view().body == release.body@,
        commit.deep_view().sha == commit.sha@,
        created.deep_view().commit == created.commit.deep_view(),
        head.deep_view().label == head.label@,
        head.deep_view().sha == head.sha@,
        pull.deep_view().number == pull.number,
        pull.deep_view().body == pull.body@,
        pull.deep_view().head == pull.head.deep_view(),
        pull.deep_view().merged == pull.merged,
        pull.merge_commit_sha is None ==> pull.deep_view().merge_commit_sha is None,
        pull.merge_commit_sha matches Some(text)
            ==> pull.deep_view().merge_commit_sha == Some(text@),
{
}

/// What the forge tells of a commit is taken as it is.
pub proof fn values_of_commits(
    author: GiteaCommitAuthor,
    details: GiteaCommitDetails,
    file: GiteaCommitFile,
    commit: GiteaCommitQueryObject,
)
    ensures
        author.deep_view().name == author.name@,
        author.deep_view().email == author.email@,
        details.deep_view().author == details.author.deep_view(),
        details.deep_view().message == details.message@,
        file.deep_view().filename == file.filename@,
        commit.deep_view().sha == commit.sha@,
        commit.deep_view().created == commit.created@,
        commit.deep_view().html_url == commit.html_url@,
        commit.deep_view().commit == commit.commit.deep_view(),
        commit.deep_view().parents.len() == commit.parents.len(),
        forall|i: int| 0 <= i < commit.parents.len()
            ==> commit.deep_view().parents[i] == (#[trigger] commit.parents[i])@,
        commit.deep_view().files.len() == commit.files.len(),
        forall|i: int| 0 <= i < commit.files.len()
            ==> commit.deep_view().files[i] == (#[trigger] commit.files[i]).deep_view(),
{
}

/// The changes of files are sent as they are.
pub proof fn values_of_changes(
    change: GiteaFileChange,
    body: GiteaModifyFiles,
)
    ensures
        change.deep_view().path == change.path@,
        change.deep_view().content == change.content@,
        change.deep_view().operation == change.operation,
        change.sha is None ==> change.deep_view().sha is None,
        change.sha matches Some(text) ==> change.deep_view().sha == Some(text@),
        body.deep_view().branch == body.branch@,
        body.new_branch is None ==> body.deep_view().new_branch is None,
        body.new_branch matches Some(text) ==> body.deep_view().new_branch == Some(text@),
        body.deep_view().message == body.message@,
        body.deep_view().files.len() == body.files.len(),
        forall|i: int| 0 <= i < body.files.len()
            ==> body.deep_view().files[i] == (#[trigger] body.files[i]).deep_view(),
        body.deep_view().force_push == body.force_push,
{
}

/// What the forge is told is sent as it is.
pub proof fn values_of_bodies(
    label: CreateLabel,
    state: UpdatePullState,
    tag: CreateTag,
    pull: CreatePull,
    update: UpdatePullBody,
    put: UpdatePullLabels,
    release: CreateRelease,
)
    ensures
        label.deep_view().name == label.name@,
        label.deep_view().color == label.color@,
        state.deep_view().state == state.state@,
        tag.deep_view().tag_name == tag.tag_name@,
        tag.deep_view().target == tag.target@,
        pull.deep_view().title == pull.title@,
        pull.deep_view().body == pull.body@,
        pull.deep_view().head == pull.head@,
        pull.deep_view().base == pull.base@,
        update.deep_view().title == update.title@,
        update.deep_view().body == update.body@,
        put.deep_view().labels.len() == put.labels.len(),
        forall|i: int| 0 <= i < put.labels.len()
            ==> put.deep_view().labels[i] == (#[trigger] put.labels[i]),
        release.deep_view().tag_name == release.tag_name@,
        release.deep_view().target_commitish == release.target_commitish@,
        release.deep_view().name == release.name@,
        release.deep_view().body == release.body@,
        release.deep_view().draft == release.draft,
        release.deep_view().prerelease == release.prerelease,
{
}

/// A request is sent with the method, to the URL, and for the reply that it has.
pub proof fn values_of_requests(request: Request)
    ensures
        request.deep_view().method == request.method,
        request.deep_view().url == request.url@,
        request.deep_view().expect == request.expect,
        request.deep_view().body == request.body.deep_view(),
{
}

/// A reply has the status, the header and the body that it came with.
pub proof fn values_of_answers(reply: Reply)
    ensures
        reply.deep_view().status == reply.status,
        reply.has_more is None ==> reply.deep_view().has_more is None,
        reply.has_more matches Some(text) ==> reply.deep_view().has_more == Some(text@),
        reply.deep_view().payload == reply.payload.deep_view(),
{
}

/// The body of a request is of its own kind.
pub proof fn values_of_sent_bodies(body: Body)
    ensures
        match body {
            Body::Empty => body.deep_view() == BodyView::Empty,
            Body::CreateLabel(sent) => body.deep_view() == BodyView::CreateLabel(sent.deep_view()),
            Body::UpdatePullState(sent) =>
                body.deep_view() == BodyView::UpdatePullState(sent.deep_view()),
            Body::ModifyFiles(sent) => body.deep_view() == BodyView::ModifyFiles(sent.deep_view()),
            Body::CreateTag(sent) => body.deep_view() == BodyView::CreateTag(sent.deep_view()),
            Body::CreatePull(sent) => body.deep_view() == BodyView::CreatePull(sent.deep_view()),
            Body::UpdatePullBody(sent) =>
                body.deep_view() == BodyView::UpdatePullBody(sent.deep_view()),
            Body::UpdatePullLabels(sent) =>
                body.deep_view() == BodyView::UpdatePullLabels(sent.deep_view()),
            Body::CreateRelease(sent) =>
                body.deep_view() == BodyView::CreateRelease(sent.deep_view()),
        },
{
}

/// The body of a reply is of its own kind.
pub proof fn values_of_read_bodies(payload: Payload)
    ensures
        match payload {
            Payload::Nothing => payload.deep_view() == PayloadView::Nothing,
            Payload::Text(read) => payload.deep_view() == PayloadView::Text(read@),
            Payload::Json(read) => payload.deep_view() is Json
                && payload.deep_view()->Json_0 =~= read@,
            Payload::Unreadable(reason) => payload.deep_view() == PayloadView::Unreadable(reason@),
            Payload::Label(read) => payload.deep_view() == PayloadView::Label(read.deep_view()),
            Payload::Tag(read) => payload.deep_view() == PayloadView::Tag(read.deep_view()),
            Payload::Release(read) => payload.deep_view() == PayloadView::Release(read.deep_view()),
            Payload::Commit(read) => payload.deep_view() == PayloadView::Commit(read.deep_view()),
            Payload::CreatedCommit(read) =>
                payload.deep_view() == PayloadView::CreatedCommit(read.deep_view()),
            Payload::Pull(read) => payload.deep_view() == PayloadView::Pull(read.deep_view()),
            Payload::Labels(read) => payload.deep_view() == PayloadView::Labels(read.deep_view()),
            Payload::Tags(read) => payload.deep_view() == PayloadView::Tags(read.deep_view()),
            Payload::Commits(read) => payload.deep_view() == PayloadView::Commits(read.deep_view()),
            Payload::Pulls(read) => payload.deep_view() == PayloadView::Pulls(read.deep_view()),
        },
{
}

/// An operation sends the request, waits in the state, or is done with the result,
/// that it has.
pub proof fn values_of_flows<S: DeepView, T: DeepView>(flow: Flow<S, T>)
    ensures
        match flow {
            Flow::Send(request, state) => flow.deep_view() == FlowView::<S::V, T::V>::Send(
                request.deep_view(),
                state.deep_view(),
            ),
            Flow::Done(value) => flow.deep_view() == FlowView::<S::V, T::V>::Done(
                value.deep_view(),
            ),
        },
{
}

/// A result is told as the value or the error that it is.
pub proof fn values_of_outcomes<T: DeepView>(res: Result<T, ForgeError>)
    ensures
        match res {
            Ok(value) => outcome(res) == Ok::<_, ForgeErrorView>(value.deep_view()),
            Err(error) => outcome(res) == Err::<T::V, _>(error.deep_view()),
        },
{
}

/// An error is told as the one that it is, with its words or its number.
pub proof fn values_of_errors(error: ForgeError)
    ensures
        match error {
            ForgeError::Forge(words) => error.deep_view() == ForgeErrorView::Forge(words@),
            ForgeError::Missing(words) => error.deep_view() == ForgeErrorView::Missing(words@),
            ForgeError::InvalidUrl(_) => error.deep_view() is InvalidUrl,
            ForgeError::UrlTooLong => error.deep_view() is UrlTooLong,
            ForgeError::InvalidPattern(_) => error.deep_view() is InvalidPattern,
            ForgeError::InvalidTimestamp(_) => error.deep_view() is InvalidTimestamp,
            ForgeError::InvalidJson(_) => error.deep_view() is InvalidJson,
            ForgeError::InvalidHeader => error.deep_view() is InvalidHeader,
            ForgeError::Status(status) => error.deep_view() == ForgeErrorView::Status(status),
            ForgeError::Undecodable(words) => error.deep_view() == ForgeErrorView::Undecodable(
                words@,
            ),
            ForgeError::UnexpectedPayload => error.deep_view() is UnexpectedPayload,
            ForgeError::PageOverflow => error.deep_view() is PageOverflow,
        },
{
}

} // verus!

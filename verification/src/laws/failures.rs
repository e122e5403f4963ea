//! What holds of operations that cannot go on.

use vstd::prelude::*;

use crate::bindings::{json_string, json_u64};
use crate::branches::{
    CommitCreationStageView, CommitCreationView, ReleaseBranchCreationView, ReleaseBranchStageView,
};
use crate::commits::{commit_page_request, commit_request, CommitListingView, CommitStageView};
use crate::error::ForgeErrorView;
use crate::files::ChangeSetView;
use crate::gitea::GiteaView;
use crate::http::{FlowView, PayloadView, ReplyView};
use crate::labels::{label_page_request, LabelListingView};
use crate::laws::branches::{commit_body, release_body};
use crate::laws::files::content_request;
use crate::laws::replies::{brings, fails, refuses};
use crate::pull_edits::{LabelReplacementStageView, LabelReplacementView};
use crate::pulls::{pull_page_request, PullKind, PullSearchView, PullStageView};
use crate::releases::{ReleaseLookupView, TaggingView};
use crate::tags::TagSearchView;
use crate::types::{
    CreateCommitRequestView, CreateReleaseBranchRequestView, FileChangeView, ForgeCommitView,
    PullRequestView, TagView,
};
use crate::wire::{GiteaFileChangeView, GiteaTagView, LabelView};

verus! {

/// A page that cannot be asked for fails the listing of labels, and the search for
/// pull requests, with the error of its request.
pub proof fn unaskable_page_of_labels_or_pulls_fails(
    g: GiteaView,
    page: u64,
    labels: Seq<LabelView>,
    kind: PullKind,
    head_branch: Seq<char>,
    label: u64,
    later: Seq<u64>,
    found: Seq<PullRequestView>,
)
    ensures
        label_page_request(g, page) matches Err(error) ==> fails(
            LabelListingView::ask(g, page, labels),
            error,
        ),
        label_page_request(g, 1) matches Err(error) ==> fails(LabelListingView::start(g), error)
            && fails(PullSearchView::start(g, kind, head_branch), error),
        pull_page_request(g, kind, label, page) matches Err(error) ==> fails(
            PullSearchView::ask(g, kind, head_branch, label, later, page, found),
            error,
        ),
{
}

/// A page, or a commit, that cannot be asked for fails the listing of commits, and
/// a page that cannot be asked for fails the search for tags, with the error of
/// its request.
pub proof fn unaskable_page_of_commits_or_tags_fails(
    g: GiteaView,
    branch: Option<Seq<char>>,
    sha: Seq<char>,
    since: Option<Seq<char>>,
    page: u64,
    commits: Seq<ForgeCommitView>,
    pattern: Seq<char>,
    of_branch: Seq<char>,
    examined: usize,
    found: Seq<TagView>,
)
    ensures
        forall|stop: Option<Seq<char>>|
            commit_page_request(g, branch, since, page) matches Err(error) ==> fails(
                #[trigger] CommitListingView::ask(g, branch, stop, since, page, commits),
                error,
            ),
        commit_page_request(g, branch, None, 1) matches Err(error) ==> fails(
            CommitListingView::start(g, branch, None),
            error,
        ),
        commit_request(g, sha) matches Err(error) ==> fails(
            CommitListingView::start(g, branch, Some(sha)),
            error,
        ),
        g.tag_page(page) matches Err(error) ==> fails(
            TagSearchView::ask(g, pattern, of_branch, examined, found, page),
            error,
        ),
{
}

/// A file that cannot be asked for fails the look-up of changes, with the error of
/// its request.
pub proof fn unaskable_file_fails(
    g: GiteaView,
    branch: Seq<char>,
    skip_unchanged: bool,
    changes: Seq<FileChangeView>,
    before: Seq<GiteaFileChangeView>,
    state: ChangeSetView,
    reply: ReplyView,
    content: Seq<char>,
)
    ensures
        changes.len() > 0 ==> (content_request(g, branch, changes[0].path) matches Err(error)
            ==> fails(ChangeSetView::ask(g, branch, skip_unchanged, changes, before), error)),
        state.content is None && brings(reply, PayloadView::Text(content)) ==> (g.get_file_sha(
            state.change.path,
        ) matches Err(error) ==> fails(state.step(g, reply), error)),
{
}

/// A file that is there without a hash fails the look-up of changes.
pub proof fn file_without_a_hash_fails(
    g: GiteaView,
    state: ChangeSetView,
    reply: ReplyView,
    text: Seq<u8>,
)
    requires
        state.content is Some,
        brings(reply, PayloadView::Json(text)),
    ensures
        json_string(text, "sha"@) is None ==> fails(
            state.step(g, reply),
            ForgeErrorView::InvalidJson,
        ),
        json_string(text, "sha"@) == Some(None::<Seq<char>>) ==> fails(
            state.step(g, reply),
            ForgeErrorView::Missing("failed to get file sha"@),
        ),
{
}

/// A comparison that is no JSON document fails the search for tags.
pub proof fn comparison_without_json_fails(
    g: GiteaView,
    state: TagSearchView,
    reply: ReplyView,
    text: Seq<u8>,
)
    requires
        state.stage is Comparison,
        brings(reply, PayloadView::Json(text)),
        json_u64(text, "total_commits"@) is None,
    ensures
        fails(state.step(g, reply), ForgeErrorView::InvalidJson),
{
}

/// A reply of another kind than the one waited for fails a listing or a search, at
/// every stage.
pub proof fn reply_of_another_kind_fails(
    g: GiteaView,
    pulls: PullSearchView,
    commits: CommitListingView,
    tags: TagSearchView,
    reply: ReplyView,
)
    requires
        !refuses(reply),
        reply.payload !is Unreadable,
    ensures
        pulls.stage is Labels && reply.payload !is Labels ==> fails(
            pulls.step(g, reply),
            ForgeErrorView::UnexpectedPayload,
        ),
        pulls.stage is Pulls && reply.payload !is Pulls ==> fails(
            pulls.step(g, reply),
            ForgeErrorView::UnexpectedPayload,
        ),
        commits.stage is Stop && reply.payload !is Commit ==> fails(
            commits.step(g, reply),
            ForgeErrorView::UnexpectedPayload,
        ),
        commits.stage is Page && reply.payload !is Commits ==> fails(
            commits.step(g, reply),
            ForgeErrorView::UnexpectedPayload,
        ),
        tags.stage is Page && reply.payload !is Tags ==> fails(
            tags.step(g, reply),
            ForgeErrorView::UnexpectedPayload,
        ),
        tags.stage is Comparison && reply.payload !is Json ==> fails(
            tags.step(g, reply),
            ForgeErrorView::UnexpectedPayload,
        ),
{
}

/// A listing of labels that fails fails what it is a part of, with the same error.
pub proof fn failed_labels_fail_the_whole(
    g: GiteaView,
    listing: LabelListingView,
    search: PullSearchView,
    replacement: LabelReplacementView,
    reply: ReplyView,
    error: ForgeErrorView,
)
    requires
        fails(listing.step(g, reply), error),
    ensures
        search.stage == PullStageView::Labels(listing) ==> fails(search.step(g, reply), error),
        replacement.stage matches LabelReplacementStageView::Labels(part, _) && part == listing
            ==> fails(replacement.step(g, reply), error),
{
}

/// A search for the open pull request that fails fails the release branch, with
/// the same error: the branch is not deleted.
pub proof fn failed_search_deletes_nothing(
    g: GiteaView,
    branch: ReleaseBranchCreationView,
    search: PullSearchView,
    reply: ReplyView,
    error: ForgeErrorView,
)
    ensures
        branch.stage matches ReleaseBranchStageView::Pull(part, _) && part == search && fails(
            search.step(g, reply),
            error,
        ) ==> fails(branch.step(g, reply), error),
        branch.stage is Branch && reply.status == 200 && fails(
            PullSearchView::start(g, PullKind::Open, branch.release_branch),
            error,
        ) ==> fails(branch.step(g, reply), error),
{
}

/// A look-up of files that fails fails the commit and the release branch, with the
/// same error: nothing is posted.
pub proof fn failed_look_up_posts_nothing(
    g: GiteaView,
    commit: CommitCreationView,
    branch: ReleaseBranchCreationView,
    changes: ChangeSetView,
    reply: ReplyView,
    error: ForgeErrorView,
)
    requires
        fails(changes.step(g, reply), error),
    ensures
        commit.stage == CommitCreationStageView::Files(changes) ==> fails(
            commit.step(g, reply),
            error,
        ),
        branch.stage matches ReleaseBranchStageView::Files(_, part) && part == changes ==> fails(
            branch.step(g, reply),
            error,
        ),
{
}

/// A look-up of files that cannot start fails the commit, and the release branch
/// once its name is free, with the same error.
pub proof fn failed_start_posts_nothing(
    g: GiteaView,
    req: CreateCommitRequestView,
    branch: ReleaseBranchCreationView,
    changes: Seq<FileChangeView>,
    reopen: Option<u64>,
    reply: ReplyView,
    error: ForgeErrorView,
)
    ensures
        fails(
            ChangeSetView::ask(g, req.target_branch, true, req.file_changes, Seq::empty()),
            error,
        ) ==> fails(CommitCreationView::start(g, req), error),
        fails(ChangeSetView::ask(g, branch.base_branch, false, changes, Seq::empty()), error) ==> {
            &&& branch.stage == ReleaseBranchStageView::Branch(changes) && reply.status == 404
                ==> fails(branch.step(g, reply), error)
            &&& branch.stage == ReleaseBranchStageView::Deletion(reopen, changes) && !refuses(reply)
                ==> fails(branch.step(g, reply), error)
        },
{
}

/// A request of a commit or of a release branch that does not come about fails it,
/// with the error of the request.
pub proof fn unaskable_branch_fails(
    g: GiteaView,
    commit: CreateCommitRequestView,
    req: CreateReleaseBranchRequestView,
    branch: ReleaseBranchCreationView,
    files: Seq<GiteaFileChangeView>,
    pull: Option<PullRequestView>,
    changes: Seq<FileChangeView>,
    number: u64,
    made: ReplyView,
)
    ensures
        g.branch_exists(req.release_branch) matches Err(error) ==> fails(
            ReleaseBranchCreationView::start(g, req),
            error,
        ),
        g.delete_branch(branch.release_branch) matches Err(error) ==> fails(
            branch.on_pull(g, Ok(FlowView::Done(pull)), changes),
            error,
        ),
        g.modify_files(commit_body(commit, files)) matches Err(error) ==> files.len() > 0 ==> fails(
            CommitCreationView::on_files(
                g,
                commit.target_branch,
                commit.message,
                Ok(FlowView::Done(files)),
            ),
            error,
        ),
        branch.base_branch == req.base_branch && branch.release_branch == req.release_branch
            && branch.message == req.message
                ==> (g.modify_files(release_body(req, files)) matches Err(
            error,
        ) ==> fails(
            branch.on_files(g, Some(number), Ok(FlowView::Done(files))),
            error,
        )),
        branch.stage == ReleaseBranchStageView::Commit(Some(number)) && !refuses(made)
            && made.payload is CreatedCommit ==> (g.set_pr_state(number, "open"@) matches Err(error)
            ==> fails(branch.step(g, made), error)),
{
}

/// A request of a tagging, of a look-up of a release, or of a replacement of labels
/// that does not come about fails it, with the error of the request.
pub proof fn unaskable_tag_or_label_fails(
    g: GiteaView,
    name: Seq<char>,
    sha: Seq<char>,
    tag: GiteaTagView,
    reply: ReplyView,
    pr_number: u64,
    all: Seq<LabelView>,
    labels: Seq<u64>,
)
    ensures
        g.create_tag(name, sha) matches Err(error)
            ==> fails(TaggingView::start(g, name, sha), error),
        g.get_tag(name) matches Err(error) ==> fails(ReleaseLookupView::start(g, name), error),
        reply.status == 409 ==> (g.get_tag(name) matches Err(error) ==> fails(
            (TaggingView { tag_name: name, sha, exists: false }).step(g, reply),
            error,
        )),
        brings(reply, PayloadView::Tag(tag)) ==> (g.get_release(tag.name) matches Err(error)
            ==> fails(ReleaseLookupView::Tag(name).step(g, reply), error)),
        g.set_pr_labels(pr_number, labels) matches Err(error) ==> fails(
            LabelReplacementView::proceed(g, pr_number, all, labels, Seq::empty()),
            error,
        ),
{
}

/// A listing that has more pages than can be counted fails.
pub proof fn uncountable_page_fails(
    g: GiteaView,
    labels: LabelListingView,
    pulls: PullSearchView,
    commits: CommitListingView,
    reply: ReplyView,
)
    requires
        !refuses(reply),
        reply.has_more == Some("true"@),
    ensures
        labels.page == u64::MAX && reply.payload is Labels ==> fails(
            labels.step(g, reply),
            ForgeErrorView::PageOverflow,
        ),
        pulls.stage matches PullStageView::Pulls { page, .. } && page == u64::MAX
            && reply.payload == PayloadView::Pulls(Seq::empty()) ==> fails(
            pulls.step(g, reply),
            ForgeErrorView::PageOverflow,
        ),
        commits.stage matches CommitStageView::Page { page, .. } && page == u64::MAX
            && reply.payload == PayloadView::Commits(Seq::empty()) ==> fails(
            commits.step(g, reply),
            ForgeErrorView::PageOverflow,
        ),
{
}

} // verus!

//! What holds of commits and release branches that are being made.

use vstd::prelude::*;

use crate::bindings::joined_url;
use crate::branches::{
    CommitCreationStageView, CommitCreationView, ReleaseBranchCreationView, ReleaseBranchStageView,
};
use crate::error::ForgeErrorView;
use crate::files::{ChangeSetView, ExistingFile};
use crate::gitea::GiteaView;
use crate::http::{
    accepted, done, run, sent, Expect, FlowView, Method, Progress, ReplyView, RequestView,
};
use crate::laws::files::{
    all_changes, are_files, change_steps, changes_are_looked_up, content_request,
    every_change_is_made, is_sent_for, lookup_requests, only_unchanged_files_are_left_out,
    real_changes, text_after, text_before, unchanged_files_are_left_out,
};
use crate::laws::pulls::pull_steps;
use crate::laws::replies::{fails, refuses};
use crate::laws::requests::{branch_requests, commit_is_posted, pull_is_patched};
use crate::laws::runs::{answered, part_runs_within, reads_all, run_ends, run_steps};
use crate::pulls::{PullKind, PullSearchView};
use crate::text::decimal;
use crate::types::{CreateCommitRequestView, CreateReleaseBranchRequestView, PullRequestView};
use crate::wire::{CommitView, GiteaFileChangeView, GiteaModifyFilesView};

verus! {

/// The step of a commit that is being made.
pub open spec fn commit_creation_steps(g: GiteaView) -> spec_fn(
    CommitCreationView,
    ReplyView,
) -> Progress<CommitCreationView, CommitView> {
    |state: CommitCreationView, reply: ReplyView| state.step(g, reply)
}

/// The step of a release branch that is being made.
pub open spec fn release_branch_steps(g: GiteaView) -> spec_fn(
    ReleaseBranchCreationView,
    ReplyView,
) -> Progress<ReleaseBranchCreationView, CommitView> {
    |state: ReleaseBranchCreationView, reply: ReplyView| state.step(g, reply)
}

/// The look-up of the files of a commit.
pub open spec fn commit_lookup(g: GiteaView, req: CreateCommitRequestView) -> Progress<
    ChangeSetView,
    Seq<GiteaFileChangeView>,
> {
    ChangeSetView::ask(g, req.target_branch, true, req.file_changes, Seq::empty())
}

proof fn commit_runs_lookup(
    g: GiteaView,
    req: CreateCommitRequestView,
    lookups: Seq<ReplyView>,
    later: Seq<ReplyView>,
)
    requires
        reads_all(change_steps(g), commit_lookup(g, req), lookups),
    ensures
        ({
            let steps = commit_creation_steps(g);
            let then_at = CommitCreationView::on_files(
                g,
                req.target_branch,
                req.message,
                run(change_steps(g), commit_lookup(g, req), lookups),
            );
            &&& run(steps, CommitCreationView::start(g, req), lookups + later) == run(
                steps,
                then_at,
                later,
            )
            &&& sent(steps, CommitCreationView::start(g, req), lookups + later) == answered(
                change_steps(g),
                commit_lookup(g, req),
                lookups,
            ) + sent(steps, then_at, later)
        }),
{
    let (target_branch, message) = (req.target_branch, req.message);
    part_runs_within(
        change_steps(g),
        commit_creation_steps(g),
        |changes: ChangeSetView|
            CommitCreationView {
                target_branch,
                message,
                stage: CommitCreationStageView::Files(changes),
            },
        |changes: Progress<ChangeSetView, Seq<GiteaFileChangeView>>|
            CommitCreationView::on_files(g, target_branch, message, changes),
        commit_lookup(g, req),
        lookups,
        later,
    );
}

/// A commit that would change nothing is not made: nothing is sent but the
/// look-up of its files, and `None` is its hash.
pub proof fn empty_commit_is_not_made(
    g: GiteaView,
    req: CreateCommitRequestView,
    lookups: Seq<ReplyView>,
)
    requires
        reads_all(change_steps(g), commit_lookup(g, req), lookups),
        run(change_steps(g), commit_lookup(g, req), lookups) == done::<ChangeSetView, _>(
            Seq::<GiteaFileChangeView>::empty(),
        ),
    ensures
        run(commit_creation_steps(g), CommitCreationView::start(g, req), lookups) == done::<
            CommitCreationView,
            _,
        >(CommitView { sha: "None"@ }),
        sent(commit_creation_steps(g), CommitCreationView::start(g, req), lookups) == answered(
            change_steps(g),
            commit_lookup(g, req),
            lookups,
        ),
{
    commit_runs_lookup(g, req, lookups, Seq::empty());
    assert(lookups + Seq::<ReplyView>::empty() =~= lookups);
    let looked_up = answered(change_steps(g), commit_lookup(g, req), lookups);
    assert(looked_up + Seq::<RequestView>::empty() =~= looked_up);
}

/// The body of the request for a commit.
pub open spec fn commit_body(
    req: CreateCommitRequestView,
    files: Seq<GiteaFileChangeView>,
) -> GiteaModifyFilesView {
    GiteaModifyFilesView {
        branch: req.target_branch,
        new_branch: None,
        message: req.message,
        files,
        force_push: false,
    }
}

/// A commit that changes something is made with one request, behind the look-up
/// of its files, and is the one that the forge then tells of.
pub proof fn commit_is_made(
    g: GiteaView,
    req: CreateCommitRequestView,
    lookups: Seq<ReplyView>,
    files: Seq<GiteaFileChangeView>,
    created: ReplyView,
)
    requires
        reads_all(change_steps(g), commit_lookup(g, req), lookups),
        run(change_steps(g), commit_lookup(g, req), lookups) == done::<ChangeSetView, _>(files),
        files.len() > 0,
        g.modify_files(commit_body(req, files)) is Ok,
        created.created_commit() is Ok,
    ensures
        run(
            commit_creation_steps(g),
            CommitCreationView::start(g, req),
            lookups + seq![created],
        ) == done::<CommitCreationView, _>(created.created_commit()->Ok_0.commit),
        sent(
            commit_creation_steps(g),
            CommitCreationView::start(g, req),
            lookups + seq![created],
        ) == answered(change_steps(g), commit_lookup(g, req), lookups).push(
            g.modify_files(commit_body(req, files))->Ok_0,
        ),
{
    let steps = commit_creation_steps(g);
    commit_runs_lookup(g, req, lookups, seq![created]);
    let request = g.modify_files(commit_body(req, files))->Ok_0;
    let state = CommitCreationView {
        target_branch: req.target_branch,
        message: req.message,
        stage: CommitCreationStageView::Commit,
    };
    assert(seq![created] + Seq::<ReplyView>::empty() =~= seq![created]);
    run_steps(steps, request, state, created, Seq::empty());
    let end = steps(state, created);
    run_ends(steps, end, Seq::empty());
    let looked_up = answered(change_steps(g), commit_lookup(g, req), lookups);
    assert(looked_up + (seq![request] + Seq::<RequestView>::empty()) =~= looked_up.push(request));
}

/// The pull request that a release branch that is being made has closed, or is
/// about to close, and has not opened again.
pub open spec fn owes(state: ReleaseBranchCreationView) -> Option<u64> {
    match state.stage {
        ReleaseBranchStageView::Deletion(reopen, _) => reopen,
        ReleaseBranchStageView::Files(reopen, _) => reopen,
        ReleaseBranchStageView::Commit(reopen) => reopen,
        _ => None,
    }
}

/// Whatever the forge replies: once a branch is being deleted that has an open
/// pull request, the release branch is not done before that pull request has
/// been opened again, which is the last thing it does.
pub proof fn closed_pull_is_opened_again(
    g: GiteaView,
    request: RequestView,
    state: ReleaseBranchCreationView,
    number: u64,
    replies: Seq<ReplyView>,
)
    requires
        owes(state) == Some(number),
    ensures
        ({
            let at = Ok(FlowView::Send(request, state));
            let requests = sent(release_branch_steps(g), at, replies);
            run(release_branch_steps(g), at, replies) is Ok && run(
                release_branch_steps(g),
                at,
                replies,
            )->Ok_0 is Done ==> {
                &&& g.set_pr_state(number, "open"@) is Ok
                &&& requests.len() > 0
                &&& requests.last() == g.set_pr_state(number, "open"@)->Ok_0
            }
        }),
    decreases replies.len(),
{
    let steps = release_branch_steps(g);
    if replies.len() > 0 {
        let rest = replies.drop_first();
        let next = steps(state, replies.first());
        match next {
            Ok(FlowView::Send(next_request, next_state)) => {
                if owes(next_state) == Some(number) {
                    closed_pull_is_opened_again(g, next_request, next_state, number, rest);
                } else {
                    assert(next_request == g.set_pr_state(number, "open"@)->Ok_0);
                    if rest.len() > 0 {
                        let end = steps(next_state, rest.first());
                        run_ends(steps, end, rest.drop_first());
                    }
                    assert(sent(steps, next, rest) =~= seq![next_request]);
                }
            },
            _ => {
                run_ends(steps, next, rest);
            },
        }
    }
}

/// The search for the open pull request of a release branch.
pub open spec fn open_pull_search(g: GiteaView, req: CreateReleaseBranchRequestView) -> Progress<
    PullSearchView,
    Option<PullRequestView>,
> {
    PullSearchView::start(g, PullKind::Open, req.release_branch)
}

/// The look-up of the files of a release branch.
pub open spec fn release_lookup(g: GiteaView, req: CreateReleaseBranchRequestView) -> Progress<
    ChangeSetView,
    Seq<GiteaFileChangeView>,
> {
    ChangeSetView::ask(g, req.base_branch, false, req.file_changes, Seq::empty())
}

/// The body of the request for the commit of a release branch.
pub open spec fn release_body(
    req: CreateReleaseBranchRequestView,
    files: Seq<GiteaFileChangeView>,
) -> GiteaModifyFilesView {
    GiteaModifyFilesView {
        branch: req.base_branch,
        new_branch: Some(req.release_branch),
        message: req.message,
        files,
        force_push: true,
    }
}

/// A release branch that is being made, at a stage.
pub open spec fn release_branch_at(
    req: CreateReleaseBranchRequestView,
    stage: ReleaseBranchStageView,
) -> ReleaseBranchCreationView {
    ReleaseBranchCreationView {
        base_branch: req.base_branch,
        release_branch: req.release_branch,
        message: req.message,
        stage,
    }
}

/// The replies to the requests behind the look-up of the files: the one to the
/// commit and, where a pull request is to be opened again, the one to that.
pub open spec fn last_replies(reopen: Option<u64>, created: ReplyView, reopened: ReplyView) -> Seq<
    ReplyView,
> {
    match reopen {
        Some(_) => seq![created, reopened],
        None => seq![created],
    }
}

/// The requests behind the look-up of the files: the commit and, where a pull
/// request is to be opened again, that.
pub open spec fn last_requests(
    g: GiteaView,
    req: CreateReleaseBranchRequestView,
    files: Seq<GiteaFileChangeView>,
    reopen: Option<u64>,
) -> Seq<RequestView> {
    let commit = g.modify_files(release_body(req, files))->Ok_0;
    match reopen {
        Some(number) => seq![commit, g.set_pr_state(number, "open"@)->Ok_0],
        None => seq![commit],
    }
}

proof fn release_branch_ends(
    g: GiteaView,
    req: CreateReleaseBranchRequestView,
    reopen: Option<u64>,
    lookups: Seq<ReplyView>,
    files: Seq<GiteaFileChangeView>,
    created: ReplyView,
    reopened: ReplyView,
)
    requires
        reads_all(change_steps(g), release_lookup(g, req), lookups),
        run(change_steps(g), release_lookup(g, req), lookups) == done::<ChangeSetView, _>(files),
        g.modify_files(release_body(req, files)) is Ok,
        created.created_commit() is Ok,
        reopen matches Some(number) ==> g.set_pr_state(number, "open"@) is Ok && accepted(
            reopened.status,
        ) is Ok,
    ensures
        ({
            let steps = release_branch_steps(g);
            let at = release_branch_at(req, ReleaseBranchStageView::Commit(None)).look_up(
                g,
                reopen,
                req.file_changes,
            );
            let replies = lookups + last_replies(reopen, created, reopened);
            &&& run(steps, at, replies) == done::<ReleaseBranchCreationView, _>(
                created.created_commit()->Ok_0.commit,
            )
            &&& sent(steps, at, replies) == answered(
                change_steps(g),
                release_lookup(g, req),
                lookups,
            ) + last_requests(g, req, files, reopen)
        }),
{
    let steps = release_branch_steps(g);
    let branch = release_branch_at(req, ReleaseBranchStageView::Commit(None));
    let last = last_replies(reopen, created, reopened);
    part_runs_within(
        change_steps(g),
        steps,
        |changes: ChangeSetView| branch.at(ReleaseBranchStageView::Files(reopen, changes)),
        |changes: Progress<ChangeSetView, Seq<GiteaFileChangeView>>|
            branch.on_files(g, reopen, changes),
        release_lookup(g, req),
        lookups,
        last,
    );
    let commit = g.modify_files(release_body(req, files))->Ok_0;
    let waiting = branch.at(ReleaseBranchStageView::Commit(reopen));
    let rest = last.drop_first();
    assert(last =~= seq![created] + rest);
    run_steps(steps, commit, waiting, created, rest);
    match reopen {
        None => {
            run_ends(steps, steps(waiting, created), rest);
            assert(seq![commit] + Seq::<RequestView>::empty() =~= seq![commit]);
        },
        Some(number) => {
            let open = g.set_pr_state(number, "open"@)->Ok_0;
            let opening = branch.at(
                ReleaseBranchStageView::Reopening(created.created_commit()->Ok_0.commit),
            );
            assert(rest =~= seq![reopened] + Seq::<ReplyView>::empty());
            run_steps(steps, open, opening, reopened, Seq::empty());
            run_ends(steps, steps(opening, reopened), Seq::empty());
            assert(seq![commit] + (seq![open] + Seq::<RequestView>::empty()) =~= seq![
                commit,
                open,
            ]);
        },
    }
}

/// A release branch whose name is free is made with one commit behind the
/// look-up of its files. No branch is deleted, and no pull request is touched.
pub proof fn new_release_branch_is_made(
    g: GiteaView,
    req: CreateReleaseBranchRequestView,
    missing: ReplyView,
    lookups: Seq<ReplyView>,
    files: Seq<GiteaFileChangeView>,
    created: ReplyView,
)
    requires
        g.branch_exists(req.release_branch) is Ok,
        missing.branch_exists() == Ok::<_, ForgeErrorView>(false),
        reads_all(change_steps(g), release_lookup(g, req), lookups),
        run(change_steps(g), release_lookup(g, req), lookups) == done::<ChangeSetView, _>(files),
        g.modify_files(release_body(req, files)) is Ok,
        created.created_commit() is Ok,
    ensures
        ({
            let steps = release_branch_steps(g);
            let at = ReleaseBranchCreationView::start(g, req);
            let replies = seq![missing] + (lookups + seq![created]);
            &&& run(steps, at, replies) == done::<ReleaseBranchCreationView, _>(
                created.created_commit()->Ok_0.commit,
            )
            &&& sent(steps, at, replies) == seq![g.branch_exists(req.release_branch)->Ok_0] + (
            answered(change_steps(g), release_lookup(g, req), lookups) + seq![
                g.modify_files(release_body(req, files))->Ok_0,
            ])
        }),
{
    let steps = release_branch_steps(g);
    let asking = release_branch_at(req, ReleaseBranchStageView::Branch(req.file_changes));
    run_steps(
        steps,
        g.branch_exists(req.release_branch)->Ok_0,
        asking,
        missing,
        lookups + seq![created],
    );
    release_branch_ends(g, req, None, lookups, files, created, missing);
    let branch = release_branch_at(req, ReleaseBranchStageView::Commit(None));
    assert(steps(asking, missing) == branch.look_up(g, None, req.file_changes));
}

/// The number of a pull request, where there is one.
pub open spec fn pull_number(pull: Option<PullRequestView>) -> Option<u64> {
    match pull {
        Some(pull) => Some(pull.number),
        None => None,
    }
}

/// A release branch whose name is taken is made anew: its open pull request is
/// looked for first, then the branch is deleted, then the files are looked up,
/// then the commit is made, and in the end the pull request that was found is
/// opened again. Nothing else is sent.
pub proof fn release_branch_is_made_anew(
    g: GiteaView,
    req: CreateReleaseBranchRequestView,
    exists: ReplyView,
    searches: Seq<ReplyView>,
    pull: Option<PullRequestView>,
    deleted: ReplyView,
    lookups: Seq<ReplyView>,
    files: Seq<GiteaFileChangeView>,
    created: ReplyView,
    reopened: ReplyView,
)
    requires
        g.branch_exists(req.release_branch) is Ok,
        exists.branch_exists() == Ok::<_, ForgeErrorView>(true),
        reads_all(pull_steps(g), open_pull_search(g, req), searches),
        run(pull_steps(g), open_pull_search(g, req), searches) == done::<PullSearchView, _>(pull),
        g.delete_branch(req.release_branch) is Ok,
        accepted(deleted.status) is Ok,
        reads_all(change_steps(g), release_lookup(g, req), lookups),
        run(change_steps(g), release_lookup(g, req), lookups) == done::<ChangeSetView, _>(files),
        g.modify_files(release_body(req, files)) is Ok,
        created.created_commit() is Ok,
        pull matches Some(pull) ==> g.set_pr_state(pull.number, "open"@) is Ok && accepted(
            reopened.status,
        ) is Ok,
    ensures
        ({
            let steps = release_branch_steps(g);
            let at = ReleaseBranchCreationView::start(g, req);
            let reopen = pull_number(pull);
            let replies = seq![exists] + (searches + (seq![deleted] + (lookups + last_replies(
                reopen,
                created,
                reopened,
            ))));
            &&& run(steps, at, replies) == done::<ReleaseBranchCreationView, _>(
                created.created_commit()->Ok_0.commit,
            )
            &&& sent(steps, at, replies) == seq![g.branch_exists(req.release_branch)->Ok_0] + (
            answered(pull_steps(g), open_pull_search(g, req), searches) + (seq![
                g.delete_branch(req.release_branch)->Ok_0,
            ] + (answered(change_steps(g), release_lookup(g, req), lookups) + last_requests(
                g,
                req,
                files,
                reopen,
            ))))
        }),
{
    let steps = release_branch_steps(g);
    let reopen = pull_number(pull);
    let behind = lookups + last_replies(reopen, created, reopened);
    let branch = release_branch_at(req, ReleaseBranchStageView::Commit(None));
    let asking = release_branch_at(req, ReleaseBranchStageView::Branch(req.file_changes));
    let deleting = release_branch_at(
        req,
        ReleaseBranchStageView::Deletion(reopen, req.file_changes),
    );
    run_steps(
        steps,
        g.branch_exists(req.release_branch)->Ok_0,
        asking,
        exists,
        searches + (seq![deleted] + behind),
    );
    assert(steps(asking, exists) == branch.on_pull(
        g,
        open_pull_search(g, req),
        req.file_changes,
    ));
    part_runs_within(
        pull_steps(g),
        steps,
        |search: PullSearchView| branch.at(ReleaseBranchStageView::Pull(search, req.file_changes)),
        |search: Progress<PullSearchView, Option<PullRequestView>>|
            branch.on_pull(g, search, req.file_changes),
        open_pull_search(g, req),
        searches,
        seq![deleted] + behind,
    );
    run_steps(steps, g.delete_branch(req.release_branch)->Ok_0, deleting, deleted, behind);
    assert(steps(deleting, deleted) == branch.look_up(g, reopen, req.file_changes));
    release_branch_ends(g, req, reopen, lookups, files, created, reopened);
}

/// A commit holds, in their order, the changes whose files are to have another
/// text than they have, each as an update of the hash that its file has or as a
/// creation; it is made on the branch and with the message that were asked for.
pub proof fn commit_holds_the_changes(
    g: GiteaView,
    req: CreateCommitRequestView,
    existing: Seq<Option<ExistingFile>>,
    lookups: Seq<ReplyView>,
    created: ReplyView,
)
    requires
        req.file_changes.len() == existing.len(),
        are_files(lookups, existing),
        forall|i: int|
            0 <= i < req.file_changes.len() ==> content_request(
                g,
                req.target_branch,
                (#[trigger] req.file_changes[i]).path,
            ) is Ok && g.get_file_sha(req.file_changes[i].path) is Ok,
        real_changes(req.file_changes, existing).len() > 0,
        joined_url(g.base_url, "contents"@) is Some,
        !refuses(created),
        created.payload is CreatedCommit,
    ensures
        ({
            let steps = commit_creation_steps(g);
            let at = CommitCreationView::start(g, req);
            let replies = lookups + seq![created];
            let changes = real_changes(req.file_changes, existing);
            let requests = sent(steps, at, replies);
            let last = requests.last();
            let body = last.body->ModifyFiles_0;
            &&& run(steps, at, replies) matches Ok(FlowView::Done(commit))
            &&& commit == created.payload->CreatedCommit_0.commit
            &&& requests.drop_last() == lookup_requests(
                g,
                req.target_branch,
                req.file_changes,
                existing,
            )
            &&& requests.len() > 0
            &&& last.method == Method::Post
            &&& last.url == joined_url(g.base_url, "contents"@).unwrap()
            &&& last.expect == Expect::CreatedCommit
            &&& last.body is ModifyFiles
            &&& body.branch == req.target_branch
            &&& body.new_branch is None
            &&& body.message == req.message
            &&& !body.force_push
            &&& body.files.len() == changes.len()
            &&& forall|i: int|
                0 <= i < changes.len() ==> is_sent_for(
                    body.files[i],
                    (#[trigger] changes[i]).0,
                    changes[i].1,
                )
        }),
{
    let none = Seq::<GiteaFileChangeView>::empty();
    changes_are_looked_up(
        g,
        req.target_branch,
        true,
        req.file_changes,
        none,
        existing,
        lookups,
    );
    only_unchanged_files_are_left_out(none, req.file_changes, existing);
    let files = all_changes(true, none, req.file_changes, existing);
    commit_is_posted(g, commit_body(req, files));
    commit_is_made(g, req, lookups, files, created);
    let requests = sent(
        commit_creation_steps(g),
        CommitCreationView::start(g, req),
        lookups + seq![created],
    );
    let changes = real_changes(req.file_changes, existing);
    assert(requests.drop_last() =~= lookup_requests(
        g,
        req.target_branch,
        req.file_changes,
        existing,
    ));
    assert forall|i: int| 0 <= i < changes.len() implies is_sent_for(
        files[i],
        (#[trigger] changes[i]).0,
        changes[i].1,
    ) by {
        assert(is_sent_for(files[none.len() + i], changes[i].0, changes[i].1));
    }
}

/// A commit whose files all have the text that they are to have is not made: the
/// files are looked up, nothing is posted, and `None` is its hash.
pub proof fn commit_without_changes_is_not_made(
    g: GiteaView,
    req: CreateCommitRequestView,
    existing: Seq<Option<ExistingFile>>,
    lookups: Seq<ReplyView>,
)
    requires
        req.file_changes.len() == existing.len(),
        are_files(lookups, existing),
        forall|i: int|
            0 <= i < req.file_changes.len() ==> content_request(
                g,
                req.target_branch,
                (#[trigger] req.file_changes[i]).path,
            ) is Ok && g.get_file_sha(req.file_changes[i].path) is Ok,
        forall|i: int|
            0 <= i < req.file_changes.len() ==> text_after(
                #[trigger] req.file_changes[i],
                existing[i],
            ) == text_before(existing[i]),
    ensures
        run(commit_creation_steps(g), CommitCreationView::start(g, req), lookups) matches Ok(
            FlowView::Done(commit),
        ) && commit.sha == "None"@,
        sent(commit_creation_steps(g), CommitCreationView::start(g, req), lookups)
            == lookup_requests(g, req.target_branch, req.file_changes, existing),
{
    let none = Seq::<GiteaFileChangeView>::empty();
    changes_are_looked_up(
        g,
        req.target_branch,
        true,
        req.file_changes,
        none,
        existing,
        lookups,
    );
    unchanged_files_are_left_out(req.file_changes, existing);
    assert(all_changes(true, none, req.file_changes, existing) =~= none);
    empty_commit_is_not_made(g, req, lookups);
}

/// Whether a request is the one for the commit of a release branch: on top of the
/// base branch, on the release branch, with every change in its order.
pub open spec fn posts_release(
    g: GiteaView,
    req: CreateReleaseBranchRequestView,
    existing: Seq<Option<ExistingFile>>,
    request: RequestView,
) -> bool {
    let body = request.body->ModifyFiles_0;
    &&& request.method == Method::Post
    &&& Some(request.url) == joined_url(g.base_url, "contents"@)
    &&& request.expect == Expect::CreatedCommit
    &&& request.body is ModifyFiles
    &&& body.branch == req.base_branch
    &&& body.new_branch == Some(req.release_branch)
    &&& body.message == req.message
    &&& body.force_push
    &&& body.files.len() == req.file_changes.len()
    &&& forall|i: int|
        0 <= i < req.file_changes.len() ==> is_sent_for(
            body.files[i],
            #[trigger] req.file_changes[i],
            existing[i],
        )
}

/// What the look-up of the files of a release branch comes to is what is posted.
proof fn release_holds_the_changes(
    g: GiteaView,
    req: CreateReleaseBranchRequestView,
    existing: Seq<Option<ExistingFile>>,
    lookups: Seq<ReplyView>,
)
    requires
        req.file_changes.len() == existing.len(),
        are_files(lookups, existing),
        forall|i: int|
            0 <= i < req.file_changes.len() ==> content_request(
                g,
                req.base_branch,
                (#[trigger] req.file_changes[i]).path,
            ) is Ok && g.get_file_sha(req.file_changes[i].path) is Ok,
        joined_url(g.base_url, "contents"@) is Some,
    ensures
        ({
            let files = all_changes(false, Seq::empty(), req.file_changes, existing);
            &&& reads_all(change_steps(g), release_lookup(g, req), lookups)
            &&& answered(change_steps(g), release_lookup(g, req), lookups) == lookup_requests(
                g,
                req.base_branch,
                req.file_changes,
                existing,
            )
            &&& run(change_steps(g), release_lookup(g, req), lookups) == done::<
                ChangeSetView,
                _,
            >(files)
            &&& g.modify_files(release_body(req, files)) is Ok
            &&& posts_release(g, req, existing, g.modify_files(release_body(req, files))->Ok_0)
        }),
{
    let none = Seq::<GiteaFileChangeView>::empty();
    changes_are_looked_up(g, req.base_branch, false, req.file_changes, none, existing, lookups);
    every_change_is_made(none, req.file_changes, existing);
    let files = all_changes(false, none, req.file_changes, existing);
    commit_is_posted(g, release_body(req, files));
    assert forall|i: int| 0 <= i < req.file_changes.len() implies is_sent_for(
        files[i],
        #[trigger] req.file_changes[i],
        existing[i],
    ) by {
        assert(is_sent_for(files[none.len() + i], req.file_changes[i], existing[i]));
    }
}

/// A release branch whose name is free holds every change on top of the base
/// branch, each as an update of the hash that its file has there or as a creation;
/// only the look-up of the files and that commit are sent.
pub proof fn new_release_branch_holds_the_changes(
    g: GiteaView,
    req: CreateReleaseBranchRequestView,
    missing: ReplyView,
    existing: Seq<Option<ExistingFile>>,
    lookups: Seq<ReplyView>,
    created: ReplyView,
)
    requires
        joined_url(g.base_url, "branches/"@ + req.release_branch) is Some,
        missing.status == 404,
        req.file_changes.len() == existing.len(),
        are_files(lookups, existing),
        forall|i: int|
            0 <= i < req.file_changes.len() ==> content_request(
                g,
                req.base_branch,
                (#[trigger] req.file_changes[i]).path,
            ) is Ok && g.get_file_sha(req.file_changes[i].path) is Ok,
        joined_url(g.base_url, "contents"@) is Some,
        !refuses(created),
        created.payload is CreatedCommit,
    ensures
        ({
            let steps = release_branch_steps(g);
            let at = ReleaseBranchCreationView::start(g, req);
            let replies = seq![missing] + (lookups + seq![created]);
            let requests = sent(steps, at, replies);
            &&& run(steps, at, replies) matches Ok(FlowView::Done(commit))
            &&& commit == created.payload->CreatedCommit_0.commit
            &&& requests.drop_last() == seq![g.branch_exists(req.release_branch)->Ok_0]
                + lookup_requests(g, req.base_branch, req.file_changes, existing)
            &&& requests.len() > 0
            &&& posts_release(g, req, existing, requests.last())
        }),
{
    branch_requests(g, req.release_branch);
    release_holds_the_changes(g, req, existing, lookups);
    let files = all_changes(false, Seq::empty(), req.file_changes, existing);
    new_release_branch_is_made(g, req, missing, lookups, files, created);
    let requests = sent(
        release_branch_steps(g),
        ReleaseBranchCreationView::start(g, req),
        seq![missing] + (lookups + seq![created]),
    );
    assert(requests.drop_last() =~= seq![g.branch_exists(req.release_branch)->Ok_0]
        + lookup_requests(g, req.base_branch, req.file_changes, existing));
}

/// A release branch whose name is taken, and whose open pull request is found, is
/// made anew: the pull request is looked for first, the branch is deleted, every
/// change goes on top of the base branch, and that very pull request is opened
/// again in the end.
pub proof fn release_branch_anew_holds_the_changes(
    g: GiteaView,
    req: CreateReleaseBranchRequestView,
    exists: ReplyView,
    searches: Seq<ReplyView>,
    pull: PullRequestView,
    deleted: ReplyView,
    existing: Seq<Option<ExistingFile>>,
    lookups: Seq<ReplyView>,
    created: ReplyView,
    reopened: ReplyView,
)
    requires
        joined_url(g.base_url, "branches/"@ + req.release_branch) is Some,
        exists.status == 200,
        reads_all(pull_steps(g), open_pull_search(g, req), searches),
        run(pull_steps(g), open_pull_search(g, req), searches) == done::<PullSearchView, _>(
            Some(pull),
        ),
        !refuses(deleted),
        req.file_changes.len() == existing.len(),
        are_files(lookups, existing),
        forall|i: int|
            0 <= i < req.file_changes.len() ==> content_request(
                g,
                req.base_branch,
                (#[trigger] req.file_changes[i]).path,
            ) is Ok && g.get_file_sha(req.file_changes[i].path) is Ok,
        joined_url(g.base_url, "contents"@) is Some,
        !refuses(created),
        created.payload is CreatedCommit,
        joined_url(g.base_url, "pulls/"@ + decimal(pull.number as nat)) is Some,
        !refuses(reopened),
    ensures
        ({
            let steps = release_branch_steps(g);
            let at = ReleaseBranchCreationView::start(g, req);
            let replies = seq![exists] + (searches + (seq![deleted] + (lookups + seq![
                created,
                reopened,
            ])));
            let requests = sent(steps, at, replies);
            let n = requests.len();
            let last = requests[n - 1];
            &&& run(steps, at, replies) matches Ok(FlowView::Done(commit))
            &&& commit == created.payload->CreatedCommit_0.commit
            &&& n > 2
            &&& requests.take(n - 2) == seq![g.branch_exists(req.release_branch)->Ok_0] + (answered(
                pull_steps(g),
                open_pull_search(g, req),
                searches,
            ) + (seq![g.delete_branch(req.release_branch)->Ok_0] + lookup_requests(
                g,
                req.base_branch,
                req.file_changes,
                existing,
            )))
            &&& posts_release(g, req, existing, requests[n - 2])
            &&& last.method == Method::Patch
            &&& Some(last.url) == joined_url(
                g.base_url,
                "pulls/"@ + decimal(pull.number as nat),
            )
            &&& last.body is UpdatePullState
            &&& last.body->UpdatePullState_0.state == "open"@
        }),
{
    branch_requests(g, req.release_branch);
    pull_is_patched(g, pull.number, "open"@, Seq::empty(), Seq::empty());
    release_holds_the_changes(g, req, existing, lookups);
    let files = all_changes(false, Seq::empty(), req.file_changes, existing);
    release_branch_is_made_anew(
        g,
        req,
        exists,
        searches,
        Some(pull),
        deleted,
        lookups,
        files,
        created,
        reopened,
    );
    let replies = seq![exists] + (searches + (seq![deleted] + (lookups + seq![created, reopened])));
    let requests = sent(
        release_branch_steps(g),
        ReleaseBranchCreationView::start(g, req),
        replies,
    );
    let n = requests.len();
    let before = seq![g.branch_exists(req.release_branch)->Ok_0] + (answered(
        pull_steps(g),
        open_pull_search(g, req),
        searches,
    ) + (seq![g.delete_branch(req.release_branch)->Ok_0] + lookup_requests(
        g,
        req.base_branch,
        req.file_changes,
        existing,
    )));
    let end = last_requests(g, req, files, Some(pull.number));
    assert(requests =~= before + end);
    assert(requests.take(n - 2) =~= before);
}

/// A reply that the forge refuses fails the making of a commit or of a release
/// branch, at whatever stage, but where it says that a branch or a file is not
/// there.
pub proof fn refusal_fails_the_branch(
    g: GiteaView,
    commit: CommitCreationView,
    branch: ReleaseBranchCreationView,
    reply: ReplyView,
)
    requires
        refuses(reply),
    ensures
        reply.status != 404 || commit.stage is Commit ==> fails(
            commit.step(g, reply),
            ForgeErrorView::Status(reply.status),
        ),
        reply.status != 404 || !(branch.stage is Branch || branch.stage is Files) ==> fails(
            branch.step(g, reply),
            ForgeErrorView::Status(reply.status),
        ),
{
}

/// A commit that the forge does not tell of is an error, whatever it says instead.
pub proof fn untold_commit_is_an_error(
    g: GiteaView,
    commit: CommitCreationView,
    branch: ReleaseBranchCreationView,
    reply: ReplyView,
)
    requires
        reply.payload !is CreatedCommit,
    ensures
        commit.stage is Commit ==> commit.step(g, reply) is Err,
        branch.stage is Commit ==> branch.step(g, reply) is Err,
{
}

} // verus!

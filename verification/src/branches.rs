//! Branches, and commits on them.

use vstd::prelude::*;

use crate::error::{outcome, ForgeError, ForgeErrorView};
use crate::files::{ChangeSet, ChangeSetView};
use crate::gitea::{Gitea, GiteaView};
use crate::http::{
    accepted, done, error_for_status, make_request, request_to, send, sending, Body, BodyView,
    Expect, Flow, FlowView, Method, Progress, Reply, ReplyView, Request, RequestView, NOT_FOUND,
};
use crate::pulls::{PullKind, PullSearch, PullSearchView};
use crate::text::{concat, decimal, decimal_text};
use crate::types::{
    CreateCommitRequest, CreateCommitRequestView, CreateReleaseBranchRequest,
    CreateReleaseBranchRequestView, FileChange, FileChangeView, PullRequest, PullRequestView,
};
use crate::wire::{
    Commit, CommitView, GiteaFileChange, GiteaFileChangeView, GiteaModifyFiles,
    GiteaModifyFilesView, UpdatePullState, UpdatePullStateView,
};

verus! {

/// The status of a resource that is there.
pub const FOUND: u16 = 200;

impl GiteaView {
    /// The request that asks for a branch.
    #[verifier::opaque]
    pub open spec fn branch_exists(self, name: Seq<char>) -> Result<RequestView, ForgeErrorView> {
        request_to(
            Method::Get,
            self.endpoint("branches/"@ + name),
            BodyView::Empty,
            Expect::Nothing,
        )
    }

    /// The request that deletes a branch.
    #[verifier::opaque]
    pub open spec fn delete_branch(self, name: Seq<char>) -> Result<RequestView, ForgeErrorView> {
        request_to(
            Method::Delete,
            self.endpoint("branches/"@ + name),
            BodyView::Empty,
            Expect::Nothing,
        )
    }

    /// The request that opens or closes a pull request.
    #[verifier::opaque]
    pub open spec fn set_pr_state(self, pr_number: u64, state: Seq<char>) -> Result<
        RequestView,
        ForgeErrorView,
    > {
        request_to(
            Method::Patch,
            self.endpoint("pulls/"@ + decimal(pr_number as nat)),
            BodyView::UpdatePullState(UpdatePullStateView { state }),
            Expect::Nothing,
        )
    }

    /// The request for a commit that changes files.
    #[verifier::opaque]
    pub open spec fn modify_files(self, body: GiteaModifyFilesView) -> Result<
        RequestView,
        ForgeErrorView,
    > {
        request_to(
            Method::Post,
            self.endpoint("contents"@),
            BodyView::ModifyFiles(body),
            Expect::CreatedCommit,
        )
    }
}

impl ReplyView {
    /// Whether the branch that was asked for is there.
    pub open spec fn branch_exists(self) -> Result<bool, ForgeErrorView> {
        if self.status == FOUND {
            Ok(true)
        } else if self.status == NOT_FOUND {
            Ok(false)
        } else {
            match accepted(self.status) {
                Ok(_) => Ok(false),
                Err(error) => Err(error),
            }
        }
    }
}

impl Reply {
    /// Tells whether the branch that was asked for is there.
    pub fn branch_exists(&self) -> (res: Result<bool, ForgeError>)
        ensures
            outcome(res) == self.deep_view().branch_exists(),
    {
        if self.status == FOUND {
            return Ok(true);
        }
        if self.status == NOT_FOUND {
            return Ok(false);
        }
        match error_for_status(self.status) {
            Ok(_) => Ok(false),
            Err(error) => Err(error),
        }
    }
}

impl Gitea {
    /// Asks whether a branch is there.
    pub fn branch_exists(&self, name: &str) -> (res: Result<Request, ForgeError>)
        ensures
            outcome(res) == self@.branch_exists(name@),
    {
        proof {
            reveal(GiteaView::branch_exists);
        }
        let url = self.endpoint(concat("branches/", name).as_str());
        make_request(Method::Get, url, Body::Empty, Expect::Nothing)
    }

    /// Deletes a branch.
    pub fn delete_branch(&self, name: &str) -> (res: Result<Request, ForgeError>)
        ensures
            outcome(res) == self@.delete_branch(name@),
    {
        proof {
            reveal(GiteaView::delete_branch);
        }
        let url = self.endpoint(concat("branches/", name).as_str());
        make_request(Method::Delete, url, Body::Empty, Expect::Nothing)
    }

    /// Opens or closes a pull request.
    pub fn set_pr_state(&self, pr_number: u64, state: &str) -> (res: Result<Request, ForgeError>)
        ensures
            outcome(res) == self@.set_pr_state(pr_number, state@),
    {
        proof {
            reveal(GiteaView::set_pr_state);
        }
        let url = self.endpoint(concat("pulls/", decimal_text(pr_number).as_str()).as_str());
        let body = Body::UpdatePullState(UpdatePullState { state: state.to_owned() });
        make_request(Method::Patch, url, body, Expect::Nothing)
    }

    /// Asks for a commit that changes files.
    pub(crate) fn modify_files(&self, body: GiteaModifyFiles) -> (res: Result<Request, ForgeError>)
        ensures
            outcome(res) == self@.modify_files(body.deep_view()),
    {
        proof {
            reveal(GiteaView::modify_files);
        }
        make_request(
            Method::Post,
            self.endpoint("contents"),
            Body::ModifyFiles(body),
            Expect::CreatedCommit,
        )
    }
}

/// A commit on a branch that is being made.
#[derive(Debug)]
pub struct CommitCreation {
    target_branch: String,
    message: String,
    stage: CommitCreationStage,
}

/// What a commit that is being made waits for.
#[derive(Debug)]
pub enum CommitCreationStage {
    /// The files that it changes.
    Files(ChangeSet),
    /// The commit.
    Commit,
}

/// The value of a [`CommitCreation`].
#[verifier::ext_equal]
pub struct CommitCreationView {
    pub target_branch: Seq<char>,
    pub message: Seq<char>,
    pub stage: CommitCreationStageView,
}

/// The value of a [`CommitCreationStage`].
#[verifier::ext_equal]
pub enum CommitCreationStageView {
    Files(ChangeSetView),
    Commit,
}

impl DeepView for CommitCreationStage {
    type V = CommitCreationStageView;

    open spec fn deep_view(&self) -> CommitCreationStageView {
        match self {
            CommitCreationStage::Files(changes) => CommitCreationStageView::Files(changes@),
            CommitCreationStage::Commit => CommitCreationStageView::Commit,
        }
    }
}

impl View for CommitCreation {
    type V = CommitCreationView;

    closed spec fn view(&self) -> CommitCreationView {
        CommitCreationView {
            target_branch: self.target_branch@,
            message: self.message@,
            stage: self.stage.deep_view(),
        }
    }
}

impl DeepView for CommitCreation {
    type V = CommitCreationView;

    open spec fn deep_view(&self) -> CommitCreationView {
        self@
    }
}

impl CommitCreationView {
    /// Waits for the files, or asks for the commit; without a change there is no
    /// commit to be made.
    pub open spec fn on_files(
        g: GiteaView,
        target_branch: Seq<char>,
        message: Seq<char>,
        changes: Progress<ChangeSetView, Seq<GiteaFileChangeView>>,
    ) -> Progress<CommitCreationView, CommitView> {
        match changes {
            Err(error) => Err(error),
            Ok(FlowView::Send(request, changes)) => Ok(
                FlowView::Send(
                    request,
                    CommitCreationView {
                        target_branch,
                        message,
                        stage: CommitCreationStageView::Files(changes),
                    },
                ),
            ),
            Ok(FlowView::Done(files)) => if files.len() == 0 {
                done(CommitView { sha: "None"@ })
            } else {
                sending(
                    g.modify_files(
                        GiteaModifyFilesView {
                            branch: target_branch,
                            new_branch: None,
                            message,
                            files,
                            force_push: false,
                        },
                    ),
                    CommitCreationView {
                        target_branch,
                        message,
                        stage: CommitCreationStageView::Commit,
                    },
                )
            },
        }
    }

    /// Looks the files up on the branch.
    pub open spec fn start(g: GiteaView, req: CreateCommitRequestView) -> Progress<
        CommitCreationView,
        CommitView,
    > {
        CommitCreationView::on_files(
            g,
            req.target_branch,
            req.message,
            ChangeSetView::ask(g, req.target_branch, true, req.file_changes, Seq::empty()),
        )
    }

    /// Reads a reply.
    pub open spec fn step(self, g: GiteaView, reply: ReplyView) -> Progress<
        CommitCreationView,
        CommitView,
    > {
        match self.stage {
            CommitCreationStageView::Files(changes) => CommitCreationView::on_files(
                g,
                self.target_branch,
                self.message,
                changes.step(g, reply),
            ),
            CommitCreationStageView::Commit => match reply.created_commit() {
                Ok(created) => done(created.commit),
                Err(error) => Err(error),
            },
        }
    }
}

impl CommitCreation {
    fn on_files(
        gitea: &Gitea,
        target_branch: String,
        message: String,
        changes: Result<Flow<ChangeSet, Vec<GiteaFileChange>>, ForgeError>,
    ) -> (res: Result<Flow<CommitCreation, Commit>, ForgeError>)
        ensures
            outcome(res) == CommitCreationView::on_files(
                gitea@,
                target_branch@,
                message@,
                outcome(changes),
            ),
    {
        match changes {
            Err(error) => Err(error),
            Ok(Flow::Send(request, changes)) => Ok(
                Flow::Send(
                    request,
                    CommitCreation {
                        target_branch,
                        message,
                        stage: CommitCreationStage::Files(changes),
                    },
                ),
            ),
            Ok(Flow::Done(files)) => {
                if files.len() == 0 {
                    return Ok(Flow::Done(Commit { sha: "None".to_owned() }));
                }
                let request = gitea.modify_files(
                    GiteaModifyFiles {
                        branch: target_branch.clone(),
                        new_branch: None,
                        message: message.clone(),
                        files,
                        force_push: false,
                    },
                );
                let stage = CommitCreationStage::Commit;
                send(request, CommitCreation { target_branch, message, stage })
            },
        }
    }

    /// Reads a reply.
    pub fn on_reply(self, gitea: &Gitea, reply: Reply) -> (res: Result<
        Flow<CommitCreation, Commit>,
        ForgeError,
    >)
        ensures
            outcome(res) == self@.step(gitea@, reply.deep_view()),
    {
        let CommitCreation { target_branch, message, stage } = self;
        match stage {
            CommitCreationStage::Files(changes) => CommitCreation::on_files(
                gitea,
                target_branch,
                message,
                changes.on_reply(gitea, reply),
            ),
            CommitCreationStage::Commit => match reply.created_commit() {
                Ok(created) => Ok(Flow::Done(created.commit)),
                Err(error) => Err(error),
            },
        }
    }
}

impl Gitea {
    /// Starts a commit on a branch. Changes that change nothing are left out; a
    /// commit that would have none is not made, and `None` is its hash.
    pub fn create_commit(&self, req: CreateCommitRequest) -> (res: Result<
        Flow<CommitCreation, Commit>,
        ForgeError,
    >)
        ensures
            outcome(res) == CommitCreationView::start(self@, req.deep_view()),
    {
        let files: Vec<GiteaFileChange> = Vec::new();
        assert(files.deep_view() =~= Seq::empty());
        let branch = req.target_branch.clone();
        let changes = ChangeSet::ask(self, branch, true, req.file_changes, files);
        CommitCreation::on_files(self, req.target_branch, req.message, changes)
    }
}

/// A release branch that is being made.
#[derive(Debug)]
pub struct ReleaseBranchCreation {
    base_branch: String,
    release_branch: String,
    message: String,
    stage: ReleaseBranchStage,
}

/// What a release branch that is being made waits for.
#[derive(Debug)]
pub enum ReleaseBranchStage {
    /// Whether there is such a branch already.
    Branch(Vec<FileChange>),
    /// The open pull request of the branch that is there.
    Pull(PullSearch, Vec<FileChange>),
    /// The deletion of the branch that is there, which closes that pull request.
    Deletion(Option<u64>, Vec<FileChange>),
    /// The files that the commit changes.
    Files(Option<u64>, ChangeSet),
    /// The commit.
    Commit(Option<u64>),
    /// That the pull request is open again.
    Reopening(Commit),
}

/// The value of a [`ReleaseBranchCreation`].
#[verifier::ext_equal]
pub struct ReleaseBranchCreationView {
    pub base_branch: Seq<char>,
    pub release_branch: Seq<char>,
    pub message: Seq<char>,
    pub stage: ReleaseBranchStageView,
}

/// The value of a [`ReleaseBranchStage`].
#[verifier::ext_equal]
pub enum ReleaseBranchStageView {
    Branch(Seq<FileChangeView>),
    Pull(PullSearchView, Seq<FileChangeView>),
    Deletion(Option<u64>, Seq<FileChangeView>),
    Files(Option<u64>, ChangeSetView),
    Commit(Option<u64>),
    Reopening(CommitView),
}

impl DeepView for ReleaseBranchStage {
    type V = ReleaseBranchStageView;

    open spec fn deep_view(&self) -> ReleaseBranchStageView {
        match self {
            ReleaseBranchStage::Branch(changes) => ReleaseBranchStageView::Branch(
                changes.deep_view(),
            ),
            ReleaseBranchStage::Pull(search, changes) => ReleaseBranchStageView::Pull(
                search@,
                changes.deep_view(),
            ),
            ReleaseBranchStage::Deletion(reopen, changes) => ReleaseBranchStageView::Deletion(
                *reopen,
                changes.deep_view(),
            ),
            ReleaseBranchStage::Files(reopen, changes) => ReleaseBranchStageView::Files(
                *reopen,
                changes@,
            ),
            ReleaseBranchStage::Commit(reopen) => ReleaseBranchStageView::Commit(*reopen),
            ReleaseBranchStage::Reopening(commit) => ReleaseBranchStageView::Reopening(
                commit.deep_view(),
            ),
        }
    }
}

impl View for ReleaseBranchCreation {
    type V = ReleaseBranchCreationView;

    closed spec fn view(&self) -> ReleaseBranchCreationView {
        ReleaseBranchCreationView {
            base_branch: self.base_branch@,
            release_branch: self.release_branch@,
            message: self.message@,
            stage: self.stage.deep_view(),
        }
    }
}

impl DeepView for ReleaseBranchCreation {
    type V = ReleaseBranchCreationView;

    open spec fn deep_view(&self) -> ReleaseBranchCreationView {
        self@
    }
}

impl ReleaseBranchCreationView {
    /// The same branch, at another stage.
    pub open spec fn at(self, stage: ReleaseBranchStageView) -> ReleaseBranchCreationView {
        ReleaseBranchCreationView { stage, ..self }
    }

    /// Waits for the pull request of the branch that is there, or deletes that
    /// branch.
    pub open spec fn on_pull(
        self,
        g: GiteaView,
        search: Progress<PullSearchView, Option<PullRequestView>>,
        changes: Seq<FileChangeView>,
    ) -> Progress<ReleaseBranchCreationView, CommitView> {
        match search {
            Err(error) => Err(error),
            Ok(FlowView::Send(request, search)) => Ok(
                FlowView::Send(request, self.at(ReleaseBranchStageView::Pull(search, changes))),
            ),
            Ok(FlowView::Done(pull)) => {
                let reopen = match pull {
                    Some(pull) => Some(pull.number),
                    None => None,
                };
                sending(
                    g.delete_branch(self.release_branch),
                    self.at(ReleaseBranchStageView::Deletion(reopen, changes)),
                )
            },
        }
    }

    /// Looks the files up on the base branch.
    pub open spec fn look_up(
        self,
        g: GiteaView,
        reopen: Option<u64>,
        changes: Seq<FileChangeView>,
    ) -> Progress<ReleaseBranchCreationView, CommitView> {
        self.on_files(
            g,
            reopen,
            ChangeSetView::ask(g, self.base_branch, false, changes, Seq::empty()),
        )
    }

    /// Waits for the files, or asks for the commit on the new branch.
    pub open spec fn on_files(
        self,
        g: GiteaView,
        reopen: Option<u64>,
        changes: Progress<ChangeSetView, Seq<GiteaFileChangeView>>,
    ) -> Progress<ReleaseBranchCreationView, CommitView> {
        match changes {
            Err(error) => Err(error),
            Ok(FlowView::Send(request, changes)) => Ok(
                FlowView::Send(request, self.at(ReleaseBranchStageView::Files(reopen, changes))),
            ),
            Ok(FlowView::Done(files)) => sending(
                g.modify_files(
                    GiteaModifyFilesView {
                        branch: self.base_branch,
                        new_branch: Some(self.release_branch),
                        message: self.message,
                        files,
                        force_push: true,
                    },
                ),
                self.at(ReleaseBranchStageView::Commit(reopen)),
            ),
        }
    }

    /// Asks whether there is such a branch already.
    pub open spec fn start(g: GiteaView, req: CreateReleaseBranchRequestView) -> Progress<
        ReleaseBranchCreationView,
        CommitView,
    > {
        sending(
            g.branch_exists(req.release_branch),
            ReleaseBranchCreationView {
                base_branch: req.base_branch,
                release_branch: req.release_branch,
                message: req.message,
                stage: ReleaseBranchStageView::Branch(req.file_changes),
            },
        )
    }

    /// Reads a reply.
    pub open spec fn step(self, g: GiteaView, reply: ReplyView) -> Progress<
        ReleaseBranchCreationView,
        CommitView,
    > {
        match self.stage {
            ReleaseBranchStageView::Branch(changes) => match reply.branch_exists() {
                Err(error) => Err(error),
                Ok(true) => self.on_pull(
                    g,
                    PullSearchView::start(g, PullKind::Open, self.release_branch),
                    changes,
                ),
                Ok(false) => self.look_up(g, None, changes),
            },
            ReleaseBranchStageView::Pull(search, changes) => self.on_pull(
                g,
                search.step(g, reply),
                changes,
            ),
            ReleaseBranchStageView::Deletion(reopen, changes) => match accepted(reply.status) {
                Err(error) => Err(error),
                Ok(_) => self.look_up(g, reopen, changes),
            },
            ReleaseBranchStageView::Files(reopen, changes) => self.on_files(
                g,
                reopen,
                changes.step(g, reply),
            ),
            ReleaseBranchStageView::Commit(reopen) => match reply.created_commit() {
                Err(error) => Err(error),
                Ok(created) => match reopen {
                    None => done(created.commit),
                    Some(number) => sending(
                        g.set_pr_state(number, "open"@),
                        self.at(ReleaseBranchStageView::Reopening(created.commit)),
                    ),
                },
            },
            ReleaseBranchStageView::Reopening(commit) => match accepted(reply.status) {
                Err(error) => Err(error),
                Ok(_) => done(commit),
            },
        }
    }
}

impl ReleaseBranchCreation {
    fn at(self, stage: ReleaseBranchStage) -> (res: ReleaseBranchCreation)
        ensures
            res@ == self@.at(stage.deep_view()),
    {
        ReleaseBranchCreation { stage, ..self }
    }

    fn on_pull(
        self,
        gitea: &Gitea,
        search: Result<Flow<PullSearch, Option<PullRequest>>, ForgeError>,
        changes: Vec<FileChange>,
    ) -> (res: Result<Flow<ReleaseBranchCreation, Commit>, ForgeError>)
        ensures
            outcome(res) == self@.on_pull(gitea@, outcome(search), changes.deep_view()),
    {
        match search {
            Err(error) => Err(error),
            Ok(Flow::Send(request, search)) => Ok(
                Flow::Send(request, self.at(ReleaseBranchStage::Pull(search, changes))),
            ),
            Ok(Flow::Done(pull)) => {
                let reopen = match pull {
                    Some(pull) => Some(pull.number),
                    None => None,
                };
                let request = gitea.delete_branch(self.release_branch.as_str());
                send(request, self.at(ReleaseBranchStage::Deletion(reopen, changes)))
            },
        }
    }

    fn look_up(self, gitea: &Gitea, reopen: Option<u64>, changes: Vec<FileChange>) -> (res: Result<
        Flow<ReleaseBranchCreation, Commit>,
        ForgeError,
    >)
        ensures
            outcome(res) == self@.look_up(gitea@, reopen, changes.deep_view()),
    {
        let files: Vec<GiteaFileChange> = Vec::new();
        assert(files.deep_view() =~= Seq::empty());
        let branch = self.base_branch.clone();
        self.on_files(gitea, reopen, ChangeSet::ask(gitea, branch, false, changes, files))
    }

    fn on_files(
        self,
        gitea: &Gitea,
        reopen: Option<u64>,
        changes: Result<Flow<ChangeSet, Vec<GiteaFileChange>>, ForgeError>,
    ) -> (res: Result<Flow<ReleaseBranchCreation, Commit>, ForgeError>)
        ensures
            outcome(res) == self@.on_files(gitea@, reopen, outcome(changes)),
    {
        match changes {
            Err(error) => Err(error),
            Ok(Flow::Send(request, changes)) => Ok(
                Flow::Send(request, self.at(ReleaseBranchStage::Files(reopen, changes))),
            ),
            Ok(Flow::Done(files)) => {
                let request = gitea.modify_files(
                    GiteaModifyFiles {
                        branch: self.base_branch.clone(),
                        new_branch: Some(self.release_branch.clone()),
                        message: self.message.clone(),
                        files,
                        force_push: true,
                    },
                );
                send(request, self.at(ReleaseBranchStage::Commit(reopen)))
            },
        }
    }

    /// Reads a reply.
    pub fn on_reply(self, gitea: &Gitea, reply: Reply) -> (res: Result<
        Flow<ReleaseBranchCreation, Commit>,
        ForgeError,
    >)
        ensures
            outcome(res) == self@.step(gitea@, reply.deep_view()),
    {
        let ReleaseBranchCreation { base_branch, release_branch, message, stage } = self;
        let branch = release_branch.clone();
        let waiting = ReleaseBranchCreation {
            base_branch,
            release_branch,
            message,
            stage: ReleaseBranchStage::Commit(None),
        };
        match stage {
            ReleaseBranchStage::Branch(changes) => match reply.branch_exists() {
                Err(error) => Err(error),
                Ok(true) => waiting.on_pull(
                    gitea,
                    PullSearch::start(gitea, PullKind::Open, branch),
                    changes,
                ),
                Ok(false) => waiting.look_up(gitea, None, changes),
            },
            ReleaseBranchStage::Pull(search, changes) => waiting.on_pull(
                gitea,
                search.on_reply(gitea, reply),
                changes,
            ),
            ReleaseBranchStage::Deletion(reopen, changes) => match error_for_status(
                reply.status,
            ) {
                Err(error) => Err(error),
                Ok(_) => waiting.look_up(gitea, reopen, changes),
            },
            ReleaseBranchStage::Files(reopen, changes) => waiting.on_files(
                gitea,
                reopen,
                changes.on_reply(gitea, reply),
            ),
            ReleaseBranchStage::Commit(reopen) => match reply.created_commit() {
                Err(error) => Err(error),
                Ok(created) => match reopen {
                    None => Ok(Flow::Done(created.commit)),
                    Some(number) => {
                        let request = gitea.set_pr_state(number, "open");
                        send(request, waiting.at(ReleaseBranchStage::Reopening(created.commit)))
                    },
                },
            },
            ReleaseBranchStage::Reopening(commit) => match error_for_status(reply.status) {
                Err(error) => Err(error),
                Ok(_) => Ok(Flow::Done(commit)),
            },
        }
    }
}

impl Gitea {
    /// Starts a release branch: a commit on top of the base branch, on a branch
    /// of its own. A branch of that name that is there is deleted first; the
    /// pull request that this closes is opened again at the end.
    pub fn create_release_branch(&self, req: CreateReleaseBranchRequest) -> (res: Result<
        Flow<ReleaseBranchCreation, Commit>,
        ForgeError,
    >)
        ensures
            outcome(res) == ReleaseBranchCreationView::start(self@, req.deep_view()),
    {
        let request = self.branch_exists(req.release_branch.as_str());
        send(
            request,
            ReleaseBranchCreation {
                base_branch: req.base_branch,
                release_branch: req.release_branch,
                message: req.message,
                stage: ReleaseBranchStage::Branch(req.file_changes),
            },
        )
    }
}

} // verus!

//! The commits since a release.

use vstd::prelude::*;

use crate::bindings::{parse_rfc3339, rfc3339_seconds, trimmed};
use crate::error::{outcome, ForgeError, ForgeErrorView};
use crate::gitea::{add_pair, with_pair, Gitea, GiteaView};
use crate::http::{
    done, make_request, request_to, send, sending, Body, BodyView, Expect, Flow, Method, Progress,
    Reply, ReplyView, RequestView,
};
use crate::labels::{next_page, turn_page};
use crate::text::{concat, decimal, decimal_text, first_chars, same_text, take_chars};
use crate::types::{ForgeCommit, ForgeCommitView};
use crate::wire::{
    GiteaCommitFile, GiteaCommitFileView, GiteaCommitQueryObject, GiteaCommitQueryObjectView,
};

verus! {

/// A listing of the commits of a branch, down to a commit where one is given.
#[derive(Debug)]
pub struct CommitListing {
    branch: Option<String>,
    /// The commit to stop at.
    sha: Option<String>,
    stage: CommitStage,
}

/// What a listing of commits waits for.
#[derive(Debug)]
pub enum CommitStage {
    /// The commit to stop at.
    Stop,
    /// A page of commits.
    Page {
        /// When the commit to stop at was made.
        since: Option<String>,
        /// The page that was asked for.
        page: u64,
        /// The commits of the pages before.
        commits: Vec<ForgeCommit>,
    },
}

/// The value of a [`CommitListing`].
#[verifier::ext_equal]
pub struct CommitListingView {
    pub branch: Option<Seq<char>>,
    pub sha: Option<Seq<char>>,
    pub stage: CommitStageView,
}

/// The value of a [`CommitStage`].
#[verifier::ext_equal]
pub enum CommitStageView {
    Stop,
    Page { since: Option<Seq<char>>, page: u64, commits: Seq<ForgeCommitView> },
}

impl DeepView for CommitStage {
    type V = CommitStageView;

    open spec fn deep_view(&self) -> CommitStageView {
        match self {
            CommitStage::Stop => CommitStageView::Stop,
            CommitStage::Page { since, page, commits } => CommitStageView::Page {
                since: since.deep_view(),
                page: *page,
                commits: commits.deep_view(),
            },
        }
    }
}

impl View for CommitListing {
    type V = CommitListingView;

    closed spec fn view(&self) -> CommitListingView {
        CommitListingView {
            branch: self.branch.deep_view(),
            sha: self.sha.deep_view(),
            stage: self.stage.deep_view(),
        }
    }
}

impl DeepView for CommitListing {
    type V = CommitListingView;

    open spec fn deep_view(&self) -> CommitListingView {
        self@
    }
}

/// A commit of the API as a commit of the history.
pub open spec fn forge_commit(
    commit: GiteaCommitQueryObjectView,
    timestamp: i64,
) -> ForgeCommitView {
    ForgeCommitView {
        id: commit.sha,
        short_id: first_chars(commit.sha, 8),
        link: commit.html_url,
        author_name: commit.commit.author.name,
        author_email: commit.commit.author.email,
        merge_commit: commit.parents.len() > 1,
        message: trimmed(commit.commit.message),
        timestamp,
        files: commit.files.map_values(|file: GiteaCommitFileView| file.filename),
    }
}

/// Whether a listing stops before a commit: at the commit that it was told to
/// stop at, or, where it was told none, once it has as many as it may have.
pub open spec fn stops_before(
    depth: usize,
    sha: Option<Seq<char>>,
    taken: nat,
    commit: GiteaCommitQueryObjectView,
) -> bool {
    match sha {
        None => taken >= depth,
        Some(sha) => sha == commit.sha,
    }
}

/// The commits taken so far and one more, whose date is given where it could be
/// read; and whether the listing stops before it.
pub open spec fn taken_with(
    depth: usize,
    sha: Option<Seq<char>>,
    taken: Seq<ForgeCommitView>,
    commit: GiteaCommitQueryObjectView,
    date: Option<i64>,
) -> Result<(Seq<ForgeCommitView>, bool), ForgeErrorView> {
    if stops_before(depth, sha, taken.len(), commit) {
        Ok((taken, true))
    } else {
        match date {
            None => Err(ForgeErrorView::InvalidTimestamp),
            Some(timestamp) => Ok((taken.push(forge_commit(commit, timestamp)), false)),
        }
    }
}

/// The commits taken so far, and those that follow up to where the listing
/// stops; and whether it did stop.
pub open spec fn harvest(
    depth: usize,
    sha: Option<Seq<char>>,
    taken: Seq<ForgeCommitView>,
    commits: Seq<GiteaCommitQueryObjectView>,
) -> Result<(Seq<ForgeCommitView>, bool), ForgeErrorView>
    decreases commits.len(),
{
    if commits.len() == 0 {
        Ok((taken, false))
    } else {
        let date = rfc3339_seconds(commits.first().created);
        match taken_with(depth, sha, taken, commits.first(), date) {
            Ok((taken, false)) => harvest(depth, sha, taken, commits.drop_first()),
            end => end,
        }
    }
}

/// Copies the names of files.
fn file_names(files: &Vec<GiteaCommitFile>) -> (res: Vec<String>)
    ensures
        res.deep_view() == files.deep_view().map_values(
            |file: GiteaCommitFileView| file.filename,
        ),
{
    let mut names: Vec<String> = Vec::new();
    for i in 0..files.len()
        invariant
            names.len() == i,
            forall|j: int| 0 <= j < i ==> (#[trigger] names[j])@ == files[j].filename@,
    {
        names.push(files[i].filename.clone());
    }
    assert(names.deep_view() =~= files.deep_view().map_values(
        |file: GiteaCommitFileView| file.filename,
    ));
    names
}

/// Makes a commit of the history.
pub fn make_commit(commit: GiteaCommitQueryObject, timestamp: i64) -> (res: ForgeCommit)
    ensures
        res.deep_view() == forge_commit(commit.deep_view(), timestamp),
{
    ForgeCommit {
        short_id: take_chars(commit.sha.as_str(), 8),
        id: commit.sha,
        link: commit.html_url,
        author_name: commit.commit.author.name,
        author_email: commit.commit.author.email,
        merge_commit: commit.parents.len() > 1,
        message: commit.commit.message.as_str().trim().to_owned(),
        timestamp,
        files: file_names(&commit.files),
    }
}

/// Takes a commit, whose date has been read, unless the listing stops before it.
pub fn take_commit(
    depth: usize,
    sha: &Option<String>,
    taken: Vec<ForgeCommit>,
    commit: GiteaCommitQueryObject,
    date: Result<i64, chrono::ParseError>,
) -> (res: Result<(Vec<ForgeCommit>, bool), ForgeError>)
    ensures
        outcome(res) == taken_with(
            depth,
            sha.deep_view(),
            taken.deep_view(),
            commit.deep_view(),
            match date {
                Ok(timestamp) => Some(timestamp),
                Err(_) => None,
            },
        ),
{
    let stops = match sha {
        None => taken.len() >= depth,
        Some(sha) => same_text(sha.as_str(), commit.sha.as_str()),
    };
    if stops {
        return Ok((taken, true));
    }
    let timestamp = match date {
        Ok(timestamp) => timestamp,
        Err(error) => return Err(ForgeError::InvalidTimestamp(error)),
    };
    let ghost before = taken.deep_view();
    let mut taken = taken;
    let commit = make_commit(commit, timestamp);
    taken.push(commit);
    assert(taken.deep_view() =~= before.push(commit.deep_view()));
    Ok((taken, false))
}

/// Takes the commits up to where the listing stops.
fn take_commits(
    depth: usize,
    sha: &Option<String>,
    taken: Vec<ForgeCommit>,
    commits: Vec<GiteaCommitQueryObject>,
) -> (res: Result<(Vec<ForgeCommit>, bool), ForgeError>)
    ensures
        outcome(res) == harvest(depth, sha.deep_view(), taken.deep_view(), commits.deep_view()),
{
    let ghost all = commits.deep_view();
    let ghost whole = harvest(depth, sha.deep_view(), taken.deep_view(), all);
    let mut kept = taken;
    assert(all.skip(0) =~= all);
    for commit in it: commits
        invariant
            whole == harvest(depth, sha.deep_view(), taken.deep_view(), commits.deep_view()),
            it.seq().len() == all.len(),
            forall|j: int| 0 <= j < all.len() ==> all[j] == (#[trigger] it.seq()[j]).deep_view(),
            whole == harvest(
                depth,
                sha.deep_view(),
                kept.deep_view(),
                all.skip(it.index() as int),
            ),
    {
        let ghost i = it.index() as int;
        assert(all.skip(i).first() == commit.deep_view());
        assert(all.skip(i).drop_first() =~= all.skip(i + 1));
        let date = parse_rfc3339(commit.created.as_str());
        match take_commit(depth, sha, kept, commit, date) {
            Ok((more, false)) => {
                kept = more;
            },
            end => return end,
        }
    }
    Ok((kept, false))
}

/// A URL, where it came about, with one more pair in its query where the value
/// is given.
pub open spec fn with_optional_pair(
    url: Result<Seq<char>, ForgeErrorView>,
    name: Seq<char>,
    value: Option<Seq<char>>,
) -> Result<Seq<char>, ForgeErrorView> {
    match value {
        Some(value) => with_pair(url, name, value),
        None => url,
    }
}

/// Adds a pair to the query of a URL where the value is given.
fn add_optional_pair(
    url: Result<String, ForgeError>,
    name: &str,
    value: &Option<String>,
) -> (res: Result<String, ForgeError>)
    ensures
        outcome(res) == with_optional_pair(outcome(url), name@, value.deep_view()),
{
    match value {
        Some(value) => add_pair(url, name, value.as_str()),
        None => url,
    }
}

/// How many commits a page is asked to have.
pub open spec fn commit_page_size(g: GiteaView) -> usize {
    if (g.settings.page_size as usize) < g.settings.commit_search_depth {
        g.settings.page_size as usize
    } else {
        g.settings.commit_search_depth
    }
}

/// The request for the commit to stop at.
#[verifier::opaque]
pub open spec fn commit_request(g: GiteaView, sha: Seq<char>) -> Result<
    RequestView,
    ForgeErrorView,
> {
    request_to(
        Method::Get,
        g.endpoint("git/commits/"@ + sha),
        BodyView::Empty,
        Expect::Commit,
    )
}

/// The request for a page of the commits of a branch, those before the given
/// time left out.
#[verifier::opaque]
pub open spec fn commit_page_request(
    g: GiteaView,
    branch: Option<Seq<char>>,
    since: Option<Seq<char>>,
    page: u64,
) -> Result<RequestView, ForgeErrorView> {
    let url = with_pair(g.endpoint("commits"@), "limit"@, decimal(commit_page_size(g) as nat));
    let url = with_pair(url, "page"@, decimal(page as nat));
    let url = with_optional_pair(url, "sha"@, branch);
    let url = with_optional_pair(url, "since"@, since);
    request_to(Method::Get, url, BodyView::Empty, Expect::Commits)
}

impl CommitListingView {
    /// Asks for a page, with the commits of the pages before at hand.
    pub open spec fn ask(
        g: GiteaView,
        branch: Option<Seq<char>>,
        sha: Option<Seq<char>>,
        since: Option<Seq<char>>,
        page: u64,
        commits: Seq<ForgeCommitView>,
    ) -> Progress<CommitListingView, Seq<ForgeCommitView>> {
        sending(
            commit_page_request(g, branch, since, page),
            CommitListingView {
                branch,
                sha,
                stage: CommitStageView::Page { since, page, commits },
            },
        )
    }

    /// Asks for the commit to stop at, where there is one, else for the first
    /// page.
    pub open spec fn start(
        g: GiteaView,
        branch: Option<Seq<char>>,
        sha: Option<Seq<char>>,
    ) -> Progress<CommitListingView, Seq<ForgeCommitView>> {
        match sha {
            Some(stop) => sending(
                commit_request(g, stop),
                CommitListingView { branch, sha, stage: CommitStageView::Stop },
            ),
            None => CommitListingView::ask(g, branch, sha, None, 1, Seq::empty()),
        }
    }

    /// Goes on with the commits of the pages so far.
    pub open spec fn proceed(
        g: GiteaView,
        branch: Option<Seq<char>>,
        sha: Option<Seq<char>>,
        since: Option<Seq<char>>,
        page: u64,
        commits: Seq<ForgeCommitView>,
        goes_on: bool,
    ) -> Progress<CommitListingView, Seq<ForgeCommitView>> {
        if !goes_on {
            done(commits)
        } else {
            match next_page(page) {
                Err(error) => Err(error),
                Ok(page) => CommitListingView::ask(g, branch, sha, since, page, commits),
            }
        }
    }

    /// Reads a reply.
    pub open spec fn step(self, g: GiteaView, reply: ReplyView) -> Progress<
        CommitListingView,
        Seq<ForgeCommitView>,
    > {
        match self.stage {
            CommitStageView::Stop => match reply.commit() {
                Err(error) => Err(error),
                Ok(commit) => CommitListingView::ask(
                    g,
                    self.branch,
                    self.sha,
                    Some(commit.created),
                    1,
                    Seq::empty(),
                ),
            },
            CommitStageView::Page { since, page, commits } => match reply.commits() {
                Err(error) => Err(error),
                Ok(more) => match harvest(
                    g.settings.commit_search_depth,
                    self.sha,
                    commits,
                    more,
                ) {
                    Err(error) => Err(error),
                    Ok((commits, stopped)) => CommitListingView::proceed(
                        g,
                        self.branch,
                        self.sha,
                        since,
                        page,
                        commits,
                        reply.goes_on() && !stopped,
                    ),
                },
            },
        }
    }
}

impl CommitListing {
    fn ask(
        gitea: &Gitea,
        branch: Option<String>,
        sha: Option<String>,
        since: Option<String>,
        page: u64,
        commits: Vec<ForgeCommit>,
    ) -> (res: Result<Flow<CommitListing, Vec<ForgeCommit>>, ForgeError>)
        ensures
            outcome(res) == CommitListingView::ask(
                gitea@,
                branch.deep_view(),
                sha.deep_view(),
                since.deep_view(),
                page,
                commits.deep_view(),
            ),
    {
        proof {
            reveal(commit_page_request);
        }
        let page_size: usize = gitea.settings().page_size as usize;
        let depth: usize = gitea.settings().commit_search_depth;
        let limit: usize = if page_size < depth { page_size } else { depth };
        let url = gitea.endpoint("commits");
        let url = add_pair(url, "limit", decimal_text(limit as u64).as_str());
        let url = add_pair(url, "page", decimal_text(page).as_str());
        let url = add_optional_pair(url, "sha", &branch);
        let url = add_optional_pair(url, "since", &since);
        let request = make_request(Method::Get, url, Body::Empty, Expect::Commits);
        let stage = CommitStage::Page { since, page, commits };
        send(request, CommitListing { branch, sha, stage })
    }

    /// Reads a reply.
    pub fn on_reply(self, gitea: &Gitea, reply: Reply) -> (res: Result<
        Flow<CommitListing, Vec<ForgeCommit>>,
        ForgeError,
    >)
        ensures
            outcome(res) == self@.step(gitea@, reply.deep_view()),
    {
        let CommitListing { branch, sha, stage } = self;
        match stage {
            CommitStage::Stop => match reply.commit() {
                Ok(commit) => {
                    let commits: Vec<ForgeCommit> = Vec::new();
                    assert(commits.deep_view() =~= Seq::empty());
                    CommitListing::ask(gitea, branch, sha, Some(commit.created), 1, commits)
                },
                Err(error) => Err(error),
            },
            CommitStage::Page { since, page, commits } => {
                let goes_on = reply.goes_on();
                let more = match reply.commits() {
                    Ok(more) => more,
                    Err(error) => return Err(error),
                };
                let depth: usize = gitea.settings().commit_search_depth;
                let (commits, stopped) = match take_commits(depth, &sha, commits, more) {
                    Ok(taken) => taken,
                    Err(error) => return Err(error),
                };
                if !goes_on || stopped {
                    return Ok(Flow::Done(commits));
                }
                match turn_page(page) {
                    Ok(page) => CommitListing::ask(gitea, branch, sha, since, page, commits),
                    Err(error) => Err(error),
                }
            },
        }
    }
}

impl Gitea {
    /// Starts a listing of the commits of a branch, or of the default branch
    /// where none is given: those behind the given commit, or, where none is
    /// given, the latest ones up to the search depth.
    pub fn get_commits(&self, branch: Option<String>, sha: Option<String>) -> (res: Result<
        Flow<CommitListing, Vec<ForgeCommit>>,
        ForgeError,
    >)
        ensures
            outcome(res) == CommitListingView::start(self@, branch.deep_view(), sha.deep_view()),
    {
        match sha {
            Some(stop) => {
                proof {
                    reveal(commit_request);
                }
                let url = self.endpoint(concat("git/commits/", stop.as_str()).as_str());
                let request = make_request(Method::Get, url, Body::Empty, Expect::Commit);
                send(request, CommitListing { branch, sha: Some(stop), stage: CommitStage::Stop })
            },
            None => {
                let commits: Vec<ForgeCommit> = Vec::new();
                assert(commits.deep_view() =~= Seq::empty());
                CommitListing::ask(self, branch, None, None, 1, commits)
            },
        }
    }
}

} // verus!

//! The search for the release pull request of a branch.

use vstd::prelude::*;

use crate::error::{outcome, ForgeError, ForgeErrorView};
use crate::gitea::{add_pair, with_pair, Gitea, GiteaView};
use crate::http::{
    done, make_request, request_to, send, sending, Body, BodyView, Expect, Flow, FlowView, Method,
    Progress, Reply, ReplyView, RequestView,
};
use crate::labels::{find_label, label_named, next_page, turn_page, LabelListing, LabelListingView};
use crate::text::{concat, decimal, decimal_text, same_text};
use crate::types::{GetPrRequest, PullRequest, PullRequestView};
use crate::wire::{GiteaPullRequest, GiteaPullRequestView, Label, LabelView};

verus! {

/// Which pull requests are searched.
#[derive(Clone, Copy, Debug, PartialEq, Eq, Structural)]
pub enum PullKind {
    /// The open ones.
    Open,
    /// The merged ones.
    Merged,
}

impl DeepView for PullKind {
    type V = PullKind;

    open spec fn deep_view(&self) -> PullKind {
        *self
    }
}

/// A search for the release pull request of a branch.
#[derive(Debug)]
pub struct PullSearch {
    kind: PullKind,
    head_branch: String,
    stage: PullStage,
}

/// What a search waits for.
#[derive(Debug)]
pub enum PullStage {
    /// A page of labels.
    Labels(LabelListing),
    /// A page of pull requests.
    Pulls {
        /// The label that is searched.
        label: u64,
        /// The labels to be searched where this one has nothing.
        later: Vec<u64>,
        /// The page that was asked for.
        page: u64,
        /// What the pages before had for the branch.
        found: Vec<PullRequest>,
    },
}

/// The value of a [`PullSearch`].
#[verifier::ext_equal]
pub struct PullSearchView {
    pub kind: PullKind,
    pub head_branch: Seq<char>,
    pub stage: PullStageView,
}

/// The value of a [`PullStage`].
#[verifier::ext_equal]
pub enum PullStageView {
    Labels(LabelListingView),
    Pulls { label: u64, later: Seq<u64>, page: u64, found: Seq<PullRequestView> },
}

impl DeepView for PullStage {
    type V = PullStageView;

    open spec fn deep_view(&self) -> PullStageView {
        match self {
            PullStage::Labels(listing) => PullStageView::Labels(listing@),
            PullStage::Pulls { label, later, page, found } => PullStageView::Pulls {
                label: *label,
                later: later@,
                page: *page,
                found: found.deep_view(),
            },
        }
    }
}

impl View for PullSearch {
    type V = PullSearchView;

    closed spec fn view(&self) -> PullSearchView {
        PullSearchView {
            kind: self.kind,
            head_branch: self.head_branch@,
            stage: self.stage.deep_view(),
        }
    }
}

impl DeepView for PullSearch {
    type V = PullSearchView;

    open spec fn deep_view(&self) -> PullSearchView {
        self@
    }
}

/// The pull request, if it is of the given kind and brings the branch in; a
/// merged one must have a merge commit.
pub open spec fn candidate(
    kind: PullKind,
    head_branch: Seq<char>,
    pull: GiteaPullRequestView,
) -> Result<Option<PullRequestView>, ForgeErrorView> {
    if pull.head.label != head_branch {
        Ok(None)
    } else {
        match kind {
            PullKind::Open => Ok(
                Some(
                    PullRequestView { number: pull.number, sha: pull.head.sha, body: pull.body },
                ),
            ),
            PullKind::Merged => if !pull.merged {
                Ok(None)
            } else {
                match pull.merge_commit_sha {
                    Some(sha) => Ok(
                        Some(PullRequestView { number: pull.number, sha, body: pull.body }),
                    ),
                    None => Err(
                        ForgeErrorView::Forge(
                            "no merge_commit_sha found for pr "@ + decimal(pull.number as nat),
                        ),
                    ),
                }
            },
        }
    }
}

/// The candidates among pull requests, in their order, or the first error.
pub open spec fn candidates(
    kind: PullKind,
    head_branch: Seq<char>,
    pulls: Seq<GiteaPullRequestView>,
) -> Result<Seq<PullRequestView>, ForgeErrorView>
    decreases pulls.len(),
{
    if pulls.len() == 0 {
        Ok(Seq::empty())
    } else {
        match (
            candidates(kind, head_branch, pulls.drop_last()),
            candidate(kind, head_branch, pulls.last()),
        ) {
            (Err(error), _) => Err(error),
            (Ok(_), Err(error)) => Err(error),
            (Ok(found), Ok(None)) => Ok(found),
            (Ok(found), Ok(Some(pull))) => Ok(found.push(pull)),
        }
    }
}

/// Reads a pull request as a candidate.
fn read_candidate(kind: PullKind, head_branch: &str, pull: GiteaPullRequest) -> (res: Result<
    Option<PullRequest>,
    ForgeError,
>)
    ensures
        outcome(res) == candidate(kind, head_branch@, pull.deep_view()),
{
    if !same_text(pull.head.label.as_str(), head_branch) {
        return Ok(None);
    }
    match kind {
        PullKind::Open => Ok(
            Some(PullRequest { number: pull.number, sha: pull.head.sha, body: pull.body }),
        ),
        PullKind::Merged => if !pull.merged {
            Ok(None)
        } else {
            match pull.merge_commit_sha {
                Some(sha) => Ok(Some(PullRequest { number: pull.number, sha, body: pull.body })),
                None => {
                    let number = decimal_text(pull.number);
                    Err(
                        ForgeError::Forge(
                            concat("no merge_commit_sha found for pr ", number.as_str()),
                        ),
                    )
                },
            }
        },
    }
}

/// Reads the candidates among pull requests.
fn read_candidates(kind: PullKind, head_branch: &str, pulls: Vec<GiteaPullRequest>) -> (res: Result<
    Vec<PullRequest>,
    ForgeError,
>)
    ensures
        outcome(res) == candidates(kind, head_branch@, pulls.deep_view()),
{
    let ghost all = pulls.deep_view();
    let mut found: Vec<PullRequest> = Vec::new();
    assert(found.deep_view() =~= Seq::empty());
    for pull in it: pulls
        invariant
            all == pulls.deep_view(),
            it.seq().len() == all.len(),
            forall|j: int| 0 <= j < all.len() ==> all[j] == (#[trigger] it.seq()[j]).deep_view(),
            candidates(kind, head_branch@, all.take(it.index() as int)) == Ok::<_, ForgeErrorView>(
                found.deep_view(),
            ),
    {
        let ghost i = it.index() as int;
        assert(all.take(i + 1).drop_last() =~= all.take(i));
        assert(all.take(i + 1).last() == pull.deep_view());
        match read_candidate(kind, head_branch, pull) {
            Ok(Some(pull)) => {
                let ghost before = found.deep_view();
                found.push(pull);
                assert(found.deep_view() =~= before.push(pull.deep_view()));
            },
            Ok(None) => {},
            Err(error) => {
                proof {
                    candidates_error(kind, head_branch@, all, i + 1);
                }
                return Err(error);
            },
        }
    }
    assert(all.take(all.len() as int) =~= all);
    Ok(found)
}

/// An error among the first pull requests is an error of all.
proof fn candidates_error(
    kind: PullKind,
    head_branch: Seq<char>,
    pulls: Seq<GiteaPullRequestView>,
    n: int,
)
    requires
        0 <= n <= pulls.len(),
        candidates(kind, head_branch, pulls.take(n)) is Err,
    ensures
        candidates(kind, head_branch, pulls) == candidates(kind, head_branch, pulls.take(n)),
    decreases pulls.len(),
{
    if n == pulls.len() {
        assert(pulls.take(n) =~= pulls);
    } else {
        assert(pulls.drop_last().take(n) =~= pulls.take(n));
        candidates_error(kind, head_branch, pulls.drop_last(), n);
    }
}

/// The numbers of the labels that a release pull request waits with: that of
/// the present name, then that of the legacy name, as far as there are such
/// labels.
pub open spec fn pending_labels(g: GiteaView, labels: Seq<LabelView>) -> Seq<u64> {
    let present = match label_named(labels, g.settings.pending_label) {
        Some(id) => seq![id],
        None => Seq::empty(),
    };
    match label_named(labels, g.settings.legacy_pending_label) {
        Some(id) => present.push(id),
        None => present,
    }
}

/// Finds the numbers of the labels that a release pull request waits with.
fn find_pending_labels(gitea: &Gitea, labels: &Vec<Label>) -> (res: Vec<u64>)
    ensures
        res@ == pending_labels(gitea@, labels.deep_view()),
{
    let mut ids: Vec<u64> = Vec::new();
    if let Some(id) = find_label(labels, gitea.settings().pending_label.as_str()) {
        ids.push(id);
        assert(ids@ =~= seq![id]);
    }
    if let Some(id) = find_label(labels, gitea.settings().legacy_pending_label.as_str()) {
        ids.push(id);
    }
    ids
}

/// The error that a branch has more than one release pull request.
pub open spec fn ambiguous(g: GiteaView, kind: PullKind, head_branch: Seq<char>) -> Seq<char> {
    match kind {
        PullKind::Open => "Found more than one open release PR with pending label for branch "@
            + head_branch,
        PullKind::Merged => "Found more than one closed release PR with pending label for branch "@
            + head_branch
            + ". This means either release PRs were closed manually or releasaurus failed to remove tags. You must remove the "@
            + g.settings.pending_label
            + " label from all closed release PRs except for the most recent."@,
    }
}

/// Words the error that a branch has more than one release pull request.
fn ambiguous_text(gitea: &Gitea, kind: PullKind, head_branch: &str) -> (res: String)
    ensures
        res@ == ambiguous(gitea@, kind, head_branch@),
{
    match kind {
        PullKind::Open => concat(
            "Found more than one open release PR with pending label for branch ",
            head_branch,
        ),
        PullKind::Merged => {
            let mut text = concat(
                "Found more than one closed release PR with pending label for branch ",
                head_branch,
            );
            text.append(
                ". This means either release PRs were closed manually or releasaurus failed to remove tags. You must remove the ",
            );
            text.append(gitea.settings().pending_label.as_str());
            text.append(" label from all closed release PRs except for the most recent.");
            text
        },
    }
}

/// The one pull request that was found, if there is one; more than one is an
/// error.
pub open spec fn the_one(
    g: GiteaView,
    kind: PullKind,
    head_branch: Seq<char>,
    found: Seq<PullRequestView>,
) -> Result<Option<PullRequestView>, ForgeErrorView> {
    if found.len() == 0 {
        Ok(None)
    } else if found.len() == 1 {
        Ok(Some(found[0]))
    } else {
        Err(ForgeErrorView::Forge(ambiguous(g, kind, head_branch)))
    }
}

/// The request for a page of the pull requests with a label.
#[verifier::opaque]
pub open spec fn pull_page_request(g: GiteaView, kind: PullKind, label: u64, page: u64) -> Result<
    RequestView,
    ForgeErrorView,
> {
    let state = match kind {
        PullKind::Open => "open"@,
        PullKind::Merged => "closed"@,
    };
    let url = with_pair(g.endpoint("pulls"@), "state"@, state);
    let url = with_pair(url, "labels"@, decimal(label as nat));
    let url = with_pair(url, "limit"@, decimal(g.settings.page_size as nat));
    let url = with_pair(url, "page"@, decimal(page as nat));
    request_to(Method::Get, url, BodyView::Empty, Expect::Pulls)
}

impl PullSearchView {
    /// Waits for a page of labels, or goes on to the pull requests.
    pub open spec fn on_labels(
        g: GiteaView,
        kind: PullKind,
        head_branch: Seq<char>,
        listing: Progress<LabelListingView, Seq<LabelView>>,
    ) -> Progress<PullSearchView, Option<PullRequestView>> {
        match listing {
            Err(error) => Err(error),
            Ok(FlowView::Send(request, listing)) => Ok(
                FlowView::Send(
                    request,
                    PullSearchView { kind, head_branch, stage: PullStageView::Labels(listing) },
                ),
            ),
            Ok(FlowView::Done(labels)) => PullSearchView::search(
                g,
                kind,
                head_branch,
                pending_labels(g, labels),
            ),
        }
    }

    /// Searches the labels one after the other; without a label there is nothing
    /// to be found.
    pub open spec fn search(
        g: GiteaView,
        kind: PullKind,
        head_branch: Seq<char>,
        labels: Seq<u64>,
    ) -> Progress<PullSearchView, Option<PullRequestView>> {
        if labels.len() == 0 {
            done(None)
        } else {
            PullSearchView::ask(
                g,
                kind,
                head_branch,
                labels.first(),
                labels.drop_first(),
                1,
                Seq::empty(),
            )
        }
    }

    /// Asks for a page of the pull requests with a label.
    pub open spec fn ask(
        g: GiteaView,
        kind: PullKind,
        head_branch: Seq<char>,
        label: u64,
        later: Seq<u64>,
        page: u64,
        found: Seq<PullRequestView>,
    ) -> Progress<PullSearchView, Option<PullRequestView>> {
        sending(
            pull_page_request(g, kind, label, page),
            PullSearchView {
                kind,
                head_branch,
                stage: PullStageView::Pulls { label, later, page, found },
            },
        )
    }

    /// Asks for the labels first.
    pub open spec fn start(g: GiteaView, kind: PullKind, head_branch: Seq<char>) -> Progress<
        PullSearchView,
        Option<PullRequestView>,
    > {
        PullSearchView::on_labels(g, kind, head_branch, LabelListingView::start(g))
    }

    /// Goes on with what the pages of a label had so far. The next page of that
    /// label comes first; the labels behind it are searched only where nothing
    /// was found.
    pub open spec fn proceed(
        g: GiteaView,
        kind: PullKind,
        head_branch: Seq<char>,
        label: u64,
        later: Seq<u64>,
        page: u64,
        found: Seq<PullRequestView>,
        goes_on: bool,
    ) -> Progress<PullSearchView, Option<PullRequestView>> {
        if goes_on {
            match next_page(page) {
                Err(error) => Err(error),
                Ok(page) => PullSearchView::ask(g, kind, head_branch, label, later, page, found),
            }
        } else if found.len() == 0 {
            PullSearchView::search(g, kind, head_branch, later)
        } else {
            match the_one(g, kind, head_branch, found) {
                Err(error) => Err(error),
                Ok(pull) => done(pull),
            }
        }
    }

    /// Reads a page.
    pub open spec fn step(self, g: GiteaView, reply: ReplyView) -> Progress<
        PullSearchView,
        Option<PullRequestView>,
    > {
        match self.stage {
            PullStageView::Labels(listing) => PullSearchView::on_labels(
                g,
                self.kind,
                self.head_branch,
                listing.step(g, reply),
            ),
            PullStageView::Pulls { label, later, page, found } => match reply.pulls() {
                Err(error) => Err(error),
                Ok(pulls) => match candidates(self.kind, self.head_branch, pulls) {
                    Err(error) => Err(error),
                    Ok(more) => PullSearchView::proceed(
                        g,
                        self.kind,
                        self.head_branch,
                        label,
                        later,
                        page,
                        found + more,
                        reply.goes_on(),
                    ),
                },
            },
        }
    }
}

impl PullSearch {
    fn on_labels(
        gitea: &Gitea,
        kind: PullKind,
        head_branch: String,
        listing: Result<Flow<LabelListing, Vec<Label>>, ForgeError>,
    ) -> (res: Result<Flow<PullSearch, Option<PullRequest>>, ForgeError>)
        ensures
            outcome(res) == PullSearchView::on_labels(
                gitea@,
                kind,
                head_branch@,
                outcome(listing),
            ),
    {
        match listing {
            Err(error) => Err(error),
            Ok(Flow::Send(request, listing)) => Ok(
                Flow::Send(
                    request,
                    PullSearch { kind, head_branch, stage: PullStage::Labels(listing) },
                ),
            ),
            Ok(Flow::Done(labels)) => PullSearch::search(
                gitea,
                kind,
                head_branch,
                find_pending_labels(gitea, &labels),
            ),
        }
    }

    fn search(gitea: &Gitea, kind: PullKind, head_branch: String, labels: Vec<u64>) -> (res: Result<
        Flow<PullSearch, Option<PullRequest>>,
        ForgeError,
    >)
        ensures
            outcome(res) == PullSearchView::search(gitea@, kind, head_branch@, labels@),
    {
        if labels.len() == 0 {
            return Ok(Flow::Done(None));
        }
        let found: Vec<PullRequest> = Vec::new();
        assert(found.deep_view() =~= Seq::empty());
        let mut later = labels;
        let label = later.remove(0);
        assert(later@ =~= labels@.drop_first());
        PullSearch::ask(gitea, kind, head_branch, label, later, 1, found)
    }

    fn ask(
        gitea: &Gitea,
        kind: PullKind,
        head_branch: String,
        label: u64,
        later: Vec<u64>,
        page: u64,
        found: Vec<PullRequest>,
    ) -> (res: Result<Flow<PullSearch, Option<PullRequest>>, ForgeError>)
        ensures
            outcome(res) == PullSearchView::ask(
                gitea@,
                kind,
                head_branch@,
                label,
                later@,
                page,
                found.deep_view(),
            ),
    {
        proof {
            reveal(pull_page_request);
        }
        let state = match kind {
            PullKind::Open => "open",
            PullKind::Merged => "closed",
        };
        let url = add_pair(gitea.endpoint("pulls"), "state", state);
        let url = add_pair(url, "labels", decimal_text(label).as_str());
        let limit = decimal_text(gitea.settings().page_size as u64);
        let url = add_pair(url, "limit", limit.as_str());
        let url = add_pair(url, "page", decimal_text(page).as_str());
        let request = make_request(Method::Get, url, Body::Empty, Expect::Pulls);
        let stage = PullStage::Pulls { label, later, page, found };
        send(request, PullSearch { kind, head_branch, stage })
    }

    fn proceed(
        gitea: &Gitea,
        kind: PullKind,
        head_branch: String,
        label: u64,
        later: Vec<u64>,
        page: u64,
        found: Vec<PullRequest>,
        goes_on: bool,
    ) -> (res: Result<Flow<PullSearch, Option<PullRequest>>, ForgeError>)
        ensures
            outcome(res) == PullSearchView::proceed(
                gitea@,
                kind,
                head_branch@,
                label,
                later@,
                page,
                found.deep_view(),
                goes_on,
            ),
    {
        if goes_on {
            return match turn_page(page) {
                Ok(page) => PullSearch::ask(gitea, kind, head_branch, label, later, page, found),
                Err(error) => Err(error),
            };
        }
        if found.len() > 1 {
            return Err(ForgeError::Forge(ambiguous_text(gitea, kind, head_branch.as_str())));
        }
        let mut found = found;
        match found.pop() {
            Some(pull) => Ok(Flow::Done(Some(pull))),
            None => PullSearch::search(gitea, kind, head_branch, later),
        }
    }

    /// Starts a search for the release pull request of a branch.
    pub(crate) fn start(gitea: &Gitea, kind: PullKind, head_branch: String) -> (res: Result<
        Flow<PullSearch, Option<PullRequest>>,
        ForgeError,
    >)
        ensures
            outcome(res) == PullSearchView::start(gitea@, kind, head_branch@),
    {
        PullSearch::on_labels(gitea, kind, head_branch, gitea.get_all_labels())
    }

    /// Reads a page.
    pub fn on_reply(self, gitea: &Gitea, reply: Reply) -> (res: Result<
        Flow<PullSearch, Option<PullRequest>>,
        ForgeError,
    >)
        ensures
            outcome(res) == self@.step(gitea@, reply.deep_view()),
    {
        let PullSearch { kind, head_branch, stage } = self;
        match stage {
            PullStage::Labels(listing) => PullSearch::on_labels(
                gitea,
                kind,
                head_branch,
                listing.on_reply(gitea, reply),
            ),
            PullStage::Pulls { label, later, page, found } => {
                let goes_on = reply.goes_on();
                let pulls = match reply.pulls() {
                    Ok(pulls) => pulls,
                    Err(error) => return Err(error),
                };
                let mut more = match read_candidates(kind, head_branch.as_str(), pulls) {
                    Ok(more) => more,
                    Err(error) => return Err(error),
                };
                let ghost more_view = more.deep_view();
                let ghost found_view = found.deep_view();
                let mut found = found;
                found.append(&mut more);
                assert(found.deep_view() =~= found_view + more_view);
                PullSearch::proceed(gitea, kind, head_branch, label, later, page, found, goes_on)
            },
        }
    }
}

impl Gitea {
    /// Starts the search for the open release pull request of a branch.
    pub fn get_open_release_pr(&self, req: GetPrRequest) -> (res: Result<
        Flow<PullSearch, Option<PullRequest>>,
        ForgeError,
    >)
        ensures
            outcome(res) == PullSearchView::start(self@, PullKind::Open, req.head_branch@),
    {
        PullSearch::start(self, PullKind::Open, req.head_branch)
    }

    /// Starts the search for the merged release pull request of a branch.
    pub fn get_merged_release_pr(&self, req: GetPrRequest) -> (res: Result<
        Flow<PullSearch, Option<PullRequest>>,
        ForgeError,
    >)
        ensures
            outcome(res) == PullSearchView::start(self@, PullKind::Merged, req.head_branch@),
    {
        PullSearch::start(self, PullKind::Merged, req.head_branch)
    }
}

} // verus!

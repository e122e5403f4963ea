//! New pull requests, and changes to those that are there.

use vstd::prelude::*;

use crate::error::{outcome, ForgeError, ForgeErrorView};
use crate::gitea::{Gitea, GiteaView};
use crate::http::{
    accepted, done, error_for_status, make_request, request_to, send, sending, Body, BodyView,
    Expect, Flow, FlowView, Method, Progress, Reply, ReplyView, Request, RequestView,
};
use crate::labels::{find_label, label_named, LabelListing, LabelListingView};
use crate::text::{concat, decimal, decimal_text};
use crate::types::{
    CreatePrRequest, CreatePrRequestView, PrLabelsRequest, PrLabelsRequestView, PullRequest,
    PullRequestView, UpdatePrRequest, UpdatePrRequestView,
};
use crate::wire::{
    CreatePull, CreatePullView, Label, LabelView, UpdatePullBody, UpdatePullBodyView,
    UpdatePullLabels, UpdatePullLabelsView,
};

verus! {

impl GiteaView {
    /// The request for a new pull request.
    pub open spec fn create_pr(self, req: CreatePrRequestView) -> Result<
        RequestView,
        ForgeErrorView,
    > {
        request_to(
            Method::Post,
            self.endpoint("pulls"@),
            BodyView::CreatePull(
                CreatePullView {
                    title: req.title,
                    body: req.body,
                    head: req.head_branch,
                    base: req.base_branch,
                },
            ),
            Expect::Pull,
        )
    }

    /// The request for a new title and body of a pull request.
    pub open spec fn update_pr(self, req: UpdatePrRequestView) -> Result<
        RequestView,
        ForgeErrorView,
    > {
        request_to(
            Method::Patch,
            self.endpoint("pulls/"@ + decimal(req.pr_number as nat)),
            BodyView::UpdatePullBody(UpdatePullBodyView { title: req.title, body: req.body }),
            Expect::Nothing,
        )
    }

    /// The request that replaces the labels of a pull request.
    #[verifier::opaque]
    pub open spec fn set_pr_labels(self, pr_number: u64, labels: Seq<u64>) -> Result<
        RequestView,
        ForgeErrorView,
    > {
        request_to(
            Method::Put,
            self.endpoint("issues/"@ + decimal(pr_number as nat) + "/labels"@),
            BodyView::UpdatePullLabels(UpdatePullLabelsView { labels }),
            Expect::Nothing,
        )
    }
}

impl ReplyView {
    /// The pull request that was made.
    pub open spec fn created_pr(self) -> Result<PullRequestView, ForgeErrorView> {
        match self.pull() {
            Err(error) => Err(error),
            Ok(pull) => Ok(
                PullRequestView { number: pull.number, sha: pull.head.sha, body: pull.body },
            ),
        }
    }
}

impl Reply {
    /// Reads the pull request that was made.
    pub fn created_pr(self) -> (res: Result<PullRequest, ForgeError>)
        ensures
            outcome(res) == self.deep_view().created_pr(),
    {
        match self.pull() {
            Err(error) => Err(error),
            Ok(pull) => Ok(
                PullRequest { number: pull.number, sha: pull.head.sha, body: pull.body },
            ),
        }
    }
}

impl Gitea {
    /// Asks for a new pull request.
    pub fn create_pr(&self, req: CreatePrRequest) -> (res: Result<Request, ForgeError>)
        ensures
            outcome(res) == self@.create_pr(req.deep_view()),
    {
        let body = CreatePull {
            title: req.title,
            body: req.body,
            head: req.head_branch,
            base: req.base_branch,
        };
        make_request(Method::Post, self.endpoint("pulls"), Body::CreatePull(body), Expect::Pull)
    }

    /// Asks for a new title and body of a pull request.
    pub fn update_pr(&self, req: UpdatePrRequest) -> (res: Result<Request, ForgeError>)
        ensures
            outcome(res) == self@.update_pr(req.deep_view()),
    {
        let body = UpdatePullBody { title: req.title, body: req.body };
        let number = decimal_text(req.pr_number);
        make_request(
            Method::Patch,
            self.endpoint(concat("pulls/", number.as_str()).as_str()),
            Body::UpdatePullBody(body),
            Expect::Nothing,
        )
    }

    fn set_pr_labels(&self, pr_number: u64, labels: Vec<u64>) -> (res: Result<Request, ForgeError>)
        ensures
            outcome(res) == self@.set_pr_labels(pr_number, labels@),
    {
        proof {
            reveal(GiteaView::set_pr_labels);
        }
        assert(labels.deep_view() =~= labels@);
        let mut reference = concat("issues/", decimal_text(pr_number).as_str());
        reference.append("/labels");
        make_request(
            Method::Put,
            self.endpoint(reference.as_str()),
            Body::UpdatePullLabels(UpdatePullLabels { labels }),
            Expect::Nothing,
        )
    }
}

/// New labels that a pull request is being given.
#[derive(Debug)]
pub struct LabelReplacement {
    pr_number: u64,
    stage: LabelReplacementStage,
}

/// What new labels wait for.
#[derive(Debug)]
pub enum LabelReplacementStage {
    /// A page of the labels that are there.
    Labels(LabelListing, Vec<String>),
    /// A label that was not there.
    Creation {
        /// The labels that were there at the start.
        all: Vec<Label>,
        /// The numbers of the new labels before.
        labels: Vec<u64>,
        /// The names behind.
        later: Vec<String>,
    },
    /// The pull request.
    Replacement,
}

/// The value of a [`LabelReplacement`].
#[verifier::ext_equal]
pub struct LabelReplacementView {
    pub pr_number: u64,
    pub stage: LabelReplacementStageView,
}

/// The value of a [`LabelReplacementStage`].
#[verifier::ext_equal]
pub enum LabelReplacementStageView {
    Labels(LabelListingView, Seq<Seq<char>>),
    Creation { all: Seq<LabelView>, labels: Seq<u64>, later: Seq<Seq<char>> },
    Replacement,
}

impl DeepView for LabelReplacementStage {
    type V = LabelReplacementStageView;

    open spec fn deep_view(&self) -> LabelReplacementStageView {
        match self {
            LabelReplacementStage::Labels(listing, names) => LabelReplacementStageView::Labels(
                listing@,
                names.deep_view(),
            ),
            LabelReplacementStage::Creation { all, labels, later } => {
                LabelReplacementStageView::Creation {
                    all: all.deep_view(),
                    labels: labels@,
                    later: later.deep_view(),
                }
            },
            LabelReplacementStage::Replacement => LabelReplacementStageView::Replacement,
        }
    }
}

impl View for LabelReplacement {
    type V = LabelReplacementView;

    closed spec fn view(&self) -> LabelReplacementView {
        LabelReplacementView { pr_number: self.pr_number, stage: self.stage.deep_view() }
    }
}

impl DeepView for LabelReplacement {
    type V = LabelReplacementView;

    open spec fn deep_view(&self) -> LabelReplacementView {
        self@
    }
}

/// The numbers so far and those of the names up to the first without a label;
/// and the names from there on.
pub open spec fn numbered(all: Seq<LabelView>, labels: Seq<u64>, names: Seq<Seq<char>>) -> (
    Seq<u64>,
    Seq<Seq<char>>,
)
    decreases names.len(),
{
    if names.len() == 0 {
        (labels, names)
    } else {
        match label_named(all, names.first()) {
            Some(id) => numbered(all, labels.push(id), names.drop_first()),
            None => (labels, names),
        }
    }
}

/// Numbers the names up to the first without a label.
fn number_names(all: &Vec<Label>, labels: &mut Vec<u64>, names: &mut Vec<String>)
    ensures
        (final(labels)@, final(names).deep_view()) == numbered(
            all.deep_view(),
            old(labels)@,
            old(names).deep_view(),
        ),
{
    let ghost whole = numbered(all.deep_view(), labels@, names.deep_view());
    while names.len() > 0
        invariant
            whole == numbered(all.deep_view(), old(labels)@, old(names).deep_view()),
            whole == numbered(all.deep_view(), labels@, names.deep_view()),
        decreases names.len(),
    {
        let ghost before = names.deep_view();
        assert(before.first() == names[0]@);
        match find_label(all, names[0].as_str()) {
            Some(id) => {
                labels.push(id);
                names.remove(0);
                assert(names.deep_view() =~= before.drop_first());
            },
            None => return,
        }
    }
}

impl LabelReplacementView {
    /// Numbers the names, asks for the first label that is missing, and in the
    /// end replaces the labels of the pull request.
    pub open spec fn proceed(
        g: GiteaView,
        pr_number: u64,
        all: Seq<LabelView>,
        labels: Seq<u64>,
        names: Seq<Seq<char>>,
    ) -> Progress<LabelReplacementView, ()> {
        let (labels, names) = numbered(all, labels, names);
        if names.len() == 0 {
            sending(
                g.set_pr_labels(pr_number, labels),
                LabelReplacementView { pr_number, stage: LabelReplacementStageView::Replacement },
            )
        } else {
            sending(
                g.create_label(names.first()),
                LabelReplacementView {
                    pr_number,
                    stage: LabelReplacementStageView::Creation {
                        all,
                        labels,
                        later: names.drop_first(),
                    },
                },
            )
        }
    }

    /// Waits for a page of labels, or goes on to the names.
    pub open spec fn on_labels(
        g: GiteaView,
        pr_number: u64,
        names: Seq<Seq<char>>,
        listing: Progress<LabelListingView, Seq<LabelView>>,
    ) -> Progress<LabelReplacementView, ()> {
        match listing {
            Err(error) => Err(error),
            Ok(FlowView::Send(request, listing)) => Ok(
                FlowView::Send(
                    request,
                    LabelReplacementView {
                        pr_number,
                        stage: LabelReplacementStageView::Labels(listing, names),
                    },
                ),
            ),
            Ok(FlowView::Done(all)) => LabelReplacementView::proceed(
                g,
                pr_number,
                all,
                Seq::empty(),
                names,
            ),
        }
    }

    /// Asks for the labels that are there.
    pub open spec fn start(g: GiteaView, req: PrLabelsRequestView) -> Progress<
        LabelReplacementView,
        (),
    > {
        LabelReplacementView::on_labels(g, req.pr_number, req.labels, LabelListingView::start(g))
    }

    /// Reads a reply.
    pub open spec fn step(self, g: GiteaView, reply: ReplyView) -> Progress<
        LabelReplacementView,
        (),
    > {
        match self.stage {
            LabelReplacementStageView::Labels(listing, names) => LabelReplacementView::on_labels(
                g,
                self.pr_number,
                names,
                listing.step(g, reply),
            ),
            LabelReplacementStageView::Creation { all, labels, later } => match reply.label() {
                Err(error) => Err(error),
                Ok(label) => LabelReplacementView::proceed(
                    g,
                    self.pr_number,
                    all,
                    labels.push(label.id),
                    later,
                ),
            },
            LabelReplacementStageView::Replacement => match accepted(reply.status) {
                Err(error) => Err(error),
                Ok(_) => done(()),
            },
        }
    }
}

impl LabelReplacement {
    fn proceed(
        gitea: &Gitea,
        pr_number: u64,
        all: Vec<Label>,
        labels: Vec<u64>,
        names: Vec<String>,
    ) -> (res: Result<Flow<LabelReplacement, ()>, ForgeError>)
        ensures
            outcome(res) == LabelReplacementView::proceed(
                gitea@,
                pr_number,
                all.deep_view(),
                labels@,
                names.deep_view(),
            ),
    {
        let mut labels = labels;
        let mut later = names;
        number_names(&all, &mut labels, &mut later);
        if later.len() == 0 {
            let request = gitea.set_pr_labels(pr_number, labels);
            let stage = LabelReplacementStage::Replacement;
            return send(request, LabelReplacement { pr_number, stage });
        }
        let ghost before = later.deep_view();
        let name = later.remove(0);
        assert(name@ == before.first());
        assert(later.deep_view() =~= before.drop_first());
        let stage = LabelReplacementStage::Creation { all, labels, later };
        send(gitea.create_label(name), LabelReplacement { pr_number, stage })
    }

    fn on_labels(
        gitea: &Gitea,
        pr_number: u64,
        names: Vec<String>,
        listing: Result<Flow<LabelListing, Vec<Label>>, ForgeError>,
    ) -> (res: Result<Flow<LabelReplacement, ()>, ForgeError>)
        ensures
            outcome(res) == LabelReplacementView::on_labels(
                gitea@,
                pr_number,
                names.deep_view(),
                outcome(listing),
            ),
    {
        match listing {
            Err(error) => Err(error),
            Ok(Flow::Send(request, listing)) => Ok(
                Flow::Send(
                    request,
                    LabelReplacement {
                        pr_number,
                        stage: LabelReplacementStage::Labels(listing, names),
                    },
                ),
            ),
            Ok(Flow::Done(all)) => LabelReplacement::proceed(
                gitea,
                pr_number,
                all,
                Vec::new(),
                names,
            ),
        }
    }

    /// Reads a reply.
    pub fn on_reply(self, gitea: &Gitea, reply: Reply) -> (res: Result<
        Flow<LabelReplacement, ()>,
        ForgeError,
    >)
        ensures
            outcome(res) == self@.step(gitea@, reply.deep_view()),
    {
        let LabelReplacement { pr_number, stage } = self;
        match stage {
            LabelReplacementStage::Labels(listing, names) => LabelReplacement::on_labels(
                gitea,
                pr_number,
                names,
                listing.on_reply(gitea, reply),
            ),
            LabelReplacementStage::Creation { all, labels, later } => match reply.label() {
                Err(error) => Err(error),
                Ok(label) => {
                    let mut labels = labels;
                    labels.push(label.id);
                    LabelReplacement::proceed(gitea, pr_number, all, labels, later)
                },
            },
            LabelReplacementStage::Replacement => match error_for_status(reply.status) {
                Err(error) => Err(error),
                Ok(_) => Ok(Flow::Done(())),
            },
        }
    }
}

impl Gitea {
    /// Starts to replace the labels of a pull request. Labels that are not there
    /// are made.
    pub fn replace_pr_labels(&self, req: PrLabelsRequest) -> (res: Result<
        Flow<LabelReplacement, ()>,
        ForgeError,
    >)
        ensures
            outcome(res) == LabelReplacementView::start(self@, req.deep_view()),
    {
        LabelReplacement::on_labels(self, req.pr_number, req.labels, self.get_all_labels())
    }
}

} // verus!

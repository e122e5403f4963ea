//! The labels of the repository.

use vstd::prelude::*;

use crate::error::{outcome, ForgeError, ForgeErrorView};
use crate::gitea::{Gitea, GiteaView};
use crate::http::{
    done, make_request, request_to, send, sending, Body, BodyView, Expect, Flow, Method, Progress,
    Reply, ReplyView, Request, RequestView,
};
use crate::text::same_text;
use crate::wire::{CreateLabel, CreateLabelView, Label, LabelView};

verus! {

/// A listing of all labels that waits for a page.
#[derive(Debug)]
pub struct LabelListing {
    /// The page that was asked for.
    page: u64,
    /// The labels of the pages before.
    labels: Vec<Label>,
}

/// The value of a [`LabelListing`].
#[verifier::ext_equal]
pub struct LabelListingView {
    pub page: u64,
    pub labels: Seq<LabelView>,
}

impl View for LabelListing {
    type V = LabelListingView;

    closed spec fn view(&self) -> LabelListingView {
        LabelListingView { page: self.page, labels: self.labels.deep_view() }
    }
}

impl DeepView for LabelListing {
    type V = LabelListingView;

    open spec fn deep_view(&self) -> LabelListingView {
        self@
    }
}

/// The number of the page behind `page`, or the error that it has none.
pub open spec fn next_page(page: u64) -> Result<u64, ForgeErrorView> {
    if page == u64::MAX {
        Err(ForgeErrorView::PageOverflow)
    } else {
        Ok((page + 1) as u64)
    }
}

/// Counts a page.
pub(crate) fn turn_page(page: u64) -> (res: Result<u64, ForgeError>)
    ensures
        outcome(res) == next_page(page),
{
    if page == u64::MAX {
        Err(ForgeError::PageOverflow)
    } else {
        Ok(page + 1)
    }
}

/// The request for a page of labels.
#[verifier::opaque]
pub open spec fn label_page_request(g: GiteaView, page: u64) -> Result<
    RequestView,
    ForgeErrorView,
> {
    request_to(Method::Get, g.page_url("labels"@, page), BodyView::Empty, Expect::Labels)
}

impl LabelListingView {
    /// Asks for a page, with the labels of the pages before at hand.
    pub open spec fn ask(g: GiteaView, page: u64, labels: Seq<LabelView>) -> Progress<
        LabelListingView,
        Seq<LabelView>,
    > {
        sending(label_page_request(g, page), LabelListingView { page, labels })
    }

    /// Asks for the first page.
    pub open spec fn start(g: GiteaView) -> Progress<LabelListingView, Seq<LabelView>> {
        LabelListingView::ask(g, 1, Seq::empty())
    }

    /// Keeps the labels of a page, and asks for the next one where there is one.
    pub open spec fn step(self, g: GiteaView, reply: ReplyView) -> Progress<
        LabelListingView,
        Seq<LabelView>,
    > {
        match reply.labels() {
            Err(error) => Err(error),
            Ok(labels) => if !reply.goes_on() {
                done(self.labels + labels)
            } else {
                match next_page(self.page) {
                    Err(error) => Err(error),
                    Ok(page) => LabelListingView::ask(g, page, self.labels + labels),
                }
            },
        }
    }
}

impl LabelListing {
    /// Asks for a page.
    fn ask(gitea: &Gitea, page: u64, labels: Vec<Label>) -> (res: Result<
        Flow<LabelListing, Vec<Label>>,
        ForgeError,
    >)
        ensures
            outcome(res) == LabelListingView::ask(gitea@, page, labels.deep_view()),
    {
        proof {
            reveal(label_page_request);
        }
        let request = make_request(
            Method::Get,
            gitea.page_url("labels", page),
            Body::Empty,
            Expect::Labels,
        );
        send(request, LabelListing { page, labels })
    }

    /// Reads a page.
    pub fn on_reply(self, gitea: &Gitea, reply: Reply) -> (res: Result<
        Flow<LabelListing, Vec<Label>>,
        ForgeError,
    >)
        ensures
            outcome(res) == self@.step(gitea@, reply.deep_view()),
    {
        let goes_on = reply.goes_on();
        let mut page_labels = match reply.labels() {
            Ok(labels) => labels,
            Err(error) => return Err(error),
        };
        let ghost page_view = page_labels.deep_view();
        let mut labels = self.labels;
        labels.append(&mut page_labels);
        assert(labels.deep_view() =~= self.labels.deep_view() + page_view);
        if !goes_on {
            return Ok(Flow::Done(labels));
        }
        match turn_page(self.page) {
            Ok(page) => LabelListing::ask(gitea, page, labels),
            Err(error) => Err(error),
        }
    }
}

impl Gitea {
    /// Starts a listing of all labels.
    pub fn get_all_labels(&self) -> (res: Result<Flow<LabelListing, Vec<Label>>, ForgeError>)
        ensures
            outcome(res) == LabelListingView::start(self@),
    {
        let labels: Vec<Label> = Vec::new();
        assert(labels.deep_view() =~= Seq::empty());
        LabelListing::ask(self, 1, labels)
    }
}

/// The first label of that name.
pub open spec fn label_named(labels: Seq<LabelView>, name: Seq<char>) -> Option<u64>
    decreases labels.len(),
{
    if labels.len() == 0 {
        None
    } else if labels.first().name == name {
        Some(labels.first().id)
    } else {
        label_named(labels.drop_first(), name)
    }
}

/// Finds the number of the first label of that name.
pub fn find_label(labels: &Vec<Label>, name: &str) -> (res: Option<u64>)
    ensures
        res == label_named(labels.deep_view(), name@),
{
    let ghost all = labels.deep_view();
    assert(all.skip(0) =~= all);
    for i in 0..labels.len()
        invariant
            all == labels.deep_view(),
            label_named(all, name@) == label_named(all.skip(i as int), name@),
    {
        assert(all.skip(i as int).first() == labels[i as int].deep_view());
        assert(all.skip(i as int).drop_first() =~= all.skip(i + 1));
        if same_text(labels[i].name.as_str(), name) {
            return Some(labels[i].id);
        }
    }
    None
}

impl GiteaView {
    /// The request for a new label.
    pub open spec fn create_label(self, name: Seq<char>) -> Result<RequestView, ForgeErrorView> {
        request_to(
            Method::Post,
            self.endpoint("labels"@),
            BodyView::CreateLabel(CreateLabelView { name, color: self.settings.label_color }),
            Expect::Label,
        )
    }
}

impl Gitea {
    /// Asks for a new label.
    pub fn create_label(&self, label_name: String) -> (res: Result<Request, ForgeError>)
        ensures
            outcome(res) == self@.create_label(label_name@),
    {
        let body = CreateLabel { name: label_name, color: self.settings().label_color.clone() };
        make_request(Method::Post, self.endpoint("labels"), Body::CreateLabel(body), Expect::Label)
    }
}

} // verus!

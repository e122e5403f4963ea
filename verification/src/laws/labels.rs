//! What holds of a listing of all labels.

use vstd::prelude::*;

use crate::error::ForgeErrorView;
use crate::gitea::GiteaView;
use crate::http::{done, run, sent, PayloadView, Progress, ReplyView, RequestView};
use crate::labels::{label_named, label_page_request, LabelListingView};
use crate::laws::replies::{brings, fails, refuses};
use crate::laws::runs::{answered, reads_all};
use crate::wire::LabelView;

verus! {

/// The step of a listing of all labels.
pub open spec fn label_steps(g: GiteaView) -> spec_fn(LabelListingView, ReplyView) -> Progress<
    LabelListingView,
    Seq<LabelView>,
> {
    |state: LabelListingView, reply: ReplyView| state.step(g, reply)
}

/// Whether the replies are the given pages of labels, and all of them: each but
/// the last says that the listing goes on.
pub open spec fn are_label_pages(replies: Seq<ReplyView>, pages: Seq<Seq<LabelView>>) -> bool {
    &&& replies.len() == pages.len() > 0
    &&& forall|i: int|
        0 <= i < replies.len() ==> {
            &&& brings(#[trigger] replies[i], PayloadView::Labels(pages[i]))
            &&& (replies[i].has_more == Some("true"@)) == (i + 1 < replies.len())
        }
}

proof fn labels_from_page(
    g: GiteaView,
    page: u64,
    before: Seq<LabelView>,
    replies: Seq<ReplyView>,
    pages: Seq<Seq<LabelView>>,
)
    requires
        are_label_pages(replies, pages),
        page + replies.len() <= u64::MAX,
        forall|p: u64|
            page <= p < page + replies.len() ==> (#[trigger] label_page_request(g, p)) is Ok,
    ensures
        run(label_steps(g), LabelListingView::ask(g, page, before), replies) == done::<
            LabelListingView,
            _,
        >(before + pages.flatten()),
        sent(label_steps(g), LabelListingView::ask(g, page, before), replies) == Seq::new(
            replies.len(),
            |i: int| label_page_request(g, (page + i) as u64)->Ok_0,
        ),
        reads_all(label_steps(g), LabelListingView::ask(g, page, before), replies),
        answered(label_steps(g), LabelListingView::ask(g, page, before), replies) == sent(
            label_steps(g),
            LabelListingView::ask(g, page, before),
            replies,
        ),
    decreases replies.len(),
{
    let at = LabelListingView::ask(g, page, before);
    let state = LabelListingView { page, labels: before };
    let all = before + pages.first();
    assert(label_page_request(g, page) is Ok);
    assert(brings(replies[0], PayloadView::Labels(pages[0])));
    let next = label_steps(g)(state, replies.first());
    let rest = replies.drop_first();
    if replies.len() == 1 {
        assert(pages.drop_first().flatten() =~= Seq::empty());
        assert(before + pages.flatten() =~= all);
        assert(run(label_steps(g), next, rest) == next);
        assert(sent(label_steps(g), next, rest) == Seq::<RequestView>::empty());
        assert(reads_all(label_steps(g), next, rest));
        assert(answered(label_steps(g), next, rest) == Seq::<RequestView>::empty());
    } else {
        assert(next == LabelListingView::ask(g, (page + 1) as u64, all));
        assert forall|i: int| 0 <= i < rest.len() implies {
            &&& brings(#[trigger] rest[i], PayloadView::Labels(pages.drop_first()[i]))
            &&& (rest[i].has_more == Some("true"@)) == (i + 1 < rest.len())
        } by {
            assert(rest[i] == replies[i + 1]);
        }
        labels_from_page(g, (page + 1) as u64, all, rest, pages.drop_first());
        assert(before + pages.flatten() =~= all + pages.drop_first().flatten());
    }
    assert(sent(label_steps(g), at, replies) =~= Seq::new(
        replies.len(),
        |i: int| label_page_request(g, (page + i) as u64)->Ok_0,
    ));
}

/// A listing of all labels gives the labels of every page, in their order, and
/// asks for the pages one after the other, from the first on.
pub proof fn all_labels_are_listed(
    g: GiteaView,
    replies: Seq<ReplyView>,
    pages: Seq<Seq<LabelView>>,
)
    requires
        are_label_pages(replies, pages),
        replies.len() < u64::MAX,
        forall|p: u64|
            1 <= p <= replies.len() ==> (#[trigger] label_page_request(g, p)) is Ok,
    ensures
        run(label_steps(g), LabelListingView::start(g), replies) == done::<
            LabelListingView,
            _,
        >(pages.flatten()),
        sent(label_steps(g), LabelListingView::start(g), replies) == Seq::new(
            replies.len(),
            |i: int| label_page_request(g, (1 + i) as u64)->Ok_0,
        ),
        reads_all(label_steps(g), LabelListingView::start(g), replies),
        answered(label_steps(g), LabelListingView::start(g), replies) == sent(
            label_steps(g),
            LabelListingView::start(g),
            replies,
        ),
{
    labels_from_page(g, 1, Seq::empty(), replies, pages);
    assert(Seq::<LabelView>::empty() + pages.flatten() =~= pages.flatten());
}

/// A page that the forge refuses, or that cannot be read as labels, fails the
/// listing, whatever it has listed before.
pub proof fn failed_page_fails_the_listing(
    g: GiteaView,
    state: LabelListingView,
    reply: ReplyView,
)
    ensures
        refuses(reply) ==> fails(state.step(g, reply), ForgeErrorView::Status(reply.status)),
        !refuses(reply) ==> match reply.payload {
            PayloadView::Labels(_) => true,
            PayloadView::Unreadable(reason) => fails(
                state.step(g, reply),
                ForgeErrorView::Undecodable(reason),
            ),
            _ => fails(state.step(g, reply), ForgeErrorView::UnexpectedPayload),
        },
{
}

/// A name among labels is that of the first label that has it, wherever in the
/// list that stands; it is unknown only where no label of the list has it.
pub proof fn first_label_of_a_name_is_found(labels: Seq<LabelView>, name: Seq<char>)
    ensures
        match label_named(labels, name) {
            Some(id) => exists|i: int|
                {
                    &&& 0 <= i < labels.len()
                    &&& (#[trigger] labels[i]).name == name
                    &&& labels[i].id == id
                    &&& forall|j: int| 0 <= j < i ==> (#[trigger] labels[j]).name != name
                },
            None => forall|i: int| 0 <= i < labels.len() ==> (#[trigger] labels[i]).name != name,
        },
    decreases labels.len(),
{
    if labels.len() > 0 && labels[0].name != name {
        let rest = labels.drop_first();
        first_label_of_a_name_is_found(rest, name);
        assert(forall|i: int| 0 <= i < rest.len() ==> rest[i] == labels[i + 1]);
        match label_named(labels, name) {
            Some(id) => {
                let i = choose|i: int|
                    {
                        &&& 0 <= i < rest.len()
                        &&& (#[trigger] rest[i]).name == name
                        &&& rest[i].id == id
                        &&& forall|j: int| 0 <= j < i ==> (#[trigger] rest[j]).name != name
                    };
                assert forall|j: int| 0 <= j < i + 1 implies (#[trigger] labels[j]).name
                    != name by {
                    if j > 0 {
                        assert(rest[j - 1] == labels[j]);
                    }
                }
                assert(labels[i + 1].name == name);
            },
            None => {
                assert forall|i: int| 0 <= i < labels.len() implies (#[trigger] labels[i]).name
                    != name by {
                    if i > 0 {
                        assert(rest[i - 1] == labels[i]);
                    }
                }
            },
        }
    }
}

} // verus!

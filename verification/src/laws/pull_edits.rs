//! What holds of labels that a pull request is being given.

use vstd::prelude::*;

use crate::error::ForgeErrorView;
use crate::gitea::GiteaView;
use crate::http::{accepted, done, run, sent, Progress, ReplyView, RequestView};
use crate::labels::{label_named, label_page_request, LabelListingView};
use crate::laws::labels::{all_labels_are_listed, are_label_pages, label_steps};
use crate::laws::replies::{fails, refuses};
use crate::laws::runs::{part_runs_within, run_ends, run_steps};
use crate::pull_edits::{LabelReplacementStageView, LabelReplacementView};
use crate::types::PrLabelsRequestView;
use crate::wire::LabelView;

verus! {

/// The step of new labels that a pull request is being given.
pub open spec fn replacement_steps(g: GiteaView) -> spec_fn(
    LabelReplacementView,
    ReplyView,
) -> Progress<LabelReplacementView, ()> {
    |state: LabelReplacementView, reply: ReplyView| state.step(g, reply)
}

/// Whether the replies are the new labels for the names without one, in the order
/// of the names, and `ids` the numbers of the labels of all names.
pub open spec fn are_new_labels(
    all: Seq<LabelView>,
    names: Seq<Seq<char>>,
    replies: Seq<ReplyView>,
    ids: Seq<u64>,
) -> bool
    decreases names.len(),
{
    if names.len() == 0 {
        replies.len() == 0 && ids.len() == 0
    } else {
        &&& ids.len() > 0
        &&& match label_named(all, names.first()) {
            Some(id) => {
                &&& ids.first() == id
                &&& are_new_labels(all, names.drop_first(), replies, ids.drop_first())
            },
            None => {
                &&& replies.len() > 0
                &&& !refuses(replies.first())
                &&& replies.first().payload is Label
                &&& ids.first() == replies.first().payload->Label_0.id
                &&& are_new_labels(
                    all,
                    names.drop_first(),
                    replies.drop_first(),
                    ids.drop_first(),
                )
            },
        }
    }
}

/// The requests for labels of the names that have none, in their order.
pub open spec fn label_requests(g: GiteaView, all: Seq<LabelView>, names: Seq<Seq<char>>) -> Seq<
    RequestView,
>
    decreases names.len(),
{
    if names.len() == 0 {
        Seq::empty()
    } else {
        let later = label_requests(g, all, names.drop_first());
        match label_named(all, names.first()) {
            Some(_) => later,
            None => seq![g.create_label(names.first())->Ok_0] + later,
        }
    }
}

proof fn names_are_numbered(
    g: GiteaView,
    pr_number: u64,
    all: Seq<LabelView>,
    before: Seq<u64>,
    names: Seq<Seq<char>>,
    creations: Seq<ReplyView>,
    ids: Seq<u64>,
    replaced: ReplyView,
)
    requires
        are_new_labels(all, names, creations, ids),
        forall|i: int| 0 <= i < names.len() ==> g.create_label(#[trigger] names[i]) is Ok,
        g.set_pr_labels(pr_number, before + ids) is Ok,
        accepted(replaced.status) is Ok,
    ensures
        ({
            let steps = replacement_steps(g);
            let at = LabelReplacementView::proceed(g, pr_number, all, before, names);
            let replies = creations + seq![replaced];
            &&& run(steps, at, replies) == done::<LabelReplacementView, _>(())
            &&& sent(steps, at, replies) == label_requests(g, all, names) + seq![
                g.set_pr_labels(pr_number, before + ids)->Ok_0,
            ]
        }),
    decreases names.len(),
{
    let steps = replacement_steps(g);
    if names.len() == 0 {
        let put = g.set_pr_labels(pr_number, before + ids)->Ok_0;
        assert(before + ids =~= before);
        assert(creations + seq![replaced] =~= seq![replaced] + Seq::<ReplyView>::empty());
        let waiting = LabelReplacementView {
            pr_number,
            stage: LabelReplacementStageView::Replacement,
        };
        run_steps(steps, put, waiting, replaced, Seq::empty());
        run_ends(steps, steps(waiting, replaced), Seq::empty());
        assert(label_requests(g, all, names) + seq![put] =~= seq![put] + Seq::<
            RequestView,
        >::empty());
    } else {
        let later = names.drop_first();
        let next = before.push(ids.first());
        assert(next + ids.drop_first() =~= before + ids);
        assert forall|i: int| 0 <= i < later.len() implies g.create_label(
            #[trigger] later[i],
        ) is Ok by {
            assert(later[i] == names[i + 1]);
        }
        match label_named(all, names.first()) {
            Some(id) => {
                names_are_numbered(
                    g,
                    pr_number,
                    all,
                    next,
                    later,
                    creations,
                    ids.drop_first(),
                    replaced,
                );
                assert(LabelReplacementView::proceed(g, pr_number, all, before, names)
                    == LabelReplacementView::proceed(g, pr_number, all, next, later));
            },
            None => {
                let made = creations.drop_first();
                assert(g.create_label(names[0]) is Ok);
                let post = g.create_label(names.first())->Ok_0;
                let waiting = LabelReplacementView {
                    pr_number,
                    stage: LabelReplacementStageView::Creation { all, labels: before, later },
                };
                assert(creations + seq![replaced] =~= seq![creations.first()] + (made + seq![
                    replaced,
                ]));
                run_steps(steps, post, waiting, creations.first(), made + seq![replaced]);
                names_are_numbered(
                    g,
                    pr_number,
                    all,
                    next,
                    later,
                    made,
                    ids.drop_first(),
                    replaced,
                );
                let rest = label_requests(g, all, later);
                let put = g.set_pr_labels(pr_number, before + ids)->Ok_0;
                assert(seq![post] + (rest + seq![put]) =~= seq![post] + rest + seq![put]);
            },
        }
    }
}

/// A pull request is given, in the order of the names, the labels of those
/// names: the first label of a name among all that are there, on whatever page,
/// or else a new one. Only labels that are missing are made, and the labels of
/// the pull request are set once, in the end.
pub proof fn labels_are_replaced(
    g: GiteaView,
    req: PrLabelsRequestView,
    listings: Seq<ReplyView>,
    pages: Seq<Seq<LabelView>>,
    creations: Seq<ReplyView>,
    ids: Seq<u64>,
    replaced: ReplyView,
)
    requires
        are_label_pages(listings, pages),
        listings.len() < u64::MAX,
        forall|p: u64|
            1 <= p <= listings.len() ==> (#[trigger] label_page_request(g, p)) is Ok,
        are_new_labels(pages.flatten(), req.labels, creations, ids),
        forall|i: int|
            0 <= i < req.labels.len() ==> g.create_label(#[trigger] req.labels[i]) is Ok,
        g.set_pr_labels(req.pr_number, ids) is Ok,
        accepted(replaced.status) is Ok,
    ensures
        ({
            let steps = replacement_steps(g);
            let at = LabelReplacementView::start(g, req);
            let replies = listings + (creations + seq![replaced]);
            &&& run(steps, at, replies) == done::<LabelReplacementView, _>(())
            &&& sent(steps, at, replies) == Seq::new(
                listings.len(),
                |i: int| label_page_request(g, (1 + i) as u64)->Ok_0,
            ) + (label_requests(g, pages.flatten(), req.labels) + seq![
                g.set_pr_labels(req.pr_number, ids)->Ok_0,
            ])
        }),
{
    let (pr_number, names) = (req.pr_number, req.labels);
    all_labels_are_listed(g, listings, pages);
    part_runs_within(
        label_steps(g),
        replacement_steps(g),
        |listing: LabelListingView|
            LabelReplacementView {
                pr_number,
                stage: LabelReplacementStageView::Labels(listing, names),
            },
        |listing: Progress<LabelListingView, Seq<LabelView>>|
            LabelReplacementView::on_labels(g, pr_number, names, listing),
        LabelListingView::start(g),
        listings,
        creations + seq![replaced],
    );
    assert(Seq::<u64>::empty() + ids =~= ids);
    names_are_numbered(
        g,
        pr_number,
        pages.flatten(),
        Seq::empty(),
        names,
        creations,
        ids,
        replaced,
    );
}

/// A reply that the forge refuses fails the replacement at every stage; so does
/// one that is not the labels, or the label, that were asked for.
pub proof fn failed_reply_fails_the_replacement(
    g: GiteaView,
    state: LabelReplacementView,
    reply: ReplyView,
)
    ensures
        refuses(reply) ==> fails(state.step(g, reply), ForgeErrorView::Status(reply.status)),
        state.stage is Labels && reply.payload !is Labels ==> state.step(g, reply) is Err,
        state.stage is Creation && reply.payload !is Label ==> state.step(g, reply) is Err,
        state.stage is Replacement && !refuses(reply) ==> state.step(g, reply) == done::<
            LabelReplacementView,
            _,
        >(()),
{
}

} // verus!

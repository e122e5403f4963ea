//! What holds of the search for a release pull request.

use vstd::prelude::*;

use crate::error::ForgeErrorView;
use crate::gitea::GiteaView;
use crate::http::{
    done, run, sent, FlowView, PayloadView, Progress, ReplyView, RequestView,
};
use crate::labels::{label_named, label_page_request, LabelListingView};
use crate::laws::labels::{
    all_labels_are_listed, are_label_pages, first_label_of_a_name_is_found, label_steps,
};
use crate::laws::replies::{brings, fails, refuses};
use crate::laws::runs::{answered, part_runs_within, run_ends};
use crate::pulls::{
    candidate, candidates, pending_labels, pull_page_request, the_one, PullKind, PullSearchView,
    PullStageView,
};
use crate::text::decimal;
use crate::types::PullRequestView;
use crate::wire::{GiteaPullRequestView, LabelView};

verus! {

/// The step of a search for a release pull request.
pub open spec fn pull_steps(g: GiteaView) -> spec_fn(PullSearchView, ReplyView) -> Progress<
    PullSearchView,
    Option<PullRequestView>,
> {
    |state: PullSearchView, reply: ReplyView| state.step(g, reply)
}

/// Whether the replies are the given pages of pull requests, and all of them:
/// each but the last says that the listing goes on.
pub open spec fn are_pull_pages(
    replies: Seq<ReplyView>,
    pages: Seq<Seq<GiteaPullRequestView>>,
) -> bool {
    &&& replies.len() == pages.len() > 0
    &&& forall|i: int|
        0 <= i < replies.len() ==> {
            &&& brings(#[trigger] replies[i], PayloadView::Pulls(pages[i]))
            &&& (replies[i].has_more == Some("true"@)) == (i + 1 < replies.len())
        }
}

/// The candidates of a list are those of its parts.
proof fn candidates_of_parts(
    kind: PullKind,
    head_branch: Seq<char>,
    first: Seq<GiteaPullRequestView>,
    later: Seq<GiteaPullRequestView>,
)
    ensures
        candidates(kind, head_branch, first + later) == match (
            candidates(kind, head_branch, first),
            candidates(kind, head_branch, later),
        ) {
            (Err(error), _) => Err(error),
            (Ok(_), Err(error)) => Err(error),
            (Ok(a), Ok(b)) => Ok::<_, ForgeErrorView>(a + b),
        },
    decreases later.len(),
{
    if later.len() == 0 {
        assert(first + later =~= first);
        match candidates(kind, head_branch, first) {
            Ok(a) => assert(a + Seq::<PullRequestView>::empty() =~= a),
            Err(_) => {},
        }
    } else {
        assert((first + later).drop_last() =~= first + later.drop_last());
        candidates_of_parts(kind, head_branch, first, later.drop_last());
        match (
            candidates(kind, head_branch, first),
            candidates(kind, head_branch, later.drop_last()),
            candidate(kind, head_branch, later.last()),
        ) {
            (Ok(a), Ok(b), Ok(Some(pull))) => assert((a + b).push(pull) =~= a + b.push(pull)),
            _ => {},
        }
    }
}

/// What the search comes to once a label has had the given candidates: the
/// labels behind it count only where it had none.
pub open spec fn label_verdict(
    g: GiteaView,
    kind: PullKind,
    head_branch: Seq<char>,
    later: Seq<u64>,
    found: Result<Seq<PullRequestView>, ForgeErrorView>,
) -> Progress<PullSearchView, Option<PullRequestView>> {
    match found {
        Err(error) => Err(error),
        Ok(found) => if found.len() == 0 {
            PullSearchView::search(g, kind, head_branch, later)
        } else {
            match the_one(g, kind, head_branch, found) {
                Err(error) => Err(error),
                Ok(pull) => done(pull),
            }
        },
    }
}

proof fn pulls_from_page(
    g: GiteaView,
    kind: PullKind,
    head_branch: Seq<char>,
    label: u64,
    later: Seq<u64>,
    page: u64,
    before: Seq<PullRequestView>,
    replies: Seq<ReplyView>,
    pages: Seq<Seq<GiteaPullRequestView>>,
    tail: Seq<ReplyView>,
)
    requires
        are_pull_pages(replies, pages),
        page + replies.len() <= u64::MAX,
        forall|p: u64|
            page <= p < page + replies.len() ==> (#[trigger] pull_page_request(
                g,
                kind,
                label,
                p,
            )) is Ok,
    ensures
        run(
            pull_steps(g),
            PullSearchView::ask(g, kind, head_branch, label, later, page, before),
            replies + tail,
        ) == run(
            pull_steps(g),
            label_verdict(
                g,
                kind,
                head_branch,
                later,
                match candidates(kind, head_branch, pages.flatten()) {
                    Ok(found) => Ok(before + found),
                    Err(error) => Err(error),
                },
            ),
            tail,
        ),
        candidates(kind, head_branch, pages.flatten()) matches Ok(found) ==> sent(
            pull_steps(g),
            PullSearchView::ask(g, kind, head_branch, label, later, page, before),
            replies + tail,
        ) == Seq::new(
            replies.len(),
            |i: int| pull_page_request(g, kind, label, (page + i) as u64)->Ok_0,
        ) + sent(
            pull_steps(g),
            label_verdict(g, kind, head_branch, later, Ok(before + found)),
            tail,
        ),
    decreases replies.len(),
{
    let at = PullSearchView::ask(g, kind, head_branch, label, later, page, before);
    let state = PullSearchView {
        kind,
        head_branch,
        stage: PullStageView::Pulls { label, later, page, found: before },
    };
    assert(pull_page_request(g, kind, label, page) is Ok);
    assert(brings(replies[0], PayloadView::Pulls(pages[0])));
    let all = replies + tail;
    let rest = replies.drop_first();
    let next = pull_steps(g)(state, all.first());
    assert(all.drop_first() =~= rest + tail);
    assert(at == Ok::<_, ForgeErrorView>(FlowView::<_, Option<PullRequestView>>::Send(
        pull_page_request(g, kind, label, page)->Ok_0,
        state,
    )));
    let request = pull_page_request(g, kind, label, page)->Ok_0;
    assert(run(pull_steps(g), at, all) == run(pull_steps(g), next, rest + tail));
    assert(sent(pull_steps(g), at, all) == seq![request] + sent(
        pull_steps(g),
        next,
        rest + tail,
    ));
    let requests = Seq::new(
        replies.len(),
        |i: int| pull_page_request(g, kind, label, (page + i) as u64)->Ok_0,
    );
    let first = pages.first();
    let others = pages.drop_first().flatten();
    candidates_of_parts(kind, head_branch, first, others);
    match candidates(kind, head_branch, first) {
        Err(_) => {
            run_ends(pull_steps(g), next, rest + tail);
        },
        Ok(found) => {
            if replies.len() == 1 {
                assert(others =~= Seq::empty());
                assert(found + Seq::<PullRequestView>::empty() =~= found);
                assert(rest + tail =~= tail);
                assert(next == label_verdict(g, kind, head_branch, later, Ok(before + found)));
                assert(requests =~= seq![request]);
            } else {
                assert(next == PullSearchView::ask(
                    g,
                    kind,
                    head_branch,
                    label,
                    later,
                    (page + 1) as u64,
                    before + found,
                ));
                assert forall|i: int| 0 <= i < rest.len() implies {
                    &&& brings(#[trigger] rest[i], PayloadView::Pulls(pages.drop_first()[i]))
                    &&& (rest[i].has_more == Some("true"@)) == (i + 1 < rest.len())
                } by {
                    assert(rest[i] == replies[i + 1]);
                }
                pulls_from_page(
                    g,
                    kind,
                    head_branch,
                    label,
                    later,
                    (page + 1) as u64,
                    before + found,
                    rest,
                    pages.drop_first(),
                    tail,
                );
                match candidates(kind, head_branch, others) {
                    Ok(more) => {
                        assert(before + found + more =~= before + (found + more));
                        let others = Seq::new(
                            rest.len(),
                            |i: int| pull_page_request(g, kind, label, (page + 1 + i) as u64)->Ok_0,
                        );
                        assert(requests =~= seq![request] + others);
                        let behind = sent(
                            pull_steps(g),
                            label_verdict(
                                g,
                                kind,
                                head_branch,
                                later,
                                Ok(before + (found + more)),
                            ),
                            tail,
                        );
                        assert(seq![request] + (others + behind) =~= requests + behind);
                    },
                    Err(_) => {},
                }
            }
        },
    }
}

/// The requests for the first pages of the pull requests with a label.
pub open spec fn page_requests(g: GiteaView, kind: PullKind, label: u64, count: nat) -> Seq<
    RequestView,
> {
    Seq::new(count, |i: int| pull_page_request(g, kind, label, (1 + i) as u64)->Ok_0)
}

/// The search reads every page of a label, and what it finds there settles it:
/// one candidate is the result, several are an error. Only where the label has
/// no candidate at all does the search turn to the labels behind it.
pub proof fn first_label_comes_first(
    g: GiteaView,
    kind: PullKind,
    head_branch: Seq<char>,
    labels: Seq<u64>,
    replies: Seq<ReplyView>,
    pages: Seq<Seq<GiteaPullRequestView>>,
    tail: Seq<ReplyView>,
)
    requires
        labels.len() > 0,
        are_pull_pages(replies, pages),
        replies.len() < u64::MAX,
        forall|p: u64|
            1 <= p <= replies.len() ==> (#[trigger] pull_page_request(
                g,
                kind,
                labels.first(),
                p,
            )) is Ok,
    ensures
        run(
            pull_steps(g),
            PullSearchView::search(g, kind, head_branch, labels),
            replies + tail,
        ) == run(
            pull_steps(g),
            label_verdict(
                g,
                kind,
                head_branch,
                labels.drop_first(),
                candidates(kind, head_branch, pages.flatten()),
            ),
            tail,
        ),
        candidates(kind, head_branch, pages.flatten()) is Ok ==> sent(
            pull_steps(g),
            PullSearchView::search(g, kind, head_branch, labels),
            replies + tail,
        ) == page_requests(g, kind, labels.first(), replies.len()) + sent(
            pull_steps(g),
            label_verdict(
                g,
                kind,
                head_branch,
                labels.drop_first(),
                candidates(kind, head_branch, pages.flatten()),
            ),
            tail,
        ),
{
    pulls_from_page(
        g,
        kind,
        head_branch,
        labels.first(),
        labels.drop_first(),
        1,
        Seq::empty(),
        replies,
        pages,
        tail,
    );
    match candidates(kind, head_branch, pages.flatten()) {
        Ok(found) => {
            assert(Seq::<PullRequestView>::empty() + found =~= found);
            assert(page_requests(g, kind, labels.first(), replies.len()) =~= Seq::new(
                replies.len(),
                |i: int| pull_page_request(g, kind, labels.first(), (1 + i) as u64)->Ok_0,
            ));
        },
        Err(_) => {},
    }
}

/// The search reads every page of the labels before it looks for pull requests,
/// and looks for them under the present name of the pending label first, then
/// under its legacy name.
pub proof fn search_knows_all_labels(
    g: GiteaView,
    kind: PullKind,
    head_branch: Seq<char>,
    replies: Seq<ReplyView>,
    pages: Seq<Seq<LabelView>>,
    tail: Seq<ReplyView>,
)
    requires
        are_label_pages(replies, pages),
        replies.len() < u64::MAX,
        forall|p: u64|
            1 <= p <= replies.len() ==> (#[trigger] label_page_request(g, p)) is Ok,
    ensures
        run(pull_steps(g), PullSearchView::start(g, kind, head_branch), replies + tail) == run(
            pull_steps(g),
            PullSearchView::search(g, kind, head_branch, pending_labels(g, pages.flatten())),
            tail,
        ),
        sent(pull_steps(g), PullSearchView::start(g, kind, head_branch), replies + tail)
            == answered(label_steps(g), LabelListingView::start(g), replies) + sent(
            pull_steps(g),
            PullSearchView::search(g, kind, head_branch, pending_labels(g, pages.flatten())),
            tail,
        ),
{
    all_labels_are_listed(g, replies, pages);
    part_runs_within(
        label_steps(g),
        pull_steps(g),
        |listing: LabelListingView|
            PullSearchView { kind, head_branch, stage: PullStageView::Labels(listing) },
        |listing: Progress<LabelListingView, Seq<LabelView>>|
            PullSearchView::on_labels(g, kind, head_branch, listing),
        LabelListingView::start(g),
        replies,
        tail,
    );
}

/// Without a label of either name there is no release pull request, and none is
/// asked for: nothing is sent but the requests for the labels.
pub proof fn no_label_means_no_pull(
    g: GiteaView,
    kind: PullKind,
    head_branch: Seq<char>,
    replies: Seq<ReplyView>,
    pages: Seq<Seq<LabelView>>,
)
    requires
        are_label_pages(replies, pages),
        replies.len() < u64::MAX,
        forall|p: u64|
            1 <= p <= replies.len() ==> (#[trigger] label_page_request(g, p)) is Ok,
        label_named(pages.flatten(), g.settings.pending_label) is None,
        label_named(pages.flatten(), g.settings.legacy_pending_label) is None,
    ensures
        run(pull_steps(g), PullSearchView::start(g, kind, head_branch), replies) == done::<
            PullSearchView,
            _,
        >(None::<PullRequestView>),
        sent(pull_steps(g), PullSearchView::start(g, kind, head_branch), replies) == Seq::new(
            replies.len(),
            |i: int| label_page_request(g, (1 + i) as u64)->Ok_0,
        ),
{
    let none = Seq::<ReplyView>::empty();
    search_knows_all_labels(g, kind, head_branch, replies, pages, none);
    assert(replies + none =~= replies);
    let end = PullSearchView::search(g, kind, head_branch, pending_labels(g, pages.flatten()));
    run_ends(pull_steps(g), end, none);
    let asked = answered(label_steps(g), LabelListingView::start(g), replies);
    assert(asked + Seq::<RequestView>::empty() =~= asked);
    all_labels_are_listed(g, replies, pages);
}

/// Whether a pull request is of the given kind and brings the branch in.
pub open spec fn is_release_pull(
    kind: PullKind,
    head_branch: Seq<char>,
    pull: GiteaPullRequestView,
) -> bool {
    pull.head.label == head_branch && (kind == PullKind::Merged ==> pull.merged)
}

/// What is told of a release pull request. The commit of an open one is the head
/// of its branch, that of a merged one is its merge commit.
pub open spec fn release_pull(kind: PullKind, pull: GiteaPullRequestView) -> PullRequestView {
    PullRequestView {
        number: pull.number,
        sha: match kind {
            PullKind::Open => pull.head.sha,
            PullKind::Merged => pull.merge_commit_sha.unwrap(),
        },
        body: pull.body,
    }
}

/// The candidates are exactly the pull requests of that kind that bring the
/// branch in, in their order; closed ones that are not merged are passed over. A
/// merged one without a merge commit is an error.
pub proof fn candidates_are_release_pulls(
    kind: PullKind,
    head_branch: Seq<char>,
    pulls: Seq<GiteaPullRequestView>,
)
    ensures
        candidates(kind, head_branch, pulls) is Err <==> kind == PullKind::Merged && exists|i: int|
            0 <= i < pulls.len() && is_release_pull(kind, head_branch, #[trigger] pulls[i])
                && pulls[i].merge_commit_sha is None,
        candidates(kind, head_branch, pulls) matches Ok(found) ==> found == pulls.filter(
            |pull: GiteaPullRequestView| is_release_pull(kind, head_branch, pull),
        ).map_values(|pull: GiteaPullRequestView| release_pull(kind, pull)),
    decreases pulls.len(),
{
    let wanted = |pull: GiteaPullRequestView| is_release_pull(kind, head_branch, pull);
    let told = |pull: GiteaPullRequestView| release_pull(kind, pull);
    reveal(Seq::filter);
    if pulls.len() == 0 {
        assert(pulls.filter(wanted).map_values(told) =~= Seq::empty());
    } else {
        let first = pulls.drop_last();
        let last = pulls.last();
        candidates_are_release_pulls(kind, head_branch, first);
        assert(forall|i: int| 0 <= i < first.len() ==> first[i] == pulls[i]);
        if candidates(kind, head_branch, first) is Err {
            let i = choose|i: int|
                0 <= i < first.len() && is_release_pull(kind, head_branch, #[trigger] first[i])
                    && first[i].merge_commit_sha is None;
            assert(is_release_pull(kind, head_branch, pulls[i]));
        } else if candidate(kind, head_branch, last) is Err {
            assert(is_release_pull(kind, head_branch, pulls[pulls.len() - 1]));
        } else {
            assert(pulls.filter(wanted).map_values(told) =~= if wanted(last) {
                first.filter(wanted).map_values(told).push(told(last))
            } else {
                first.filter(wanted).map_values(told)
            });
            assert forall|i: int|
                0 <= i < pulls.len() && is_release_pull(
                    kind,
                    head_branch,
                    #[trigger] pulls[i],
                ) implies !(kind == PullKind::Merged && pulls[i].merge_commit_sha is None) by {
                if i < first.len() {
                    assert(is_release_pull(kind, head_branch, first[i]));
                }
            }
        }
    }
}

/// The error among candidates names the first merged pull request without a merge
/// commit.
pub proof fn missing_merge_commit_is_named(
    kind: PullKind,
    head_branch: Seq<char>,
    pulls: Seq<GiteaPullRequestView>,
)
    requires
        candidates(kind, head_branch, pulls) is Err,
    ensures
        exists|i: int|
            {
                &&& 0 <= i < pulls.len()
                &&& is_release_pull(kind, head_branch, #[trigger] pulls[i])
                &&& pulls[i].merge_commit_sha is None
                &&& forall|j: int|
                    0 <= j < i && is_release_pull(kind, head_branch, #[trigger] pulls[j])
                        ==> pulls[j].merge_commit_sha is Some
                &&& candidates(kind, head_branch, pulls)->Err_0 == ForgeErrorView::Forge(
                    "no merge_commit_sha found for pr "@ + decimal(pulls[i].number as nat),
                )
            },
    decreases pulls.len(),
{
    let first = pulls.drop_last();
    candidates_are_release_pulls(kind, head_branch, first);
    candidates_are_release_pulls(kind, head_branch, pulls);
    assert(forall|i: int| 0 <= i < first.len() ==> first[i] == pulls[i]);
    if candidates(kind, head_branch, first) is Err {
        missing_merge_commit_is_named(kind, head_branch, first);
        let i = choose|i: int|
            {
                &&& 0 <= i < first.len()
                &&& is_release_pull(kind, head_branch, #[trigger] first[i])
                &&& first[i].merge_commit_sha is None
                &&& forall|j: int|
                    0 <= j < i && is_release_pull(kind, head_branch, #[trigger] first[j])
                        ==> first[j].merge_commit_sha is Some
                &&& candidates(kind, head_branch, first)->Err_0 == ForgeErrorView::Forge(
                    "no merge_commit_sha found for pr "@ + decimal(first[i].number as nat),
                )
            };
        assert forall|j: int|
            0 <= j < i && is_release_pull(kind, head_branch, #[trigger] pulls[j]) implies
            pulls[j].merge_commit_sha is Some by {
            assert(first[j] == pulls[j]);
        }
        assert(is_release_pull(kind, head_branch, pulls[i]));
    } else {
        let i = pulls.len() - 1;
        assert(pulls[i] == pulls.last());
        assert forall|j: int|
            0 <= j < i && is_release_pull(kind, head_branch, #[trigger] pulls[j]) implies
            pulls[j].merge_commit_sha is Some by {
            assert(first[j] == pulls[j]);
        }
        assert(is_release_pull(kind, head_branch, pulls[i]));
    }
}

/// The labels that are searched are, as far as there are such, the first one of
/// the present name and then the first one of the legacy name.
pub proof fn pending_labels_come_in_order(g: GiteaView, labels: Seq<LabelView>)
    ensures
        match (
            label_named(labels, g.settings.pending_label),
            label_named(labels, g.settings.legacy_pending_label),
        ) {
            (Some(present), Some(legacy)) => pending_labels(g, labels) == seq![present, legacy],
            (Some(present), None) => pending_labels(g, labels) == seq![present],
            (None, Some(legacy)) => pending_labels(g, labels) == seq![legacy],
            (None, None) => pending_labels(g, labels) == Seq::<u64>::empty(),
        },
{
    match (
        label_named(labels, g.settings.pending_label),
        label_named(labels, g.settings.legacy_pending_label),
    ) {
        (Some(present), Some(legacy)) => assert(pending_labels(g, labels) =~= seq![
            present,
            legacy,
        ]),
        (Some(present), None) => assert(pending_labels(g, labels) =~= seq![present]),
        (None, Some(legacy)) => assert(pending_labels(g, labels) =~= seq![legacy]),
        (None, None) => {},
    }
}

/// The words of the error that a branch has several release pull requests.
pub open spec fn too_many(g: GiteaView, kind: PullKind, head_branch: Seq<char>) -> ForgeErrorView {
    ForgeErrorView::Forge(
        match kind {
            PullKind::Open => "Found more than one open release PR with pending label for branch "@
                + head_branch,
            PullKind::Merged => "Found more than one closed release PR with pending label for branch "@
                + head_branch
                + ". This means either release PRs were closed manually or releasaurus failed to remove tags. You must remove the "@
                + g.settings.pending_label
                + " label from all closed release PRs except for the most recent."@,
        },
    )
}

/// The release pull requests of the given kind and branch, in their order.
pub open spec fn release_pulls(
    kind: PullKind,
    head_branch: Seq<char>,
    pulls: Seq<GiteaPullRequestView>,
) -> Seq<GiteaPullRequestView> {
    pulls.filter(|pull: GiteaPullRequestView| is_release_pull(kind, head_branch, pull))
}

/// Whether no merged release pull request lacks its merge commit.
pub open spec fn are_whole(
    kind: PullKind,
    head_branch: Seq<char>,
    pulls: Seq<GiteaPullRequestView>,
) -> bool {
    forall|i: int|
        0 <= i < pulls.len() && kind == PullKind::Merged && is_release_pull(
            kind,
            head_branch,
            #[trigger] pulls[i],
        ) ==> pulls[i].merge_commit_sha is Some
}

/// All pages of a label are asked for and read. One release pull request among
/// them is the result, and several are an error; where there is none, the search
/// goes on with the labels behind, and without any it has found nothing.
pub proof fn label_settles_the_search(
    g: GiteaView,
    kind: PullKind,
    head_branch: Seq<char>,
    labels: Seq<u64>,
    replies: Seq<ReplyView>,
    pages: Seq<Seq<GiteaPullRequestView>>,
    tail: Seq<ReplyView>,
)
    requires
        labels.len() > 0,
        are_pull_pages(replies, pages),
        are_whole(kind, head_branch, pages.flatten()),
        replies.len() < u64::MAX,
        forall|p: u64|
            1 <= p <= replies.len() ==> (#[trigger] pull_page_request(
                g,
                kind,
                labels.first(),
                p,
            )) is Ok,
    ensures
        ({
            let all = replies + tail;
            let at = PullSearchView::search(g, kind, head_branch, labels);
            let end = run(pull_steps(g), at, all);
            let requests = sent(pull_steps(g), at, all);
            let asked = page_requests(g, kind, labels.first(), replies.len());
            let found = release_pulls(kind, head_branch, pages.flatten());
            let next = PullSearchView::search(g, kind, head_branch, labels.drop_first());
            if found.len() == 0 {
                &&& end == run(pull_steps(g), next, tail)
                &&& requests == asked + sent(pull_steps(g), next, tail)
            } else if found.len() == 1 {
                &&& end matches Ok(FlowView::Done(Some(pull)))
                &&& pull.number == found[0].number
                &&& pull.body == found[0].body
                &&& kind == PullKind::Open ==> pull.sha == found[0].head.sha
                &&& kind == PullKind::Merged ==> Some(pull.sha) == found[0].merge_commit_sha
                &&& requests == asked
            } else {
                &&& fails(end, too_many(g, kind, head_branch))
                &&& requests == asked
            }
        }),
{
    let pulls = pages.flatten();
    let found = release_pulls(kind, head_branch, pulls);
    first_label_comes_first(g, kind, head_branch, labels, replies, pages, tail);
    candidates_are_release_pulls(kind, head_branch, pulls);
    let asked = page_requests(g, kind, labels.first(), replies.len());
    assert(asked + Seq::<RequestView>::empty() =~= asked);
    assert(candidates(kind, head_branch, pulls) is Ok);
    let told = candidates(kind, head_branch, pulls)->Ok_0;
    assert(told.len() == found.len());
    let verdict = label_verdict(g, kind, head_branch, labels.drop_first(), Ok(told));
    if found.len() > 0 {
        run_ends(pull_steps(g), verdict, tail);
        if found.len() == 1 {
            assert(found[0] == found.first());
            pulls.lemma_filter_pred(
                |pull: GiteaPullRequestView| is_release_pull(kind, head_branch, pull),
                0,
            );
            assert(found.contains(found[0]));
            pulls.lemma_filter_contains_rev(
                |pull: GiteaPullRequestView| is_release_pull(kind, head_branch, pull),
                found[0],
            );
            let i = pulls.index_of(found[0]);
            assert(pulls[i] == found[0]);
            assert(is_release_pull(kind, head_branch, pulls[i]));
            assert(told[0] == release_pull(kind, found[0]));
        }
    }
}

/// Where no label is left the search has found nothing.
pub proof fn without_labels_nothing_is_found(
    g: GiteaView,
    kind: PullKind,
    head_branch: Seq<char>,
)
    ensures
        PullSearchView::search(g, kind, head_branch, Seq::empty()) == done::<PullSearchView, _>(
            None::<PullRequestView>,
        ),
{
}

/// A merged release pull request without a merge commit fails the search, with the
/// error that names the first such.
pub proof fn missing_merge_commit_fails_the_search(
    g: GiteaView,
    kind: PullKind,
    head_branch: Seq<char>,
    labels: Seq<u64>,
    replies: Seq<ReplyView>,
    pages: Seq<Seq<GiteaPullRequestView>>,
    tail: Seq<ReplyView>,
)
    requires
        labels.len() > 0,
        are_pull_pages(replies, pages),
        !are_whole(kind, head_branch, pages.flatten()),
        replies.len() < u64::MAX,
        forall|p: u64|
            1 <= p <= replies.len() ==> (#[trigger] pull_page_request(
                g,
                kind,
                labels.first(),
                p,
            )) is Ok,
    ensures
        ({
            let at = PullSearchView::search(g, kind, head_branch, labels);
            let end = run(pull_steps(g), at, replies + tail);
            let pulls = pages.flatten();
            exists|i: int|
                {
                    &&& 0 <= i < pulls.len()
                    &&& is_release_pull(kind, head_branch, #[trigger] pulls[i])
                    &&& pulls[i].merge_commit_sha is None
                    &&& fails(
                        end,
                        ForgeErrorView::Forge(
                            "no merge_commit_sha found for pr "@ + decimal(
                                pulls[i].number as nat,
                            ),
                        ),
                    )
                }
        }),
{
    let pulls = pages.flatten();
    let i = choose|i: int|
        0 <= i < pulls.len() && kind == PullKind::Merged && is_release_pull(
            kind,
            head_branch,
            #[trigger] pulls[i],
        ) && pulls[i].merge_commit_sha is None;
    first_label_comes_first(g, kind, head_branch, labels, replies, pages, tail);
    candidates_are_release_pulls(kind, head_branch, pulls);
    assert(is_release_pull(kind, head_branch, pulls[i]));
    missing_merge_commit_is_named(kind, head_branch, pulls);
    run_ends(
        pull_steps(g),
        label_verdict(
            g,
            kind,
            head_branch,
            labels.drop_first(),
            candidates(kind, head_branch, pulls),
        ),
        tail,
    );
}

/// The one release pull request under the present label is found, in whatever
/// place of the list of labels that one stands, and on whatever page the pull
/// request is.
pub proof fn pull_under_the_present_label_is_found(
    g: GiteaView,
    kind: PullKind,
    head_branch: Seq<char>,
    listings: Seq<ReplyView>,
    labels: Seq<Seq<LabelView>>,
    i: int,
    replies: Seq<ReplyView>,
    pages: Seq<Seq<GiteaPullRequestView>>,
    k: int,
)
    requires
        are_label_pages(listings, labels),
        listings.len() < u64::MAX,
        forall|p: u64|
            1 <= p <= listings.len() ==> (#[trigger] label_page_request(g, p)) is Ok,
        0 <= i < labels.flatten().len(),
        labels.flatten()[i].name == g.settings.pending_label,
        forall|j: int|
            0 <= j < i ==> (#[trigger] labels.flatten()[j]).name != g.settings.pending_label,
        are_pull_pages(replies, pages),
        are_whole(kind, head_branch, pages.flatten()),
        replies.len() < u64::MAX,
        forall|p: u64|
            1 <= p <= replies.len() ==> (#[trigger] pull_page_request(
                g,
                kind,
                labels.flatten()[i].id,
                p,
            )) is Ok,
        release_pulls(kind, head_branch, pages.flatten()) == seq![pages.flatten()[k]],
    ensures
        ({
            let at = PullSearchView::start(g, kind, head_branch);
            let pull = pages.flatten()[k];
            &&& run(pull_steps(g), at, listings + replies) matches Ok(FlowView::Done(Some(found)))
            &&& found.number == pull.number
            &&& found.body == pull.body
            &&& kind == PullKind::Open ==> found.sha == pull.head.sha
            &&& kind == PullKind::Merged ==> Some(found.sha) == pull.merge_commit_sha
            &&& sent(pull_steps(g), at, listings + replies) == Seq::new(
                listings.len(),
                |p: int| label_page_request(g, (1 + p) as u64)->Ok_0,
            ) + page_requests(g, kind, labels.flatten()[i].id, replies.len())
        }),
{
    let all = labels.flatten();
    let none = Seq::<ReplyView>::empty();
    first_label_of_a_name_is_found(all, g.settings.pending_label);
    assert(label_named(all, g.settings.pending_label) == Some(all[i].id)) by {
        assert(all[i].name == g.settings.pending_label);
        let id = label_named(all, g.settings.pending_label)->Some_0;
        let m = choose|m: int|
            {
                &&& 0 <= m < all.len()
                &&& (#[trigger] all[m]).name == g.settings.pending_label
                &&& all[m].id == id
                &&& forall|j: int|
                    0 <= j < m ==> (#[trigger] all[j]).name != g.settings.pending_label
            };
        if m < i {
            assert(all[m].name != g.settings.pending_label);
        }
        if i < m {
            assert(all[i].name != g.settings.pending_label);
        }
    }
    search_knows_all_labels(g, kind, head_branch, listings, labels, replies);
    all_labels_are_listed(g, listings, labels);
    pending_labels_come_in_order(g, all);
    let ids = pending_labels(g, all);
    assert(ids.first() == all[i].id);
    label_settles_the_search(g, kind, head_branch, ids, replies, pages, none);
    assert(replies + none =~= replies);
}

/// A page that the forge refuses, or that cannot be read as what was asked for,
/// fails the search, whatever it has found before.
pub proof fn failed_page_fails_the_search(g: GiteaView, state: PullSearchView, reply: ReplyView)
    ensures
        refuses(reply) ==> fails(state.step(g, reply), ForgeErrorView::Status(reply.status)),
        !refuses(reply) ==> match reply.payload {
            PayloadView::Labels(_) | PayloadView::Pulls(_) => true,
            PayloadView::Unreadable(reason) => fails(
                state.step(g, reply),
                ForgeErrorView::Undecodable(reason),
            ),
            _ => fails(state.step(g, reply), ForgeErrorView::UnexpectedPayload),
        },
{
}

} // verus!

//! What holds of the runs of every operation.

use vstd::prelude::*;

use crate::error::ForgeErrorView;
use crate::http::{run, sent, FlowView, Progress, ReplyView, RequestView};

verus! {

/// Whether an operation reads all of the given replies.
pub open spec fn reads_all<S, T>(
    step: spec_fn(S, ReplyView) -> Progress<S, T>,
    at: Progress<S, T>,
    replies: Seq<ReplyView>,
) -> bool
    decreases replies.len(),
{
    replies.len() == 0 || match at {
        Ok(FlowView::Send(_, state)) => reads_all(
            step,
            step(state, replies.first()),
            replies.drop_first(),
        ),
        _ => false,
    }
}

/// The requests of an operation that the given replies answer.
pub open spec fn answered<S, T>(
    step: spec_fn(S, ReplyView) -> Progress<S, T>,
    at: Progress<S, T>,
    replies: Seq<ReplyView>,
) -> Seq<RequestView>
    decreases replies.len(),
{
    match at {
        Ok(FlowView::Send(request, state)) if replies.len() > 0 => seq![request] + answered(
            step,
            step(state, replies.first()),
            replies.drop_first(),
        ),
        _ => Seq::empty(),
    }
}

/// An operation that is done, or has failed, reads no further reply.
pub proof fn run_ends<S, T>(
    step: spec_fn(S, ReplyView) -> Progress<S, T>,
    at: Progress<S, T>,
    replies: Seq<ReplyView>,
)
    requires
        !(at matches Ok(FlowView::Send(_, _))),
    ensures
        run(step, at, replies) == at,
        sent(step, at, replies) == Seq::<RequestView>::empty(),
{
}

/// An operation that waits reads the first reply, and then the others.
pub proof fn run_steps<S, T>(
    step: spec_fn(S, ReplyView) -> Progress<S, T>,
    request: RequestView,
    state: S,
    reply: ReplyView,
    later: Seq<ReplyView>,
)
    ensures
        ({
            let at = Ok(FlowView::Send(request, state));
            let replies = seq![reply] + later;
            &&& run(step, at, replies) == run(step, step(state, reply), later)
            &&& sent(step, at, replies) == seq![request] + sent(step, step(state, reply), later)
            &&& answered(step, at, replies) == seq![request] + answered(
                step,
                step(state, reply),
                later,
            )
            &&& reads_all(step, at, replies) == reads_all(step, step(state, reply), later)
        }),
{
    let replies = seq![reply] + later;
    assert(replies.first() == reply);
    assert(replies.drop_first() =~= later);
}

/// An operation that runs as a part of another reads its replies there as it
/// does on its own, and the other goes on with what it comes to.
pub proof fn part_runs_within<S, T, U, V>(
    step: spec_fn(S, ReplyView) -> Progress<S, T>,
    whole_step: spec_fn(U, ReplyView) -> Progress<U, V>,
    embed: spec_fn(S) -> U,
    within: spec_fn(Progress<S, T>) -> Progress<U, V>,
    at: Progress<S, T>,
    first: Seq<ReplyView>,
    later: Seq<ReplyView>,
)
    requires
        forall|request: RequestView, state: S|
            #[trigger] within(Ok(FlowView::Send(request, state))) == Ok::<_, ForgeErrorView>(
                FlowView::<U, V>::Send(request, embed(state)),
            ),
        forall|state: S, reply: ReplyView|
            #[trigger] whole_step(embed(state), reply) == within(step(state, reply)),
        reads_all(step, at, first),
    ensures
        run(whole_step, within(at), first + later) == run(
            whole_step,
            within(run(step, at, first)),
            later,
        ),
        sent(whole_step, within(at), first + later) == answered(step, at, first) + sent(
            whole_step,
            within(run(step, at, first)),
            later,
        ),
    decreases first.len(),
{
    if first.len() == 0 {
        assert(first + later =~= later);
        assert(run(step, at, first) == at);
        let rest = sent(whole_step, within(at), later);
        assert(Seq::<RequestView>::empty() + rest =~= rest);
    } else {
        let request = at->Ok_0->Send_0;
        let state = at->Ok_0->Send_1;
        let reply = first.first();
        let rest = first.drop_first();
        let next = step(state, reply);
        assert(at == Ok::<_, ForgeErrorView>(FlowView::<S, T>::Send(request, state)));
        part_runs_within(step, whole_step, embed, within, next, rest, later);
        assert(first + later =~= seq![reply] + (rest + later));
        run_steps(whole_step, request, embed(state), reply, rest + later);
        assert(whole_step(embed(state), reply) == within(next));
        let behind = sent(whole_step, within(run(step, next, rest)), later);
        assert(seq![request] + (answered(step, next, rest) + behind) =~= seq![request] + answered(
            step,
            next,
            rest,
        ) + behind);
    }
}

} // verus!

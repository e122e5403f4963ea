//! What holds of replies, whatever they answer.

use vstd::prelude::*;

use crate::bindings::{json_string, json_u64};
use crate::error::ForgeErrorView;
use crate::gitea::required;
use crate::http::{accepted, done, sending, FlowView, PayloadView, ReplyView, RequestView};
use crate::labels::next_page;
use crate::tags::no_commits;
use crate::types::PullRequestView;

verus! {

/// Whether the status of a reply is a client or a server error.
pub open spec fn refuses(reply: ReplyView) -> bool {
    reply.status >= 400 && reply.status < 600
}

/// Whether a result is the given error.
pub open spec fn fails<T>(res: Result<T, ForgeErrorView>, error: ForgeErrorView) -> bool {
    res is Err && res->Err_0 == error
}

/// Whether a result is the given value.
pub open spec fn gives<T>(res: Result<T, ForgeErrorView>, value: T) -> bool {
    res is Ok && res->Ok_0 == value
}

/// Whether a reply is no error, and has the given body.
pub open spec fn brings(reply: ReplyView, payload: PayloadView) -> bool {
    !refuses(reply) && reply.payload == payload
}

/// A client or server error is an error, whatever the body is read as.
pub proof fn refusal_is_an_error(reply: ReplyView)
    requires
        refuses(reply),
    ensures
        accepted(reply.status) == Err::<(), _>(ForgeErrorView::Status(reply.status)),
        fails(reply.text(), ForgeErrorView::Status(reply.status)),
        fails(reply.json(), ForgeErrorView::Status(reply.status)),
        fails(reply.label(), ForgeErrorView::Status(reply.status)),
        fails(reply.labels(), ForgeErrorView::Status(reply.status)),
        fails(reply.tag(), ForgeErrorView::Status(reply.status)),
        fails(reply.tags(), ForgeErrorView::Status(reply.status)),
        fails(reply.release(), ForgeErrorView::Status(reply.status)),
        fails(reply.commit(), ForgeErrorView::Status(reply.status)),
        fails(reply.commits(), ForgeErrorView::Status(reply.status)),
        fails(reply.created_commit(), ForgeErrorView::Status(reply.status)),
        fails(reply.pull(), ForgeErrorView::Status(reply.status)),
        fails(reply.pulls(), ForgeErrorView::Status(reply.status)),
{
}

/// A reply without such an error is accepted, and its body is read as what it is.
pub proof fn body_is_read_as_it_is(reply: ReplyView)
    requires
        !refuses(reply),
    ensures
        accepted(reply.status) == Ok::<(), ForgeErrorView>(()),
        reply.payload matches PayloadView::Text(body) ==> gives(reply.text(), body),
        reply.payload matches PayloadView::Json(body) ==> gives(reply.json(), body),
        reply.payload matches PayloadView::Label(body) ==> gives(reply.label(), body),
        reply.payload matches PayloadView::Labels(body) ==> gives(reply.labels(), body),
        reply.payload matches PayloadView::Tag(body) ==> gives(reply.tag(), body),
        reply.payload matches PayloadView::Tags(body) ==> gives(reply.tags(), body),
        reply.payload matches PayloadView::Release(body) ==> gives(reply.release(), body),
        reply.payload matches PayloadView::Commit(body) ==> gives(reply.commit(), body),
        reply.payload matches PayloadView::Commits(body) ==> gives(reply.commits(), body),
        reply.payload matches PayloadView::CreatedCommit(body)
            ==> gives(reply.created_commit(), body),
        reply.payload matches PayloadView::Pull(body) ==> gives(reply.pull(), body),
        reply.payload matches PayloadView::Pulls(body) ==> gives(reply.pulls(), body),
{
}

/// A body that could not be read is an error that says why; one of another kind
/// than the one asked for is an error too.
pub proof fn other_body_is_an_error(reply: ReplyView)
    requires
        !refuses(reply),
    ensures
        reply.payload matches PayloadView::Unreadable(reason) ==> {
            &&& fails(reply.text(), ForgeErrorView::Undecodable(reason))
            &&& fails(reply.json(), ForgeErrorView::Undecodable(reason))
            &&& fails(reply.label(), ForgeErrorView::Undecodable(reason))
            &&& fails(reply.labels(), ForgeErrorView::Undecodable(reason))
            &&& fails(reply.tag(), ForgeErrorView::Undecodable(reason))
            &&& fails(reply.tags(), ForgeErrorView::Undecodable(reason))
            &&& fails(reply.release(), ForgeErrorView::Undecodable(reason))
            &&& fails(reply.commit(), ForgeErrorView::Undecodable(reason))
            &&& fails(reply.commits(), ForgeErrorView::Undecodable(reason))
            &&& fails(reply.created_commit(), ForgeErrorView::Undecodable(reason))
            &&& fails(reply.pull(), ForgeErrorView::Undecodable(reason))
            &&& fails(reply.pulls(), ForgeErrorView::Undecodable(reason))
        },
        reply.payload !is Unreadable ==> {
            &&& reply.payload !is Text ==> fails(reply.text(), ForgeErrorView::UnexpectedPayload)
            &&& reply.payload !is Json ==> fails(reply.json(), ForgeErrorView::UnexpectedPayload)
            &&& reply.payload !is Label ==> fails(reply.label(), ForgeErrorView::UnexpectedPayload)
            &&& reply.payload !is Labels
                ==> fails(reply.labels(), ForgeErrorView::UnexpectedPayload)
            &&& reply.payload !is Tag ==> fails(reply.tag(), ForgeErrorView::UnexpectedPayload)
            &&& reply.payload !is Tags ==> fails(reply.tags(), ForgeErrorView::UnexpectedPayload)
            &&& reply.payload !is Release
                ==> fails(reply.release(), ForgeErrorView::UnexpectedPayload)
            &&& reply.payload !is Commit
                ==> fails(reply.commit(), ForgeErrorView::UnexpectedPayload)
            &&& reply.payload !is Commits
                ==> fails(reply.commits(), ForgeErrorView::UnexpectedPayload)
            &&& reply.payload !is CreatedCommit
                ==> fails(reply.created_commit(), ForgeErrorView::UnexpectedPayload)
            &&& reply.payload !is Pull ==> fails(reply.pull(), ForgeErrorView::UnexpectedPayload)
            &&& reply.payload !is Pulls ==> fails(reply.pulls(), ForgeErrorView::UnexpectedPayload)
        },
{
}

/// A listing goes on exactly where the forge says `true`.
pub proof fn listing_goes_on_where_told(reply: ReplyView)
    ensures
        reply.goes_on() <==> reply.has_more == Some("true"@),
{
}

/// A branch is there where the forge says so, and is not where it says that or
/// anything else that is no error.
pub proof fn branch_is_there_where_told(reply: ReplyView)
    ensures
        reply.status == 200 ==> reply.branch_exists() == Ok::<_, ForgeErrorView>(true),
        reply.status == 404 ==> reply.branch_exists() == Ok::<_, ForgeErrorView>(false),
        reply.status != 404 && refuses(reply) ==> reply.branch_exists() == Err::<bool, _>(
            ForgeErrorView::Status(reply.status),
        ),
        reply.status != 200 && !refuses(reply) ==> reply.branch_exists() == Ok::<
            _,
            ForgeErrorView,
        >(false),
{
}

/// A file that is not there has no content; the content of another is the text of
/// the reply.
pub proof fn file_is_there_where_told(reply: ReplyView)
    ensures
        reply.status == 404 ==> reply.file_content() == Ok::<_, ForgeErrorView>(None::<Seq<char>>),
        reply.status != 404 && refuses(reply)
            ==> fails(reply.file_content(), ForgeErrorView::Status(reply.status)),
        !refuses(reply) ==> match reply.payload {
            PayloadView::Text(text) => reply.file_content() == Ok::<_, ForgeErrorView>(Some(text)),
            PayloadView::Unreadable(reason) =>
                fails(reply.file_content(), ForgeErrorView::Undecodable(reason)),
            _ => fails(reply.file_content(), ForgeErrorView::UnexpectedPayload),
        },
{
}

/// The text under a key of a JSON reply is what stands there; without one there is
/// the error that was asked for.
pub proof fn required_text_stands_in_the_reply(
    reply: ReplyView,
    text: Seq<u8>,
    key: Seq<char>,
    missing: Seq<char>,
)
    requires
        brings(reply, PayloadView::Json(text)),
    ensures
        match json_string(text, key) {
            Some(Some(value)) => reply.required_text(key, missing) == Ok::<_, ForgeErrorView>(
                value,
            ),
            Some(None) =>
                fails(reply.required_text(key, missing), ForgeErrorView::Missing(missing)),
            None => fails(reply.required_text(key, missing), ForgeErrorView::InvalidJson),
        },
{
}

/// A reply that is no JSON document has no text under any key.
pub proof fn required_text_needs_json(reply: ReplyView, key: Seq<char>, missing: Seq<char>)
    ensures
        refuses(reply)
            ==> fails(reply.required_text(key, missing), ForgeErrorView::Status(reply.status)),
        !refuses(reply) && reply.payload !is Json ==> reply.required_text(key, missing) is Err,
{
}

/// A text that is there is handed on, and one that is not is the error asked for.
pub proof fn text_is_required(value: Seq<char>, missing: Seq<char>)
    ensures
        required(Some(value), missing) == Ok::<_, ForgeErrorView>(value),
        fails(required(None, missing), ForgeErrorView::Missing(missing)),
{
}

/// The hash of a file is the text under `sha`.
pub proof fn file_hash_stands_in_the_reply(reply: ReplyView, text: Seq<u8>)
    ensures
        brings(reply, PayloadView::Json(text)) ==> match json_string(text, "sha"@) {
            Some(Some(sha)) => reply.file_sha() == Ok::<_, ForgeErrorView>(sha),
            Some(None) =>
                fails(reply.file_sha(), ForgeErrorView::Missing("failed to get file sha"@)),
            None => fails(reply.file_sha(), ForgeErrorView::InvalidJson),
        },
        refuses(reply) ==> fails(reply.file_sha(), ForgeErrorView::Status(reply.status)),
        !refuses(reply) && reply.payload !is Json ==> reply.file_sha() is Err,
{
}

/// A tag lies in the history of a branch exactly where the comparison counts no
/// commit.
pub proof fn ancestors_have_no_commits(reply: ReplyView, text: Seq<u8>)
    ensures
        brings(reply, PayloadView::Json(text)) ==> match json_u64(text, "total_commits"@) {
            Some(Some(count)) => reply.is_ancestor() == Ok::<_, ForgeErrorView>(count == 0),
            Some(None) => reply.is_ancestor() == Ok::<_, ForgeErrorView>(false),
            None => fails(reply.is_ancestor(), ForgeErrorView::InvalidJson),
        },
        refuses(reply) ==> fails(reply.is_ancestor(), ForgeErrorView::Status(reply.status)),
        !refuses(reply) && reply.payload !is Json ==> reply.is_ancestor() is Err,
{
}

/// Of all counts only zero is none; no count is no zero.
pub proof fn zero_is_no_commits(count: u64)
    ensures
        no_commits(Some(count)) <==> count == 0,
        !no_commits(None),
{
}

/// A pull request that was made has the number, the body and the head that the
/// forge tells of.
pub proof fn made_pull_is_told(reply: ReplyView)
    ensures
        !refuses(reply) && reply.payload is Pull ==> {
            let pull = reply.payload->Pull_0;
            reply.created_pr() == Ok::<_, ForgeErrorView>(
                PullRequestView { number: pull.number, sha: pull.head.sha, body: pull.body },
            )
        },
        refuses(reply) ==> fails(reply.created_pr(), ForgeErrorView::Status(reply.status)),
        !refuses(reply) && reply.payload !is Pull ==> reply.created_pr() is Err,
{
}

/// An operation sends a request that came about, waits in the state given, and
/// fails with the error of a request that did not.
pub proof fn sending_sends<S, T>(
    request: RequestView,
    error: ForgeErrorView,
    state: S,
    value: T,
)
    ensures
        sending::<S, T>(Ok(request), state) == Ok::<_, ForgeErrorView>(
            FlowView::<S, T>::Send(request, state),
        ),
        sending::<S, T>(Err(error), state) == Err::<FlowView<S, T>, _>(error),
        done::<S, T>(value) == Ok::<_, ForgeErrorView>(FlowView::<S, T>::Done(value)),
{
}

/// The page behind a page is the next one, as far as pages can be counted.
pub proof fn pages_are_counted(page: u64)
    ensures
        page < u64::MAX ==> next_page(page) == Ok::<_, ForgeErrorView>((page + 1) as u64),
        page == u64::MAX ==> next_page(page) == Err::<u64, _>(ForgeErrorView::PageOverflow),
{
}

} // verus!

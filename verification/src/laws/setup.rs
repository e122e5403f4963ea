//! What holds of the setup of a forge.

use vstd::prelude::*;

use crate::bindings::{json_string, parsed_url};
use crate::error::ForgeErrorView;
use crate::gitea::{GiteaSetupView, GiteaView};
use crate::http::{BodyView, Expect, FlowView, Method, PayloadView, ReplyView};
use crate::laws::replies::{brings, fails, refuses};
use crate::text::decimal;
use crate::types::{ForgeSettingsView, RepoUrlView};

verus! {

/// The text of a link to a page of the repository.
pub open spec fn link(url: RepoUrlView, page: Seq<char>) -> Seq<char> {
    url.link_base_url + "/"@ + url.owner + "/"@ + url.name + page
}

/// The text of the URL of the repository in the API.
pub open spec fn api(url: RepoUrlView) -> Seq<char> {
    if url.port is Some {
        url.scheme + "://"@ + url.host + ":"@ + decimal(url.port->Some_0 as nat)
            + "/api/v1/repos/"@ + url.owner + "/"@ + url.name + "/"@
    } else {
        url.scheme + "://"@ + url.host + "/api/v1/repos/"@ + url.owner + "/"@ + url.name + "/"@
    }
}

/// Whether each character of a text may stand in a header: a tab, or no control
/// character of ASCII.
pub open spec fn can_be_sent(text: Seq<char>) -> bool {
    forall|i: int|
        0 <= i < text.len() ==> (#[trigger] text[i]) as int == 9 || (text[i] as int >= 32
            && text[i] as int != 127)
}

/// The setup of a forge asks for the repository in the API, and keeps the links
/// into its pages and the token. A link that is no URL, a token that cannot be
/// sent, and an API that is no URL are errors, in that order.
pub proof fn setup_asks_for_the_repository(
    url: RepoUrlView,
    token: Seq<char>,
    settings: ForgeSettingsView,
)
    ensures
        ({
            let at = GiteaSetupView::start(url, token, settings);
            let releases = parsed_url(link(url, "/releases/"@));
            let compare = parsed_url(link(url, "/compare/"@));
            let base = parsed_url(api(url));
            if releases is None || compare is None {
                fails(at, ForgeErrorView::InvalidUrl)
            } else if !can_be_sent("token "@ + token) {
                fails(at, ForgeErrorView::InvalidHeader)
            } else if base is None {
                fails(at, ForgeErrorView::InvalidUrl)
            } else {
                &&& at matches Ok(FlowView::Send(request, state))
                &&& request.method == Method::Get
                &&& request.url == base.unwrap()
                &&& request.body == BodyView::Empty
                &&& request.expect == Expect::Json
                &&& state.url == url
                &&& state.settings == settings
                &&& state.authorization == "token "@ + token
                &&& state.base_url == base.unwrap()
                &&& state.release_link_base_url == releases.unwrap()
                &&& state.compare_link_base_url == compare.unwrap()
            }
        }),
{
    assert(url.link_text("/releases/"@) =~= link(url, "/releases/"@));
    assert(url.link_text("/compare/"@) =~= link(url, "/compare/"@));
    assert(url.api_text() =~= api(url));
}

/// A setup whose links have been made fails with the first of them that was not,
/// then with a token that cannot be sent; else it asks for the repository.
pub proof fn setup_needs_its_links(
    url: RepoUrlView,
    token: Seq<char>,
    settings: ForgeSettingsView,
    releases: Result<Seq<char>, ForgeErrorView>,
    compare: Result<Seq<char>, ForgeErrorView>,
    base: Result<Seq<char>, ForgeErrorView>,
)
    ensures
        ({
            let at = GiteaSetupView::with_links(url, token, settings, releases, compare, base);
            if releases is Err {
                fails(at, releases->Err_0)
            } else if compare is Err {
                fails(at, compare->Err_0)
            } else if !can_be_sent("token "@ + token) {
                fails(at, ForgeErrorView::InvalidHeader)
            } else if base is Err {
                fails(at, base->Err_0)
            } else {
                &&& at matches Ok(FlowView::Send(request, state))
                &&& request.method == Method::Get
                &&& request.url == base->Ok_0
                &&& request.body == BodyView::Empty
                &&& request.expect == Expect::Json
                &&& state.url == url
                &&& state.settings == settings
                &&& state.authorization == "token "@ + token
                &&& state.base_url == base->Ok_0
                &&& state.release_link_base_url == releases->Ok_0
                &&& state.compare_link_base_url == compare->Ok_0
            }
        }),
{
}

/// A forge has the default branch that the repository tells of, and keeps all that
/// its setup has.
pub proof fn forge_has_the_default_branch(
    state: GiteaSetupView,
    reply: ReplyView,
    text: Seq<u8>,
    branch: Seq<char>,
)
    requires
        brings(reply, PayloadView::Json(text)),
        json_string(text, "default_branch"@) == Some(Some(branch)),
    ensures
        ({
            &&& state.step(reply) matches Ok(FlowView::Done(forge))
            &&& forge.default_branch == branch
            &&& forge.url == state.url
            &&& forge.settings == state.settings
            &&& forge.base_url == state.base_url
            &&& forge.release_link_base_url == state.release_link_base_url
            &&& forge.compare_link_base_url == state.compare_link_base_url
        }),
{
}

/// A repository that is refused, that is no JSON document, or that has no default
/// branch fails the setup.
pub proof fn setup_needs_a_default_branch(state: GiteaSetupView, reply: ReplyView)
    ensures
        refuses(reply) ==> fails(state.step(reply), ForgeErrorView::Status(reply.status)),
        !refuses(reply) ==> match reply.payload {
            PayloadView::Json(text) => match json_string(text, "default_branch"@) {
                None => fails(state.step(reply), ForgeErrorView::InvalidJson),
                Some(None) => fails(
                    state.step(reply),
                    ForgeErrorView::Missing("failed to get default branch"@),
                ),
                Some(Some(_)) => true,
            },
            PayloadView::Unreadable(reason) => fails(
                state.step(reply),
                ForgeErrorView::Undecodable(reason),
            ),
            _ => fails(state.step(reply), ForgeErrorView::UnexpectedPayload),
        },
{
}

/// A new depth is the one given, zero stands for no limit, and all else stays.
pub proof fn depths_are_set(g: GiteaView, depth: usize)
    ensures
        ({
            let commits = g.with_commit_search_depth(depth);
            let tags = g.with_tag_search_depth(depth);
            let limit = if depth == 0 { usize::MAX } else { depth };
            &&& commits.settings.commit_search_depth == limit
            &&& commits.settings.tag_search_depth == g.settings.tag_search_depth
            &&& tags.settings.tag_search_depth == limit
            &&& tags.settings.commit_search_depth == g.settings.commit_search_depth
            &&& stays_but_for_depths(g, commits)
            &&& stays_but_for_depths(g, tags)
        }),
{
}

/// Whether two forges differ in their depths at most.
pub open spec fn stays_but_for_depths(old_forge: GiteaView, new_forge: GiteaView) -> bool {
    &&& new_forge.url == old_forge.url
    &&& new_forge.base_url == old_forge.base_url
    &&& new_forge.default_branch == old_forge.default_branch
    &&& new_forge.release_link_base_url == old_forge.release_link_base_url
    &&& new_forge.compare_link_base_url == old_forge.compare_link_base_url
    &&& new_forge.settings.page_size == old_forge.settings.page_size
    &&& new_forge.settings.pending_label == old_forge.settings.pending_label
    &&& new_forge.settings.legacy_pending_label == old_forge.settings.legacy_pending_label
    &&& new_forge.settings.label_color == old_forge.settings.label_color
    &&& new_forge.settings.config_file == old_forge.settings.config_file
}

} // verus!

//! What the requests of a forge ask for.

use vstd::prelude::*;

use crate::bindings::{joined_url, parsed_url, with_query_pair};
use crate::commits::{commit_page_request, commit_request};
use crate::error::ForgeErrorView;
use crate::gitea::{url_of, with_pair, GiteaView};
use crate::http::{request_to, BodyView, Expect, Method, RequestView};
use crate::labels::label_page_request;
use crate::laws::replies::fails;
use crate::laws::texts::leading_dot_slash_is_taken_off;
use crate::pulls::{pull_page_request, PullKind};
use crate::text::decimal;
use crate::types::{CreatePrRequestView, GetFileContentRequestView, UpdatePrRequestView};
use crate::wire::GiteaModifyFilesView;

verus! {

/// Whether `made` is the request with the given method, body and kind of reply to
/// the URL; or, without a URL, the error that there is none.
pub open spec fn goes_to(
    made: Result<RequestView, ForgeErrorView>,
    method: Method,
    url: Option<Seq<char>>,
    body: BodyView,
    expect: Expect,
) -> bool {
    match url {
        None => made == Err::<RequestView, _>(ForgeErrorView::InvalidUrl),
        Some(url) => {
            &&& made is Ok
            &&& made->Ok_0.method == method
            &&& made->Ok_0.url == url
            &&& made->Ok_0.body == body
            &&& made->Ok_0.expect == expect
        },
    }
}

/// Whether `made` asks for a page of a listing at the URL; or is the error that
/// the URL did not come about.
pub open spec fn asks_for_page(
    made: Result<RequestView, ForgeErrorView>,
    url: Result<Seq<char>, ForgeErrorView>,
    expect: Expect,
) -> bool {
    match url {
        Err(error) => made == Err::<RequestView, _>(error),
        Ok(url) => goes_to(made, Method::Get, Some(url), BodyView::Empty, expect),
    }
}

/// A request has the method, body and kind of reply that it is made with, and goes
/// to its URL; without one there is none.
pub proof fn request_is_made_as_asked(
    method: Method,
    url: Seq<char>,
    error: ForgeErrorView,
    body: BodyView,
    expect: Expect,
)
    ensures
        goes_to(request_to(method, Ok(url), body, expect), method, Some(url), body, expect),
        fails(request_to(method, Err(error), body, expect), error),
{
}

/// A URL is what the text is parsed to; a text that is none is an error.
pub proof fn texts_are_parsed(text: Seq<char>)
    ensures
        match parsed_url(text) {
            Some(url) => url_of(text) == Ok::<_, ForgeErrorView>(url),
            None => fails(url_of(text), ForgeErrorView::InvalidUrl),
        },
{
}

/// An endpoint is what a reference is resolved to behind the URL of the
/// repository.
pub proof fn endpoints_are_resolved(g: GiteaView, reference: Seq<char>)
    ensures
        match joined_url(g.base_url, reference) {
            Some(url) => g.endpoint(reference) == Ok::<_, ForgeErrorView>(url),
            None => fails(g.endpoint(reference), ForgeErrorView::InvalidUrl),
        },
{
}

/// A pair is added to the query of a URL, unless one of the texts is too long to
/// be sent.
pub proof fn pair_is_added(
    url: Seq<char>,
    error: ForgeErrorView,
    name: Seq<char>,
    value: Seq<char>,
)
    ensures
        with_pair(Err(error), name, value) == Err::<Seq<char>, _>(error),
        url.len() <= 65534 && name.len() <= 65534 && value.len() <= 65534 ==> match parsed_url(
            url,
        ) {
            Some(parsed) => with_pair(Ok(url), name, value) == Ok::<_, ForgeErrorView>(
                with_query_pair(parsed, name, value),
            ),
            None => fails(with_pair(Ok(url), name, value), ForgeErrorView::InvalidUrl),
        },
        url.len() > 65534 || name.len() > 65534 || value.len() > 65534
            ==> fails(
            with_pair(Ok(url), name, value),
            ForgeErrorView::UrlTooLong,
        ),
{
}

/// Branches are asked for and deleted under their names.
pub proof fn branch_requests(g: GiteaView, name: Seq<char>)
    ensures
        goes_to(
            g.branch_exists(name),
            Method::Get,
            joined_url(g.base_url, "branches/"@ + name),
            BodyView::Empty,
            Expect::Nothing,
        ),
        goes_to(
            g.delete_branch(name),
            Method::Delete,
            joined_url(g.base_url, "branches/"@ + name),
            BodyView::Empty,
            Expect::Nothing,
        ),
{
    reveal(GiteaView::branch_exists);
    reveal(GiteaView::delete_branch);
}

/// The request for a commit on a branch has the body that it is given.
pub proof fn commit_is_posted(g: GiteaView, body: GiteaModifyFilesView)
    ensures
        goes_to(
            g.modify_files(body),
            Method::Post,
            joined_url(g.base_url, "contents"@),
            BodyView::ModifyFiles(body),
            Expect::CreatedCommit,
        ),
{
    reveal(GiteaView::modify_files);
}

/// A pull request gets the state, or the title and body, that are given, under its
/// own number.
pub proof fn pull_is_patched(
    g: GiteaView,
    number: u64,
    state: Seq<char>,
    title: Seq<char>,
    body: Seq<char>,
)
    ensures
        ({
            let url = joined_url(g.base_url, "pulls/"@ + decimal(number as nat));
            let made = g.set_pr_state(number, state);
            match url {
                None => made == Err::<RequestView, _>(ForgeErrorView::InvalidUrl),
                Some(url) => {
                    &&& made is Ok
                    &&& made->Ok_0.method == Method::Patch
                    &&& made->Ok_0.url == url
                    &&& made->Ok_0.body is UpdatePullState
                    &&& made->Ok_0.body->UpdatePullState_0.state == state
                    &&& made->Ok_0.expect == Expect::Nothing
                },
            }
        }),
        ({
            let url = joined_url(g.base_url, "pulls/"@ + decimal(number as nat));
            let made = g.update_pr(UpdatePrRequestView { pr_number: number, title, body });
            match url {
                None => made == Err::<RequestView, _>(ForgeErrorView::InvalidUrl),
                Some(url) => {
                    &&& made is Ok
                    &&& made->Ok_0.method == Method::Patch
                    &&& made->Ok_0.url == url
                    &&& made->Ok_0.body is UpdatePullBody
                    &&& made->Ok_0.body->UpdatePullBody_0.title == title
                    &&& made->Ok_0.body->UpdatePullBody_0.body == body
                    &&& made->Ok_0.expect == Expect::Nothing
                },
            }
        }),
{
    reveal(GiteaView::set_pr_state);
}

/// A new pull request brings the head branch into the base branch, under the title
/// and body given.
pub proof fn pull_is_posted(g: GiteaView, req: CreatePrRequestView)
    ensures
        match joined_url(g.base_url, "pulls"@) {
            None => g.create_pr(req) == Err::<RequestView, _>(ForgeErrorView::InvalidUrl),
            Some(url) => {
                let made = g.create_pr(req);
                &&& made is Ok
                &&& made->Ok_0.method == Method::Post
                &&& made->Ok_0.url == url
                &&& made->Ok_0.body is CreatePull
                &&& made->Ok_0.body->CreatePull_0.title == req.title
                &&& made->Ok_0.body->CreatePull_0.body == req.body
                &&& made->Ok_0.body->CreatePull_0.head == req.head_branch
                &&& made->Ok_0.body->CreatePull_0.base == req.base_branch
                &&& made->Ok_0.expect == Expect::Pull
            },
        },
{
}

/// The labels of a pull request are put by their numbers, all of them and in their
/// order.
pub proof fn labels_are_put(g: GiteaView, number: u64, labels: Seq<u64>)
    ensures
        match joined_url(g.base_url, "issues/"@ + decimal(number as nat) + "/labels"@) {
            None => g.set_pr_labels(number, labels) == Err::<RequestView, _>(
                ForgeErrorView::InvalidUrl,
            ),
            Some(url) => {
                let made = g.set_pr_labels(number, labels);
                &&& made is Ok
                &&& made->Ok_0.method == Method::Put
                &&& made->Ok_0.url == url
                &&& made->Ok_0.body is UpdatePullLabels
                &&& made->Ok_0.body->UpdatePullLabels_0.labels == labels
                &&& made->Ok_0.expect == Expect::Nothing
            },
        },
{
    reveal(GiteaView::set_pr_labels);
}

/// A new label has the name given and the color of the settings.
pub proof fn label_is_posted(g: GiteaView, name: Seq<char>)
    ensures
        match joined_url(g.base_url, "labels"@) {
            None => g.create_label(name) == Err::<RequestView, _>(ForgeErrorView::InvalidUrl),
            Some(url) => {
                let made = g.create_label(name);
                &&& made is Ok
                &&& made->Ok_0.method == Method::Post
                &&& made->Ok_0.url == url
                &&& made->Ok_0.body is CreateLabel
                &&& made->Ok_0.body->CreateLabel_0.name == name
                &&& made->Ok_0.body->CreateLabel_0.color == g.settings.label_color
                &&& made->Ok_0.expect == Expect::Label
            },
        },
{
}

/// Tags, and the releases of tags, are asked for under the names of the tags.
pub proof fn tag_requests(g: GiteaView, name: Seq<char>)
    ensures
        goes_to(
            g.get_tag(name),
            Method::Get,
            joined_url(g.base_url, "tags/"@ + name),
            BodyView::Empty,
            Expect::Tag,
        ),
        goes_to(
            g.get_release(name),
            Method::Get,
            joined_url(g.base_url, "releases/tags/"@ + name),
            BodyView::Empty,
            Expect::Release,
        ),
{
    reveal(GiteaView::get_tag);
    reveal(GiteaView::get_release);
}

/// A new tag has the name given, on the commit given.
pub proof fn tag_is_posted(g: GiteaView, name: Seq<char>, sha: Seq<char>)
    ensures
        match joined_url(g.base_url, "tags"@) {
            None => g.create_tag(name, sha) == Err::<RequestView, _>(ForgeErrorView::InvalidUrl),
            Some(url) => {
                let made = g.create_tag(name, sha);
                &&& made is Ok
                &&& made->Ok_0.method == Method::Post
                &&& made->Ok_0.url == url
                &&& made->Ok_0.body is CreateTag
                &&& made->Ok_0.body->CreateTag_0.tag_name == name
                &&& made->Ok_0.body->CreateTag_0.target == sha
                &&& made->Ok_0.expect == Expect::Nothing
            },
        },
{
    reveal(GiteaView::create_tag);
}

/// A new release is that of the tag, on the commit and with the notes given, under
/// the name of the tag; it is neither a draft nor a pre-release.
pub proof fn release_is_posted(g: GiteaView, tag: Seq<char>, sha: Seq<char>, notes: Seq<char>)
    ensures
        match joined_url(g.base_url, "releases"@) {
            None => g.create_release(tag, sha, notes) == Err::<RequestView, _>(
                ForgeErrorView::InvalidUrl,
            ),
            Some(url) => {
                let made = g.create_release(tag, sha, notes);
                &&& made is Ok
                &&& made->Ok_0.method == Method::Post
                &&& made->Ok_0.url == url
                &&& made->Ok_0.body is CreateRelease
                &&& made->Ok_0.body->CreateRelease_0.tag_name == tag
                &&& made->Ok_0.body->CreateRelease_0.target_commitish == sha
                &&& made->Ok_0.body->CreateRelease_0.name == tag
                &&& made->Ok_0.body->CreateRelease_0.body == notes
                &&& !made->Ok_0.body->CreateRelease_0.draft
                &&& !made->Ok_0.body->CreateRelease_0.prerelease
                &&& made->Ok_0.expect == Expect::Nothing
            },
        },
{
}

/// The content of a file is asked for under its path, on the branch where one is
/// given.
pub proof fn content_is_asked_for(g: GiteaView, branch: Seq<char>, path: Seq<char>)
    ensures
        goes_to(
            g.get_file_content(GetFileContentRequestView { branch: None, path }),
            Method::Get,
            joined_url(g.base_url, "raw/"@ + path),
            BodyView::Empty,
            Expect::Text,
        ),
        goes_to(
            g.get_file_content(GetFileContentRequestView { branch: Some(branch), path }),
            Method::Get,
            if joined_url(g.base_url, "raw/"@ + path) is Some {
                joined_url(g.base_url, "raw/"@ + path + "?ref="@ + branch)
            } else {
                None
            },
            BodyView::Empty,
            Expect::Text,
        ),
{
    reveal(GiteaView::get_file_content);
}

/// The configuration is the file that the settings name, on the branch where one
/// is given.
pub proof fn configuration_is_asked_for(g: GiteaView, branch: Seq<char>)
    ensures
        ({
            let path = g.settings.config_file;
            &&& goes_to(
                g.load_config(None),
                Method::Get,
                joined_url(g.base_url, "raw/"@ + path),
                BodyView::Empty,
                Expect::Text,
            )
            &&& goes_to(
                g.load_config(Some(branch)),
                Method::Get,
                if joined_url(g.base_url, "raw/"@ + path) is Some {
                    joined_url(g.base_url, "raw/"@ + path + "?ref="@ + branch)
                } else {
                    None
                },
                BodyView::Empty,
                Expect::Text,
            )
        }),
{
    reveal(GiteaView::get_file_content);
}

/// The hash of a file is asked for under its path, a leading `./` taken off.
pub proof fn file_hash_is_asked_for(g: GiteaView, path: Seq<char>)
    ensures
        goes_to(
            g.get_file_sha("./"@ + path),
            Method::Get,
            joined_url(g.base_url, "contents/"@ + path),
            BodyView::Empty,
            Expect::Json,
        ),
        !"./"@.is_prefix_of(path) ==> goes_to(
            g.get_file_sha(path),
            Method::Get,
            joined_url(g.base_url, "contents/"@ + path),
            BodyView::Empty,
            Expect::Json,
        ),
{
    reveal(GiteaView::get_file_sha);
    leading_dot_slash_is_taken_off(path);
}

/// A tag is compared with a branch from the branch to the tag.
pub proof fn tag_is_compared(g: GiteaView, sha: Seq<char>, branch: Seq<char>)
    ensures
        goes_to(
            g.is_tag_ancestor_of_branch(sha, branch),
            Method::Get,
            parsed_url(g.base_url + "compare/"@ + branch + "..."@ + sha),
            BodyView::Empty,
            Expect::Json,
        ),
{
    reveal(GiteaView::is_tag_ancestor_of_branch);
}

/// The URL of an endpoint, or the error that there is none.
pub open spec fn endpoint_url(g: GiteaView, reference: Seq<char>) -> Result<
    Seq<char>,
    ForgeErrorView,
> {
    match joined_url(g.base_url, reference) {
        Some(url) => Ok(url),
        None => Err(ForgeErrorView::InvalidUrl),
    }
}

/// Pages of labels and of tags are asked for by their numbers, with the page size
/// of the settings.
pub proof fn pages_are_asked_for(g: GiteaView, page: u64)
    ensures
        asks_for_page(
            label_page_request(g, page),
            with_pair(
                with_pair(
                    endpoint_url(g, "labels"@),
                    "limit"@,
                    decimal(g.settings.page_size as nat),
                ),
                "page"@,
                decimal(page as nat),
            ),
            Expect::Labels,
        ),
        asks_for_page(
            g.tag_page(page),
            with_pair(
                with_pair(endpoint_url(g, "tags"@), "limit"@, decimal(g.settings.page_size as nat)),
                "page"@,
                decimal(page as nat),
            ),
            Expect::Tags,
        ),
{
    reveal(label_page_request);
    reveal(GiteaView::tag_page);
}

/// Pages of pull requests are asked for by the number of a label, open or closed
/// ones.
pub proof fn pull_pages_are_asked_for(g: GiteaView, label: u64, page: u64)
    ensures
        forall|kind: PullKind|
            asks_for_page(
                #[trigger] pull_page_request(g, kind, label, page),
                with_pair(
                    with_pair(
                        with_pair(
                            with_pair(
                                endpoint_url(g, "pulls"@),
                                "state"@,
                                if kind == PullKind::Open {
                                    "open"@
                                } else {
                                    "closed"@
                                },
                            ),
                            "labels"@,
                            decimal(label as nat),
                        ),
                        "limit"@,
                        decimal(g.settings.page_size as nat),
                    ),
                    "page"@,
                    decimal(page as nat),
                ),
                Expect::Pulls,
            ),
{
    reveal(pull_page_request);
}

/// The commit to stop at is asked for under its hash.
pub proof fn commit_is_asked_for(g: GiteaView, sha: Seq<char>)
    ensures
        goes_to(
            commit_request(g, sha),
            Method::Get,
            joined_url(g.base_url, "git/commits/"@ + sha),
            BodyView::Empty,
            Expect::Commit,
        ),
{
    reveal(commit_request);
}

/// The URL of a page of commits of any branch and any time; no page has more than
/// the search depth.
pub open spec fn commit_page_url(g: GiteaView, page: u64) -> Result<Seq<char>, ForgeErrorView> {
    with_pair(
        with_pair(
            endpoint_url(g, "commits"@),
            "limit"@,
            decimal(
                if g.settings.commit_search_depth < g.settings.page_size {
                    g.settings.commit_search_depth as nat
                } else {
                    g.settings.page_size as nat
                },
            ),
        ),
        "page"@,
        decimal(page as nat),
    )
}

/// Pages of commits are asked for by their numbers, of the branch and since the
/// time that are given.
pub proof fn commit_pages_are_asked_for(
    g: GiteaView,
    branch: Seq<char>,
    since: Seq<char>,
    page: u64,
)
    ensures
        ({
            let url = commit_page_url(g, page);
            let of_branch = with_pair(url, "sha"@, branch);
            &&& asks_for_page(commit_page_request(g, None, None, page), url, Expect::Commits)
            &&& asks_for_page(
                commit_page_request(g, Some(branch), None, page),
                of_branch,
                Expect::Commits,
            )
            &&& asks_for_page(
                commit_page_request(g, None, Some(since), page),
                with_pair(url, "since"@, since),
                Expect::Commits,
            )
            &&& asks_for_page(
                commit_page_request(g, Some(branch), Some(since), page),
                with_pair(of_branch, "since"@, since),
                Expect::Commits,
            )
        }),
{
    reveal(commit_page_request);
}

} // verus!

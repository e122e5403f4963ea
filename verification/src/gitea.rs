//! The Gitea forge of one repository.

use vstd::prelude::*;

use crate::bindings::{
    append_query_pair, join_url, joined_url, json_string, json_string_member, parse_url, parsed_url,
    with_query_pair, MAX_URL_LEN,
};
use crate::error::{outcome, ForgeError, ForgeErrorView};
use crate::http::{
    make_request, request_to, send, sending, Body, BodyView, Expect, Flow, FlowView, Method,
    Progress, Reply, ReplyView,
};
use crate::text::{concat, decimal, decimal_text};
use crate::types::{ForgeSettings, ForgeSettingsView, RepoUrl, RepoUrlView};

verus! {

/// The Gitea forge of one repository.
#[derive(Debug)]
pub struct Gitea {
    url: RepoUrl,
    settings: ForgeSettings,
    base_url: String,
    default_branch: String,
    release_link_base_url: String,
    compare_link_base_url: String,
}

/// The value of a [`Gitea`].
#[verifier::ext_equal]
pub struct GiteaView {
    pub url: RepoUrlView,
    pub settings: ForgeSettingsView,
    /// The URL of the repository in the API.
    pub base_url: Seq<char>,
    pub default_branch: Seq<char>,
    pub release_link_base_url: Seq<char>,
    pub compare_link_base_url: Seq<char>,
}

impl View for Gitea {
    type V = GiteaView;

    closed spec fn view(&self) -> GiteaView {
        GiteaView {
            url: self.url.deep_view(),
            settings: self.settings.deep_view(),
            base_url: self.base_url@,
            default_branch: self.default_branch@,
            release_link_base_url: self.release_link_base_url@,
            compare_link_base_url: self.compare_link_base_url@,
        }
    }
}

impl DeepView for Gitea {
    type V = GiteaView;

    open spec fn deep_view(&self) -> GiteaView {
        self@
    }
}

/// A forge that waits to learn the default branch of its repository.
#[derive(Debug)]
pub struct GiteaSetup {
    url: RepoUrl,
    settings: ForgeSettings,
    authorization: String,
    base_url: String,
    release_link_base_url: String,
    compare_link_base_url: String,
}

/// The value of a [`GiteaSetup`].
#[verifier::ext_equal]
pub struct GiteaSetupView {
    pub url: RepoUrlView,
    pub settings: ForgeSettingsView,
    /// The header that every request carries.
    pub authorization: Seq<char>,
    pub base_url: Seq<char>,
    pub release_link_base_url: Seq<char>,
    pub compare_link_base_url: Seq<char>,
}

impl View for GiteaSetup {
    type V = GiteaSetupView;

    closed spec fn view(&self) -> GiteaSetupView {
        GiteaSetupView {
            url: self.url.deep_view(),
            settings: self.settings.deep_view(),
            authorization: self.authorization@,
            base_url: self.base_url@,
            release_link_base_url: self.release_link_base_url@,
            compare_link_base_url: self.compare_link_base_url@,
        }
    }
}

impl DeepView for GiteaSetup {
    type V = GiteaSetupView;

    open spec fn deep_view(&self) -> GiteaSetupView {
        self@
    }
}

/// The URL that a text denotes, or the error that it denotes none.
pub open spec fn url_of(text: Seq<char>) -> Result<Seq<char>, ForgeErrorView> {
    match parsed_url(text) {
        Some(url) => Ok(url),
        None => Err(ForgeErrorView::InvalidUrl),
    }
}

/// Reads a text as a URL.
pub(crate) fn read_url(text: &str) -> (res: Result<String, ForgeError>)
    ensures
        outcome(res) == url_of(text@),
{
    match parse_url(text) {
        Ok(url) => Ok(url),
        Err(error) => Err(ForgeError::InvalidUrl(error)),
    }
}

/// A URL, where it came about, with one more pair in its query.
pub open spec fn with_pair(
    url: Result<Seq<char>, ForgeErrorView>,
    name: Seq<char>,
    value: Seq<char>,
) -> Result<Seq<char>, ForgeErrorView> {
    match url {
        Err(error) => Err(error),
        Ok(url) => if url.len() > MAX_URL_LEN || name.len() > MAX_URL_LEN || value.len()
            > MAX_URL_LEN {
            Err(ForgeErrorView::UrlTooLong)
        } else {
            match parsed_url(url) {
                Some(parsed) => Ok(with_query_pair(parsed, name, value)),
                None => Err(ForgeErrorView::InvalidUrl),
            }
        },
    }
}

/// Adds a pair to the query of a URL, where that came about.
pub(crate) fn add_pair(url: Result<String, ForgeError>, name: &str, value: &str) -> (res: Result<
    String,
    ForgeError,
>)
    ensures
        outcome(res) == with_pair(outcome(url), name@, value@),
{
    let url = match url {
        Ok(url) => url,
        Err(error) => return Err(error),
    };
    if url.as_str().unicode_len() > MAX_URL_LEN || name.unicode_len() > MAX_URL_LEN
        || value.unicode_len() > MAX_URL_LEN {
        return Err(ForgeError::UrlTooLong);
    }
    match append_query_pair(url.as_str(), name, value) {
        Ok(url) => Ok(url),
        Err(error) => Err(ForgeError::InvalidUrl(error)),
    }
}

/// Whether a text can be the value of an HTTP header: of the control characters
/// of ASCII only the tab may stand in it.
pub open spec fn is_header_text(text: Seq<char>) -> bool {
    forall|i: int| 0 <= i < text.len() ==> is_header_char(#[trigger] text[i])
}

/// Whether a character may stand in the value of an HTTP header.
pub open spec fn is_header_char(c: char) -> bool {
    c == '\t' || (c >= ' ' && c != '\x7f')
}

/// Tells whether a text can be the value of an HTTP header.
pub fn header_text(text: &str) -> (res: bool)
    ensures
        res == is_header_text(text@),
{
    for c in it: text.chars()
        invariant
            forall|i: int| 0 <= i < it.index() ==> is_header_char(#[trigger] text@[i]),
            it.seq() == text@,
    {
        if c != '\t' && (c < ' ' || c == '\x7f') {
            return false;
        }
    }
    true
}

impl RepoUrlView {
    /// The text of the link to a page of the repository.
    pub open spec fn link_text(self, page: Seq<char>) -> Seq<char> {
        self.link_base_url + "/"@ + self.owner + "/"@ + self.name + page
    }

    /// The text of the URL of the repository in the API.
    pub open spec fn api_text(self) -> Seq<char> {
        let host = match self.port {
            Some(port) => self.scheme + "://"@ + self.host + ":"@ + decimal(port as nat),
            None => self.scheme + "://"@ + self.host,
        };
        host + "/api/v1/repos/"@ + self.owner + "/"@ + self.name + "/"@
    }
}

impl RepoUrl {
    /// Writes the link to a page of the repository.
    fn link_text(&self, page: &str) -> (res: String)
        ensures
            res@ == self.deep_view().link_text(page@),
    {
        let mut text = concat(self.link_base_url.as_str(), "/");
        text.append(self.owner.as_str());
        text.append("/");
        text.append(self.name.as_str());
        text.append(page);
        text
    }

    /// Writes the URL of the repository in the API.
    fn api_text(&self) -> (res: String)
        ensures
            res@ == self.deep_view().api_text(),
    {
        let mut text = concat(self.scheme.as_str(), "://");
        text.append(self.host.as_str());
        if let Some(port) = self.port {
            text.append(":");
            text.append(decimal_text(port as u64).as_str());
        }
        text.append("/api/v1/repos/");
        text.append(self.owner.as_str());
        text.append("/");
        text.append(self.name.as_str());
        text.append("/");
        text
    }
}

impl GiteaSetupView {
    /// How the setup of a forge starts: the links are made, the token is
    /// checked, and the repository is asked for.
    pub open spec fn start(
        url: RepoUrlView,
        token: Seq<char>,
        settings: ForgeSettingsView,
    ) -> Progress<GiteaSetupView, GiteaView> {
        GiteaSetupView::with_links(
            url,
            token,
            settings,
            url_of(url.link_text("/releases/"@)),
            url_of(url.link_text("/compare/"@)),
            url_of(url.api_text()),
        )
    }

    /// How the setup of a forge starts once its links have been made.
    pub open spec fn with_links(
        url: RepoUrlView,
        token: Seq<char>,
        settings: ForgeSettingsView,
        release_link_base_url: Result<Seq<char>, ForgeErrorView>,
        compare_link_base_url: Result<Seq<char>, ForgeErrorView>,
        base_url: Result<Seq<char>, ForgeErrorView>,
    ) -> Progress<GiteaSetupView, GiteaView> {
        let authorization = "token "@ + token;
        match (release_link_base_url, compare_link_base_url, base_url) {
            (Err(error), _, _) => Err(error),
            (_, Err(error), _) => Err(error),
            (Ok(release_link_base_url), Ok(compare_link_base_url), base_url) => if !is_header_text(
                authorization,
            ) {
                Err(ForgeErrorView::InvalidHeader)
            } else {
                match base_url {
                    Err(error) => Err(error),
                    Ok(base_url) => sending(
                        request_to(Method::Get, Ok(base_url), BodyView::Empty, Expect::Json),
                        GiteaSetupView {
                            url,
                            settings,
                            authorization,
                            base_url,
                            release_link_base_url,
                            compare_link_base_url,
                        },
                    ),
                }
            },
        }
    }

    /// How the answer to the question for the repository is read.
    pub open spec fn step(self, reply: ReplyView) -> Progress<GiteaSetupView, GiteaView> {
        match reply.required_text("default_branch"@, "failed to get default branch"@) {
            Err(error) => Err(error),
            Ok(default_branch) => Ok(
                FlowView::Done(
                    GiteaView {
                        url: self.url,
                        settings: self.settings,
                        base_url: self.base_url,
                        default_branch,
                        release_link_base_url: self.release_link_base_url,
                        compare_link_base_url: self.compare_link_base_url,
                    },
                ),
            ),
        }
    }
}

impl ReplyView {
    /// The text under a key of the JSON document that the reply is, or the error
    /// that it has none.
    pub open spec fn required_text(self, key: Seq<char>, missing: Seq<char>) -> Result<
        Seq<char>,
        ForgeErrorView,
    > {
        match self.json() {
            Err(error) => Err(error),
            Ok(text) => match json_string(text, key) {
                None => Err(ForgeErrorView::InvalidJson),
                Some(value) => required(value, missing),
            },
        }
    }
}

/// A text that must be there, or the error that it is not.
pub open spec fn required(value: Option<Seq<char>>, missing: Seq<char>) -> Result<
    Seq<char>,
    ForgeErrorView,
> {
    match value {
        Some(value) => Ok(value),
        None => Err(ForgeErrorView::Missing(missing)),
    }
}

/// Demands a text.
pub fn require_text(value: Option<String>, missing: &str) -> (res: Result<String, ForgeError>)
    ensures
        outcome(res) == required(value.deep_view(), missing@),
{
    match value {
        Some(value) => Ok(value),
        None => Err(ForgeError::Missing(missing.to_owned())),
    }
}

impl Reply {
    /// Reads the text under a key of the JSON document that the reply is.
    pub(crate) fn required_text(self, key: &str, missing: &str) -> (res: Result<
        String,
        ForgeError,
    >)
        ensures
            outcome(res) == self.deep_view().required_text(key@, missing@),
    {
        let text = match self.json() {
            Ok(text) => text,
            Err(error) => return Err(error),
        };
        assert(text.deep_view() =~= text@);
        match json_string_member(text.as_slice(), key) {
            Err(error) => Err(ForgeError::InvalidJson(error)),
            Ok(value) => require_text(value, missing),
        }
    }
}

impl GiteaSetup {
    /// Starts the setup of a forge whose links have been made: checks the token,
    /// and asks for the repository.
    pub fn with_links(
        url: RepoUrl,
        token: &str,
        settings: ForgeSettings,
        release_link_base_url: Result<String, ForgeError>,
        compare_link_base_url: Result<String, ForgeError>,
        base_url: Result<String, ForgeError>,
    ) -> (res: Result<Flow<GiteaSetup, Gitea>, ForgeError>)
        ensures
            outcome(res) == GiteaSetupView::with_links(
                url.deep_view(),
                token@,
                settings.deep_view(),
                outcome(release_link_base_url),
                outcome(compare_link_base_url),
                outcome(base_url),
            ),
    {
        let release_link_base_url = match release_link_base_url {
            Ok(link) => link,
            Err(error) => return Err(error),
        };
        let compare_link_base_url = match compare_link_base_url {
            Ok(link) => link,
            Err(error) => return Err(error),
        };
        let authorization = concat("token ", token);
        if !header_text(authorization.as_str()) {
            return Err(ForgeError::InvalidHeader);
        }
        let base_url = match base_url {
            Ok(base_url) => base_url,
            Err(error) => return Err(error),
        };
        send(
            make_request(Method::Get, Ok(base_url.clone()), Body::Empty, Expect::Json),
            GiteaSetup {
                url,
                settings,
                authorization,
                base_url,
                release_link_base_url,
                compare_link_base_url,
            },
        )
    }

    /// The value of the header `Authorization` that every request carries.
    pub fn authorization(&self) -> (res: String)
        ensures
            res@ == self@.authorization,
    {
        self.authorization.clone()
    }

    /// Reads the answer to the question for the repository.
    pub fn on_reply(self, reply: Reply) -> (res: Result<Flow<GiteaSetup, Gitea>, ForgeError>)
        ensures
            outcome(res) == self@.step(reply.deep_view()),
    {
        match reply.required_text("default_branch", "failed to get default branch") {
            Err(error) => Err(error),
            Ok(default_branch) => Ok(
                Flow::Done(
                    Gitea {
                        url: self.url,
                        settings: self.settings,
                        base_url: self.base_url,
                        default_branch,
                        release_link_base_url: self.release_link_base_url,
                        compare_link_base_url: self.compare_link_base_url,
                    },
                ),
            ),
        }
    }
}

impl GiteaView {
    /// The URL of an endpoint of the repository.
    pub open spec fn endpoint(self, reference: Seq<char>) -> Result<Seq<char>, ForgeErrorView> {
        match joined_url(self.base_url, reference) {
            Some(url) => Ok(url),
            None => Err(ForgeErrorView::InvalidUrl),
        }
    }

    /// The URL of a page of a listing.
    pub open spec fn page_url(self, reference: Seq<char>, page: u64) -> Result<
        Seq<char>,
        ForgeErrorView,
    > {
        with_pair(
            with_pair(
                self.endpoint(reference),
                "limit"@,
                decimal(self.settings.page_size as nat),
            ),
            "page"@,
            decimal(page as nat),
        )
    }

    /// The forge with another depth of the commit search; zero stands for no
    /// limit.
    pub open spec fn with_commit_search_depth(self, depth: usize) -> GiteaView {
        GiteaView {
            settings: ForgeSettingsView {
                commit_search_depth: if depth == 0 { usize::MAX } else { depth },
                ..self.settings
            },
            ..self
        }
    }

    /// The forge with another depth of the tag search; zero stands for no limit.
    pub open spec fn with_tag_search_depth(self, depth: usize) -> GiteaView {
        GiteaView {
            settings: ForgeSettingsView {
                tag_search_depth: if depth == 0 { usize::MAX } else { depth },
                ..self.settings
            },
            ..self
        }
    }
}

impl Gitea {
    /// Starts the setup of a forge: makes the links into its pages, checks the
    /// token, and asks for the repository.
    pub fn new(url: RepoUrl, token: &str, settings: ForgeSettings) -> (res: Result<
        Flow<GiteaSetup, Gitea>,
        ForgeError,
    >)
        ensures
            outcome(res) == GiteaSetupView::start(url.deep_view(), token@, settings.deep_view()),
    {
        let release_link_base_url = read_url(url.link_text("/releases/").as_str());
        let compare_link_base_url = read_url(url.link_text("/compare/").as_str());
        let base_url = read_url(url.api_text().as_str());
        GiteaSetup::with_links(
            url,
            token,
            settings,
            release_link_base_url,
            compare_link_base_url,
            base_url,
        )
    }

    /// The settings of the forge.
    pub fn settings(&self) -> (res: &ForgeSettings)
        ensures
            res.deep_view() == self@.settings,
    {
        &self.settings
    }

    /// The URL of the repository in the API.
    pub(crate) fn base_url(&self) -> (res: &str)
        ensures
            res@ == self@.base_url,
    {
        self.base_url.as_str()
    }

    /// The name of the repository.
    pub fn repo_name(&self) -> (res: String)
        ensures
            res@ == self@.url.name,
    {
        self.url.name.clone()
    }

    /// What the link to the page of a release starts with.
    pub fn release_link_base_url(&self) -> (res: String)
        ensures
            res@ == self@.release_link_base_url,
    {
        self.release_link_base_url.clone()
    }

    /// What the link to a comparison starts with.
    pub fn compare_link_base_url(&self) -> (res: String)
        ensures
            res@ == self@.compare_link_base_url,
    {
        self.compare_link_base_url.clone()
    }

    /// The default branch of the repository.
    pub fn default_branch(&self) -> (res: String)
        ensures
            res@ == self@.default_branch,
    {
        self.default_branch.clone()
    }

    /// Sets how many commits are looked at for a first release; zero takes the
    /// limit away.
    pub fn set_commit_search_depth(&mut self, depth: usize)
        ensures
            final(self)@ == old(self)@.with_commit_search_depth(depth),
    {
        self.settings.commit_search_depth = if depth == 0 { usize::MAX } else { depth };
    }

    /// Sets how many tags are looked at; zero takes the limit away.
    pub fn set_tag_search_depth(&mut self, depth: usize)
        ensures
            final(self)@ == old(self)@.with_tag_search_depth(depth),
    {
        self.settings.tag_search_depth = if depth == 0 { usize::MAX } else { depth };
    }

    /// Makes the URL of an endpoint of the repository.
    pub(crate) fn endpoint(&self, reference: &str) -> (res: Result<String, ForgeError>)
        ensures
            outcome(res) == self@.endpoint(reference@),
    {
        match join_url(self.base_url.as_str(), reference) {
            Ok(url) => Ok(url),
            Err(error) => Err(ForgeError::InvalidUrl(error)),
        }
    }

    /// Makes the URL of a page of a listing.
    pub(crate) fn page_url(&self, reference: &str, page: u64) -> (res: Result<String, ForgeError>)
        ensures
            outcome(res) == self@.page_url(reference@, page),
    {
        let limit = decimal_text(self.settings.page_size as u64);
        let url = add_pair(self.endpoint(reference), "limit", limit.as_str());
        add_pair(url, "page", decimal_text(page).as_str())
    }
}

} // verus!

//! Tags that name versions.

use vstd::prelude::*;

use crate::bindings::{
    check_regex, json_u64, json_u64_member, parse_rfc3339, parse_semver, regex_compiles,
    regex_is_match, regex_matches, regex_remove_all, regex_removed, rfc3339_seconds, semver_parts,
};
use crate::error::{outcome, ForgeError, ForgeErrorView};
use crate::gitea::{read_url, url_of, Gitea, GiteaView};
use crate::http::{
    done, make_request, request_to, send, sending, Body, BodyView, Expect, Flow, Method, Progress,
    Reply, ReplyView, Request, RequestView,
};
use crate::labels::{next_page, turn_page};
use crate::text::concat;
use crate::types::{SemVer, SemVerView, Tag, TagView};
use crate::wire::{GiteaTag, GiteaTagView};

verus! {

/// The semantic version that a text denotes, if it does.
pub open spec fn semver_of(text: Seq<char>) -> Option<SemVerView> {
    match semver_parts(text) {
        Some((major, minor, patch, pre, build)) => Some(
            SemVerView { major, minor, patch, pre, build },
        ),
        None => None,
    }
}

/// The version that a tag names behind a prefix, which is a regular expression.
pub open spec fn version_of(pattern: Seq<char>, name: Seq<char>) -> Option<SemVerView> {
    if regex_matches(pattern, name) {
        semver_of(regex_removed(pattern, name))
    } else {
        None
    }
}

/// Reads the version that a tag names behind a prefix.
fn read_version(pattern: &str, name: &str) -> (res: Result<Option<SemVer>, ForgeError>)
    ensures
        outcome(res) == if regex_compiles(pattern@) {
            Ok(version_of(pattern@, name@))
        } else {
            Err(ForgeErrorView::InvalidPattern)
        },
{
    match regex_is_match(pattern, name) {
        Err(error) => Err(ForgeError::InvalidPattern(error)),
        Ok(false) => Ok(None),
        Ok(true) => match regex_remove_all(pattern, name) {
            Err(error) => Err(ForgeError::InvalidPattern(error)),
            Ok(version) => match parse_semver(version.as_str()) {
                Ok(version) => Ok(Some(version)),
                Err(_) => Ok(None),
            },
        },
    }
}

/// A tag that names a version.
pub open spec fn version_tag(tag: GiteaTagView, semver: SemVerView) -> TagView {
    dated_tag(tag, semver, rfc3339_seconds(tag.commit.created))
}

/// A tag that names a version, with its date where that could be read.
pub open spec fn dated_tag(
    tag: GiteaTagView,
    semver: SemVerView,
    timestamp: Option<i64>,
) -> TagView {
    TagView { name: tag.name, semver, sha: tag.commit.sha, timestamp }
}

/// Makes a tag that names a version, whose date has been read.
pub fn date_tag(tag: GiteaTag, semver: SemVer, timestamp: Option<i64>) -> (res: Tag)
    ensures
        res.deep_view() == dated_tag(tag.deep_view(), semver.deep_view(), timestamp),
{
    Tag { name: tag.name, semver, sha: tag.commit.sha, timestamp }
}

/// Makes a tag that names a version.
fn make_tag(tag: GiteaTag, semver: SemVer) -> (res: Tag)
    ensures
        res.deep_view() == version_tag(tag.deep_view(), semver.deep_view()),
{
    let timestamp = match parse_rfc3339(tag.commit.created.as_str()) {
        Ok(seconds) => Some(seconds),
        Err(_) => None,
    };
    date_tag(tag, semver, timestamp)
}

/// What a look through tags comes to.
#[derive(Debug)]
pub enum Scan {
    /// The first tag that names a version, how many tags have been looked at
    /// with it, and the tags behind it.
    Version { tag: GiteaTag, semver: SemVer, examined: usize, later: Vec<GiteaTag> },
    /// No such tag is left. How many have been looked at, and whether no more may
    /// be.
    End { examined: usize, exhausted: bool },
}

/// The value of a [`Scan`].
#[verifier::ext_equal]
pub enum ScanView {
    Version { tag: GiteaTagView, semver: SemVerView, examined: usize, later: Seq<GiteaTagView> },
    End { examined: usize, exhausted: bool },
}

impl DeepView for Scan {
    type V = ScanView;

    open spec fn deep_view(&self) -> ScanView {
        match self {
            Scan::Version { tag, semver, examined, later } => ScanView::Version {
                tag: tag.deep_view(),
                semver: semver.deep_view(),
                examined: *examined,
                later: later.deep_view(),
            },
            Scan::End { examined, exhausted } => ScanView::End {
                examined: *examined,
                exhausted: *exhausted,
            },
        }
    }
}

/// Looks through tags for one that names a version behind the prefix, as long as
/// fewer than `depth` have been looked at.
pub open spec fn scan(
    depth: usize,
    pattern: Seq<char>,
    examined: usize,
    tags: Seq<GiteaTagView>,
) -> Result<ScanView, ForgeErrorView>
    decreases tags.len(),
{
    if tags.len() == 0 {
        Ok(ScanView::End { examined, exhausted: false })
    } else if examined >= depth {
        Ok(ScanView::End { examined, exhausted: true })
    } else if !regex_compiles(pattern) {
        Err(ForgeErrorView::InvalidPattern)
    } else {
        match version_of(pattern, tags.first().name) {
            Some(semver) => Ok(
                ScanView::Version {
                    tag: tags.first(),
                    semver,
                    examined: (examined + 1) as usize,
                    later: tags.drop_first(),
                },
            ),
            None => scan(depth, pattern, (examined + 1) as usize, tags.drop_first()),
        }
    }
}

/// Looks through tags.
fn scan_tags(depth: usize, pattern: &str, examined: usize, tags: Vec<GiteaTag>) -> (res: Result<
    Scan,
    ForgeError,
>)
    ensures
        outcome(res) == scan(depth, pattern@, examined, tags.deep_view()),
{
    let ghost whole = scan(depth, pattern@, examined, tags.deep_view());
    let mut count: usize = examined;
    let mut rest = tags;
    while rest.len() > 0
        invariant
            whole == scan(depth, pattern@, examined, tags.deep_view()),
            whole == scan(depth, pattern@, count, rest.deep_view()),
        decreases rest.len(),
    {
        if count >= depth {
            return Ok(Scan::End { examined: count, exhausted: true });
        }
        let ghost before = rest.deep_view();
        let tag = rest.remove(0);
        count = count + 1;
        assert(tag.deep_view() == before.first());
        assert(rest.deep_view() =~= before.drop_first());
        match read_version(pattern, tag.name.as_str()) {
            Err(error) => return Err(error),
            Ok(Some(semver)) => {
                return Ok(Scan::Version { tag, semver, examined: count, later: rest });
            },
            Ok(None) => {},
        }
    }
    Ok(Scan::End { examined: count, exhausted: false })
}

impl ReplyView {
    /// Whether a comparison has no commit that its base lacks.
    pub open spec fn is_ancestor(self) -> Result<bool, ForgeErrorView> {
        match self.json() {
            Err(error) => Err(error),
            Ok(text) => match json_u64(text, "total_commits"@) {
                None => Err(ForgeErrorView::InvalidJson),
                Some(count) => Ok(no_commits(count)),
            },
        }
    }
}

/// Whether a comparison counts no commit.
pub open spec fn no_commits(count: Option<u64>) -> bool {
    count == Some(0u64)
}

/// Tells whether a comparison counts no commit; one without a count may have
/// some.
pub fn counts_none(count: Option<u64>) -> (res: bool)
    ensures
        res == no_commits(count),
{
    match count {
        Some(count) => count == 0,
        None => false,
    }
}

impl Reply {
    /// Tells whether a comparison has no commit that its base lacks.
    pub fn is_ancestor(self) -> (res: Result<bool, ForgeError>)
        ensures
            outcome(res) == self.deep_view().is_ancestor(),
    {
        let text = match self.json() {
            Ok(text) => text,
            Err(error) => return Err(error),
        };
        assert(text.deep_view() =~= text@);
        match json_u64_member(text.as_slice(), "total_commits") {
            Err(error) => Err(ForgeError::InvalidJson(error)),
            Ok(count) => Ok(counts_none(count)),
        }
    }
}

impl GiteaView {
    /// The request that compares a branch with a tag: without a commit that the
    /// branch lacks, the tag lies in its history.
    #[verifier::opaque]
    pub open spec fn is_tag_ancestor_of_branch(
        self,
        tag_sha: Seq<char>,
        branch: Seq<char>,
    ) -> Result<RequestView, ForgeErrorView> {
        request_to(
            Method::Get,
            url_of(self.base_url + "compare/"@ + branch + "..."@ + tag_sha),
            BodyView::Empty,
            Expect::Json,
        )
    }

    /// The request for a page of tags.
    #[verifier::opaque]
    pub open spec fn tag_page(self, page: u64) -> Result<RequestView, ForgeErrorView> {
        request_to(Method::Get, self.page_url("tags"@, page), BodyView::Empty, Expect::Tags)
    }
}

impl Gitea {
    /// Asks whether a tag lies in the history of a branch.
    pub fn is_tag_ancestor_of_branch(&self, tag_sha: &str, branch: &str) -> (res: Result<
        Request,
        ForgeError,
    >)
        ensures
            outcome(res) == self@.is_tag_ancestor_of_branch(tag_sha@, branch@),
    {
        proof {
            reveal(GiteaView::is_tag_ancestor_of_branch);
        }
        let mut text = concat(self.base_url(), "compare/");
        text.append(branch);
        text.append("...");
        text.append(tag_sha);
        make_request(Method::Get, read_url(text.as_str()), Body::Empty, Expect::Json)
    }

    fn tag_page(&self, page: u64) -> (res: Result<Request, ForgeError>)
        ensures
            outcome(res) == self@.tag_page(page),
    {
        proof {
            reveal(GiteaView::tag_page);
        }
        make_request(Method::Get, self.page_url("tags", page), Body::Empty, Expect::Tags)
    }
}

/// A search for the tags that name versions behind a prefix and lie in the
/// history of a branch.
#[derive(Debug)]
pub struct TagSearch {
    pattern: String,
    branch: String,
    /// How many tags have been looked at.
    examined: usize,
    /// The tags found so far.
    found: Vec<Tag>,
    stage: TagStage,
}

/// What a search for tags waits for.
#[derive(Debug)]
pub enum TagStage {
    /// The page of tags of that number.
    Page(u64),
    /// The comparison of a tag with the branch.
    Comparison {
        /// The page that the tag is from.
        page: u64,
        /// Whether there are pages behind it.
        goes_on: bool,
        tag: GiteaTag,
        semver: SemVer,
        /// The tags behind it on its page.
        later: Vec<GiteaTag>,
    },
}

/// The value of a [`TagSearch`].
#[verifier::ext_equal]
pub struct TagSearchView {
    pub pattern: Seq<char>,
    pub branch: Seq<char>,
    pub examined: usize,
    pub found: Seq<TagView>,
    pub stage: TagStageView,
}

/// The value of a [`TagStage`].
#[verifier::ext_equal]
pub enum TagStageView {
    Page(u64),
    Comparison {
        page: u64,
        goes_on: bool,
        tag: GiteaTagView,
        semver: SemVerView,
        later: Seq<GiteaTagView>,
    },
}

impl DeepView for TagStage {
    type V = TagStageView;

    open spec fn deep_view(&self) -> TagStageView {
        match self {
            TagStage::Page(page) => TagStageView::Page(*page),
            TagStage::Comparison { page, goes_on, tag, semver, later } => TagStageView::Comparison {
                page: *page,
                goes_on: *goes_on,
                tag: tag.deep_view(),
                semver: semver.deep_view(),
                later: later.deep_view(),
            },
        }
    }
}

impl View for TagSearch {
    type V = TagSearchView;

    closed spec fn view(&self) -> TagSearchView {
        TagSearchView {
            pattern: self.pattern@,
            branch: self.branch@,
            examined: self.examined,
            found: self.found.deep_view(),
            stage: self.stage.deep_view(),
        }
    }
}

impl DeepView for TagSearch {
    type V = TagSearchView;

    open spec fn deep_view(&self) -> TagSearchView {
        self@
    }
}

impl TagSearchView {
    /// Asks for a page.
    pub open spec fn ask(
        g: GiteaView,
        pattern: Seq<char>,
        branch: Seq<char>,
        examined: usize,
        found: Seq<TagView>,
        page: u64,
    ) -> Progress<TagSearchView, Seq<TagView>> {
        sending(
            g.tag_page(page),
            TagSearchView { pattern, branch, examined, found, stage: TagStageView::Page(page) },
        )
    }

    /// Asks for the first page, where the prefix is a regular expression.
    pub open spec fn start(g: GiteaView, prefix: Seq<char>, branch: Seq<char>) -> Progress<
        TagSearchView,
        Seq<TagView>,
    > {
        let pattern = "^"@ + prefix;
        if regex_compiles(pattern) {
            TagSearchView::ask(g, pattern, branch, 0, Seq::empty(), 1)
        } else {
            Err(ForgeErrorView::InvalidPattern)
        }
    }

    /// Goes through the tags left of a page, up to one to be compared, or on to
    /// the next page, or to the end.
    pub open spec fn proceed(
        g: GiteaView,
        pattern: Seq<char>,
        branch: Seq<char>,
        examined: usize,
        found: Seq<TagView>,
        page: u64,
        goes_on: bool,
        tags: Seq<GiteaTagView>,
    ) -> Progress<TagSearchView, Seq<TagView>> {
        match scan(g.settings.tag_search_depth, pattern, examined, tags) {
            Err(error) => Err(error),
            Ok(scan) => TagSearchView::on_scan(g, pattern, branch, found, page, goes_on, scan),
        }
    }

    /// Goes on with what a look through the tags of a page came to.
    pub open spec fn on_scan(
        g: GiteaView,
        pattern: Seq<char>,
        branch: Seq<char>,
        found: Seq<TagView>,
        page: u64,
        goes_on: bool,
        scan: ScanView,
    ) -> Progress<TagSearchView, Seq<TagView>> {
        match scan {
            ScanView::Version { tag, semver, examined, later } => sending(
                g.is_tag_ancestor_of_branch(tag.commit.sha, branch),
                TagSearchView {
                    pattern,
                    branch,
                    examined,
                    found,
                    stage: TagStageView::Comparison { page, goes_on, tag, semver, later },
                },
            ),
            ScanView::End { examined, exhausted } => if exhausted || !goes_on {
                done(found)
            } else {
                match next_page(page) {
                    Err(error) => Err(error),
                    Ok(page) => TagSearchView::ask(g, pattern, branch, examined, found, page),
                }
            },
        }
    }

    /// Reads a reply.
    pub open spec fn step(self, g: GiteaView, reply: ReplyView) -> Progress<
        TagSearchView,
        Seq<TagView>,
    > {
        match self.stage {
            TagStageView::Page(page) => match reply.tags() {
                Err(error) => Err(error),
                Ok(tags) => TagSearchView::proceed(
                    g,
                    self.pattern,
                    self.branch,
                    self.examined,
                    self.found,
                    page,
                    reply.goes_on(),
                    tags,
                ),
            },
            TagStageView::Comparison { page, goes_on, tag, semver, later } => {
                match reply.is_ancestor() {
                    Err(error) => Err(error),
                    Ok(is_ancestor) => TagSearchView::proceed(
                        g,
                        self.pattern,
                        self.branch,
                        self.examined,
                        if is_ancestor {
                            self.found.push(version_tag(tag, semver))
                        } else {
                            self.found
                        },
                        page,
                        goes_on,
                        later,
                    ),
                }
            },
        }
    }
}

impl TagSearch {
    fn ask(
        gitea: &Gitea,
        pattern: String,
        branch: String,
        examined: usize,
        found: Vec<Tag>,
        page: u64,
    ) -> (res: Result<Flow<TagSearch, Vec<Tag>>, ForgeError>)
        ensures
            outcome(res) == TagSearchView::ask(
                gitea@,
                pattern@,
                branch@,
                examined,
                found.deep_view(),
                page,
            ),
    {
        let stage = TagStage::Page(page);
        send(gitea.tag_page(page), TagSearch { pattern, branch, examined, found, stage })
    }

    fn proceed(
        gitea: &Gitea,
        pattern: String,
        branch: String,
        examined: usize,
        found: Vec<Tag>,
        page: u64,
        goes_on: bool,
        tags: Vec<GiteaTag>,
    ) -> (res: Result<Flow<TagSearch, Vec<Tag>>, ForgeError>)
        ensures
            outcome(res) == TagSearchView::proceed(
                gitea@,
                pattern@,
                branch@,
                examined,
                found.deep_view(),
                page,
                goes_on,
                tags.deep_view(),
            ),
    {
        let depth: usize = gitea.settings().tag_search_depth;
        match scan_tags(depth, pattern.as_str(), examined, tags) {
            Err(error) => Err(error),
            Ok(scan) => TagSearch::on_scan(gitea, pattern, branch, found, page, goes_on, scan),
        }
    }

    /// Goes on with what a look through the tags of a page came to.
    pub fn on_scan(
        gitea: &Gitea,
        pattern: String,
        branch: String,
        found: Vec<Tag>,
        page: u64,
        goes_on: bool,
        scan: Scan,
    ) -> (res: Result<Flow<TagSearch, Vec<Tag>>, ForgeError>)
        ensures
            outcome(res) == TagSearchView::on_scan(
                gitea@,
                pattern@,
                branch@,
                found.deep_view(),
                page,
                goes_on,
                scan.deep_view(),
            ),
    {
        match scan {
            Scan::Version { tag, semver, examined, later } => {
                let request = gitea.is_tag_ancestor_of_branch(
                    tag.commit.sha.as_str(),
                    branch.as_str(),
                );
                let stage = TagStage::Comparison { page, goes_on, tag, semver, later };
                send(request, TagSearch { pattern, branch, examined, found, stage })
            },
            Scan::End { examined, exhausted } => {
                if exhausted || !goes_on {
                    return Ok(Flow::Done(found));
                }
                match turn_page(page) {
                    Err(error) => Err(error),
                    Ok(page) => TagSearch::ask(gitea, pattern, branch, examined, found, page),
                }
            },
        }
    }

    /// Reads a reply.
    pub fn on_reply(self, gitea: &Gitea, reply: Reply) -> (res: Result<
        Flow<TagSearch, Vec<Tag>>,
        ForgeError,
    >)
        ensures
            outcome(res) == self@.step(gitea@, reply.deep_view()),
    {
        let TagSearch { pattern, branch, examined, found, stage } = self;
        match stage {
            TagStage::Page(page) => {
                let goes_on = reply.goes_on();
                match reply.tags() {
                    Err(error) => Err(error),
                    Ok(tags) => TagSearch::proceed(
                        gitea,
                        pattern,
                        branch,
                        examined,
                        found,
                        page,
                        goes_on,
                        tags,
                    ),
                }
            },
            TagStage::Comparison { page, goes_on, tag, semver, later } => {
                match reply.is_ancestor() {
                    Err(error) => Err(error),
                    Ok(is_ancestor) => {
                        let ghost before = found.deep_view();
                        let mut found = found;
                        if is_ancestor {
                            let tag = make_tag(tag, semver);
                            found.push(tag);
                            assert(found.deep_view() =~= before.push(tag.deep_view()));
                        }
                        TagSearch::proceed(
                            gitea,
                            pattern,
                            branch,
                            examined,
                            found,
                            page,
                            goes_on,
                            later,
                        )
                    },
                }
            },
        }
    }
}

impl Gitea {
    /// Starts a search for the tags that name versions behind a prefix, a regular
    /// expression, and lie in the history of a branch.
    pub fn get_latest_tags_for_prefix(&self, prefix: &str, branch: &str) -> (res: Result<
        Flow<TagSearch, Vec<Tag>>,
        ForgeError,
    >)
        ensures
            outcome(res) == TagSearchView::start(self@, prefix@, branch@),
    {
        let pattern = concat("^", prefix);
        match check_regex(pattern.as_str()) {
            Err(error) => Err(ForgeError::InvalidPattern(error)),
            Ok(_) => {
                let found: Vec<Tag> = Vec::new();
                assert(found.deep_view() =~= Seq::empty());
                TagSearch::ask(self, pattern, branch.to_owned(), 0, found, 1)
            },
        }
    }
}

} // verus!

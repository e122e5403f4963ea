//! Files of the repository, and changes to them.

use vstd::prelude::*;
use vstd::utf8::encode_utf8;

use crate::bindings::{base64_encode, base64_text};
use crate::error::{outcome, ForgeError, ForgeErrorView};
use crate::gitea::{Gitea, GiteaView};
use crate::http::{
    done, make_request, request_to, send, sending, Body, BodyView, Expect, Flow, Method, Progress,
    Reply, ReplyView, Request, RequestView, NOT_FOUND,
};
use crate::text::{concat, same_text, strip_dot_slash, without_dot_slash};
use crate::types::{
    FileChange, FileChangeView, FileUpdateType, GetFileContentRequest, GetFileContentRequestView,
};
use crate::wire::{GiteaFileChange, GiteaFileChangeOperation, GiteaFileChangeView};

verus! {

impl GiteaView {
    /// The request for the content of a file.
    #[verifier::opaque]
    pub open spec fn get_file_content(self, req: GetFileContentRequestView) -> Result<
        RequestView,
        ForgeErrorView,
    > {
        let url = match (self.endpoint("raw/"@ + req.path), req.branch) {
            (Ok(_), Some(branch)) => self.endpoint("raw/"@ + req.path + "?ref="@ + branch),
            (url, _) => url,
        };
        request_to(Method::Get, url, BodyView::Empty, Expect::Text)
    }

    /// The request for what the forge knows of a file.
    #[verifier::opaque]
    pub open spec fn get_file_sha(self, path: Seq<char>) -> Result<RequestView, ForgeErrorView> {
        request_to(
            Method::Get,
            self.endpoint("contents/"@ + without_dot_slash(path)),
            BodyView::Empty,
            Expect::Json,
        )
    }

    /// The request for the configuration file.
    pub open spec fn load_config(self, branch: Option<Seq<char>>) -> Result<
        RequestView,
        ForgeErrorView,
    > {
        self.get_file_content(
            GetFileContentRequestView { branch, path: self.settings.config_file },
        )
    }
}

impl ReplyView {
    /// The content of a file, if it is there.
    pub open spec fn file_content(self) -> Result<Option<Seq<char>>, ForgeErrorView> {
        if self.status == NOT_FOUND {
            Ok(None)
        } else {
            match self.text() {
                Ok(text) => Ok(Some(text)),
                Err(error) => Err(error),
            }
        }
    }

    /// The hash of a file.
    pub open spec fn file_sha(self) -> Result<Seq<char>, ForgeErrorView> {
        self.required_text("sha"@, "failed to get file sha"@)
    }
}

impl Reply {
    /// Reads the content of a file; one that is not there has none.
    pub fn file_content(self) -> (res: Result<Option<String>, ForgeError>)
        ensures
            outcome(res) == self.deep_view().file_content(),
    {
        if self.status == NOT_FOUND {
            return Ok(None);
        }
        match self.text() {
            Ok(text) => Ok(Some(text)),
            Err(error) => Err(error),
        }
    }

    /// Reads the hash of a file.
    pub fn file_sha(self) -> (res: Result<String, ForgeError>)
        ensures
            outcome(res) == self.deep_view().file_sha(),
    {
        self.required_text("sha", "failed to get file sha")
    }
}

impl Gitea {
    /// Asks for the content of a file.
    pub fn get_file_content(&self, req: GetFileContentRequest) -> (res: Result<
        Request,
        ForgeError,
    >)
        ensures
            outcome(res) == self@.get_file_content(req.deep_view()),
    {
        proof {
            reveal(GiteaView::get_file_content);
        }
        let mut reference = concat("raw/", req.path.as_str());
        let url = match (self.endpoint(reference.as_str()), req.branch) {
            (Ok(_), Some(branch)) => {
                reference.append("?ref=");
                reference.append(branch.as_str());
                self.endpoint(reference.as_str())
            },
            (url, _) => url,
        };
        make_request(Method::Get, url, Body::Empty, Expect::Text)
    }

    /// Asks for what the forge knows of a file.
    pub fn get_file_sha(&self, path: &str) -> (res: Result<Request, ForgeError>)
        ensures
            outcome(res) == self@.get_file_sha(path@),
    {
        proof {
            reveal(GiteaView::get_file_sha);
        }
        let url = self.endpoint(concat("contents/", strip_dot_slash(path)).as_str());
        make_request(Method::Get, url, Body::Empty, Expect::Json)
    }

    /// Asks for the configuration file. Where it is not there, the default
    /// configuration holds.
    pub fn load_config(&self, branch: Option<String>) -> (res: Result<Request, ForgeError>)
        ensures
            outcome(res) == self@.load_config(branch.deep_view()),
    {
        let path = self.settings().config_file.clone();
        self.get_file_content(GetFileContentRequest { branch, path })
    }
}

/// A file that is there: its content and its hash.
pub type ExistingFile = (Seq<char>, Seq<char>);

impl FileChangeView {
    /// The content that the file is to have.
    pub open spec fn new_content(self, existing: Option<ExistingFile>) -> Seq<char> {
        match (existing, self.update_type) {
            (Some((content, _)), FileUpdateType::Prepend) => self.content + content,
            _ => self.content,
        }
    }

    /// Whether the file is to have the content that it has; one that is not there
    /// counts as empty.
    pub open spec fn changes_nothing(self, existing: Option<ExistingFile>) -> bool {
        self.new_content(existing) == match existing {
            Some((content, _)) => content,
            None => Seq::empty(),
        }
    }

    /// The change as it is sent.
    pub open spec fn resolved(self, existing: Option<ExistingFile>) -> GiteaFileChangeView {
        GiteaFileChangeView {
            path: self.path,
            content: base64_text(encode_utf8(self.new_content(existing))),
            operation: match existing {
                Some(_) => GiteaFileChangeOperation::Update,
                None => GiteaFileChangeOperation::Create,
            },
            sha: match existing {
                Some((_, sha)) => Some(sha),
                None => None,
            },
        }
    }
}

/// The changes made so far and one more, left out where it changes nothing and
/// such changes are to be left out.
pub open spec fn with_change(
    skip_unchanged: bool,
    files: Seq<GiteaFileChangeView>,
    change: FileChangeView,
    existing: Option<ExistingFile>,
) -> Seq<GiteaFileChangeView> {
    if skip_unchanged && change.changes_nothing(existing) {
        files
    } else {
        files.push(change.resolved(existing))
    }
}

/// Adds a change to those made so far.
fn add_change(
    skip_unchanged: bool,
    files: &mut Vec<GiteaFileChange>,
    change: FileChange,
    existing: Option<(String, String)>,
)
    ensures
        final(files).deep_view() == with_change(
            skip_unchanged,
            old(files).deep_view(),
            change.deep_view(),
            existing.deep_view(),
        ),
{
    let ghost before = files.deep_view();
    let (content, unchanged, operation, sha) = match existing {
        Some((content, sha)) => {
            let new_content = match change.update_type {
                FileUpdateType::Prepend => concat(change.content.as_str(), content.as_str()),
                FileUpdateType::Replace => change.content,
            };
            let unchanged = same_text(new_content.as_str(), content.as_str());
            (new_content, unchanged, GiteaFileChangeOperation::Update, Some(sha))
        },
        None => {
            let unchanged = change.content.as_str().unicode_len() == 0;
            assert(unchanged == (change.content@ =~= Seq::<char>::empty()));
            (change.content, unchanged, GiteaFileChangeOperation::Create, None)
        },
    };
    if skip_unchanged && unchanged {
        return;
    }
    let content = base64_encode(content.as_str());
    let change = GiteaFileChange { path: change.path, content, operation, sha };
    files.push(change);
    assert(files.deep_view() =~= before.push(change.deep_view()));
}

/// Changes of files that are being looked up on the branch they start from.
#[derive(Debug)]
pub struct ChangeSet {
    branch: String,
    /// Whether changes that change nothing are left out.
    skip_unchanged: bool,
    /// The change that is looked up.
    change: FileChange,
    /// The content of its file, once that is known.
    content: Option<String>,
    /// The changes to be looked up behind it.
    later: Vec<FileChange>,
    /// The changes before, as they are sent.
    files: Vec<GiteaFileChange>,
}

/// The value of a [`ChangeSet`].
#[verifier::ext_equal]
pub struct ChangeSetView {
    pub branch: Seq<char>,
    pub skip_unchanged: bool,
    pub change: FileChangeView,
    pub content: Option<Seq<char>>,
    pub later: Seq<FileChangeView>,
    pub files: Seq<GiteaFileChangeView>,
}

impl View for ChangeSet {
    type V = ChangeSetView;

    closed spec fn view(&self) -> ChangeSetView {
        ChangeSetView {
            branch: self.branch@,
            skip_unchanged: self.skip_unchanged,
            change: self.change.deep_view(),
            content: self.content.deep_view(),
            later: self.later.deep_view(),
            files: self.files.deep_view(),
        }
    }
}

impl DeepView for ChangeSet {
    type V = ChangeSetView;

    open spec fn deep_view(&self) -> ChangeSetView {
        self@
    }
}

impl ChangeSetView {
    /// Asks for the content of the first file, with the changes before at hand.
    pub open spec fn ask(
        g: GiteaView,
        branch: Seq<char>,
        skip_unchanged: bool,
        changes: Seq<FileChangeView>,
        files: Seq<GiteaFileChangeView>,
    ) -> Progress<ChangeSetView, Seq<GiteaFileChangeView>> {
        if changes.len() == 0 {
            done(files)
        } else {
            let req = GetFileContentRequestView {
                branch: Some(branch),
                path: changes.first().path,
            };
            sending(
                g.get_file_content(req),
                ChangeSetView {
                    branch,
                    skip_unchanged,
                    change: changes.first(),
                    content: None,
                    later: changes.drop_first(),
                    files,
                },
            )
        }
    }

    /// Goes on to the next change.
    pub open spec fn proceed(self, g: GiteaView, existing: Option<ExistingFile>) -> Progress<
        ChangeSetView,
        Seq<GiteaFileChangeView>,
    > {
        ChangeSetView::ask(
            g,
            self.branch,
            self.skip_unchanged,
            self.later,
            with_change(self.skip_unchanged, self.files, self.change, existing),
        )
    }

    /// Reads the content of a file, and asks for its hash where it is there; or
    /// reads its hash.
    pub open spec fn step(self, g: GiteaView, reply: ReplyView) -> Progress<
        ChangeSetView,
        Seq<GiteaFileChangeView>,
    > {
        match self.content {
            None => match reply.file_content() {
                Err(error) => Err(error),
                Ok(None) => self.proceed(g, None),
                Ok(Some(content)) => sending(
                    g.get_file_sha(self.change.path),
                    ChangeSetView { content: Some(content), ..self },
                ),
            },
            Some(content) => match reply.file_sha() {
                Err(error) => Err(error),
                Ok(sha) => self.proceed(g, Some((content, sha))),
            },
        }
    }
}

impl ChangeSet {
    /// Asks for the content of the first file.
    pub(crate) fn ask(
        gitea: &Gitea,
        branch: String,
        skip_unchanged: bool,
        changes: Vec<FileChange>,
        files: Vec<GiteaFileChange>,
    ) -> (res: Result<Flow<ChangeSet, Vec<GiteaFileChange>>, ForgeError>)
        ensures
            outcome(res) == ChangeSetView::ask(
                gitea@,
                branch@,
                skip_unchanged,
                changes.deep_view(),
                files.deep_view(),
            ),
    {
        if changes.len() == 0 {
            return Ok(Flow::Done(files));
        }
        let mut later = changes;
        let change = later.remove(0);
        assert(change.deep_view() == changes.deep_view().first());
        assert(later.deep_view() =~= changes.deep_view().drop_first());
        let req = GetFileContentRequest {
            branch: Some(branch.clone()),
            path: change.path.clone(),
        };
        let request = gitea.get_file_content(req);
        send(
            request,
            ChangeSet { branch, skip_unchanged, change, content: None, later, files },
        )
    }

    /// Reads a reply.
    pub fn on_reply(self, gitea: &Gitea, reply: Reply) -> (res: Result<
        Flow<ChangeSet, Vec<GiteaFileChange>>,
        ForgeError,
    >)
        ensures
            outcome(res) == self@.step(gitea@, reply.deep_view()),
    {
        let ChangeSet { branch, skip_unchanged, change, content, later, files } = self;
        let existing = match content {
            None => match reply.file_content() {
                Err(error) => return Err(error),
                Ok(None) => None,
                Ok(Some(content)) => {
                    let request = gitea.get_file_sha(change.path.as_str());
                    let content = Some(content);
                    return send(
                        request,
                        ChangeSet { branch, skip_unchanged, change, content, later, files },
                    );
                },
            },
            Some(content) => match reply.file_sha() {
                Err(error) => return Err(error),
                Ok(sha) => Some((content, sha)),
            },
        };
        let mut files = files;
        add_change(skip_unchanged, &mut files, change, existing);
        ChangeSet::ask(gitea, branch, skip_unchanged, later, files)
    }
}

} // verus!

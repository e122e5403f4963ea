//! The data of the Gitea API: what it answers, and the bodies of requests to it.

use vstd::prelude::*;

verus! {

/// A label of the repository.
#[derive(Debug)]
pub struct Label {
    pub id: u64,
    pub name: String,
}

/// The value of a [`Label`].
#[verifier::ext_equal]
pub struct LabelView {
    pub id: u64,
    pub name: Seq<char>,
}

impl DeepView for Label {
    type V = LabelView;

    open spec fn deep_view(&self) -> LabelView {
        LabelView {
            id: self.id,
            name: self.name@,
        }
    }
}

/// The commit that a tag points at.
#[derive(Debug)]
pub struct GiteaTagCommit {
    pub sha: String,
    /// When it was made, in RFC 3339 form.
    pub created: String,
}

/// The value of a [`GiteaTagCommit`].
#[verifier::ext_equal]
pub struct GiteaTagCommitView {
    pub sha: Seq<char>,
    pub created: Seq<char>,
}

impl DeepView for GiteaTagCommit {
    type V = GiteaTagCommitView;

    open spec fn deep_view(&self) -> GiteaTagCommitView {
        GiteaTagCommitView {
            sha: self.sha@,
            created: self.created@,
        }
    }
}

/// A tag of the repository.
#[derive(Debug)]
pub struct GiteaTag {
    pub name: String,
    pub commit: GiteaTagCommit,
}

/// The value of a [`GiteaTag`].
#[verifier::ext_equal]
pub struct GiteaTagView {
    pub name: Seq<char>,
    pub commit: GiteaTagCommitView,
}

impl DeepView for GiteaTag {
    type V = GiteaTagView;

    open spec fn deep_view(&self) -> GiteaTagView {
        GiteaTagView {
            name: self.name@,
            commit: self.commit.deep_view(),
        }
    }
}

/// A release of the repository.
#[derive(Debug)]
pub struct GiteaRelease {
    /// The release notes.
    pub body: String,
}

/// The value of a [`GiteaRelease`].
#[verifier::ext_equal]
pub struct GiteaReleaseView {
    pub body: Seq<char>,
}

impl DeepView for GiteaRelease {
    type V = GiteaReleaseView;

    open spec fn deep_view(&self) -> GiteaReleaseView {
        GiteaReleaseView {
            body: self.body@,
        }
    }
}

/// Who wrote a commit.
#[derive(Debug)]
pub struct GiteaCommitAuthor {
    pub name: String,
    pub email: String,
}

/// The value of a [`GiteaCommitAuthor`].
#[verifier::ext_equal]
pub struct GiteaCommitAuthorView {
    pub name: Seq<char>,
    pub email: Seq<char>,
}

impl DeepView for GiteaCommitAuthor {
    type V = GiteaCommitAuthorView;

    open spec fn deep_view(&self) -> GiteaCommitAuthorView {
        GiteaCommitAuthorView {
            name: self.name@,
            email: self.email@,
        }
    }
}

/// The git side of a commit.
#[derive(Debug)]
pub struct GiteaCommitDetails {
    pub author: GiteaCommitAuthor,
    pub message: String,
}

/// The value of a [`GiteaCommitDetails`].
#[verifier::ext_equal]
pub struct GiteaCommitDetailsView {
    pub author: GiteaCommitAuthorView,
    pub message: Seq<char>,
}

impl DeepView for GiteaCommitDetails {
    type V = GiteaCommitDetailsView;

    open spec fn deep_view(&self) -> GiteaCommitDetailsView {
        GiteaCommitDetailsView {
            author: self.author.deep_view(),
            message: self.message@,
        }
    }
}

/// A file that a commit touches.
#[derive(Debug)]
pub struct GiteaCommitFile {
    pub filename: String,
}

/// The value of a [`GiteaCommitFile`].
#[verifier::ext_equal]
pub struct GiteaCommitFileView {
    pub filename: Seq<char>,
}

impl DeepView for GiteaCommitFile {
    type V = GiteaCommitFileView;

    open spec fn deep_view(&self) -> GiteaCommitFileView {
        GiteaCommitFileView {
            filename: self.filename@,
        }
    }
}

/// A commit, as the commit endpoints answer it.
#[derive(Debug)]
pub struct GiteaCommitQueryObject {
    pub sha: String,
    /// When it was made, in RFC 3339 form.
    pub created: String,
    pub html_url: String,
    pub commit: GiteaCommitDetails,
    /// The hashes of its parents.
    pub parents: Vec<String>,
    pub files: Vec<GiteaCommitFile>,
}

/// The value of a [`GiteaCommitQueryObject`].
#[verifier::ext_equal]
pub struct GiteaCommitQueryObjectView {
    pub sha: Seq<char>,
    pub created: Seq<char>,
    pub html_url: Seq<char>,
    pub commit: GiteaCommitDetailsView,
    pub parents: Seq<Seq<char>>,
    pub files: Seq<GiteaCommitFileView>,
}

impl DeepView for GiteaCommitQueryObject {
    type V = GiteaCommitQueryObjectView;

    open spec fn deep_view(&self) -> GiteaCommitQueryObjectView {
        GiteaCommitQueryObjectView {
            sha: self.sha@,
            created: self.created@,
            html_url: self.html_url@,
            commit: self.commit.deep_view(),
            parents: self.parents.deep_view(),
            files: self.files.deep_view(),
        }
    }
}

/// A commit that was made.
#[derive(Debug)]
pub struct Commit {
    pub sha: String,
}

/// The value of a [`Commit`].
#[verifier::ext_equal]
pub struct CommitView {
    pub sha: Seq<char>,
}

impl DeepView for Commit {
    type V = CommitView;

    open spec fn deep_view(&self) -> CommitView {
        CommitView {
            sha: self.sha@,
        }
    }
}

/// The answer to a change of files.
#[derive(Debug)]
pub struct GiteaCreatedCommit {
    pub commit: Commit,
}

/// The value of a [`GiteaCreatedCommit`].
#[verifier::ext_equal]
pub struct GiteaCreatedCommitView {
    pub commit: CommitView,
}

impl DeepView for GiteaCreatedCommit {
    type V = GiteaCreatedCommitView;

    open spec fn deep_view(&self) -> GiteaCreatedCommitView {
        GiteaCreatedCommitView {
            commit: self.commit.deep_view(),
        }
    }
}

/// The branch that a pull request brings in.
#[derive(Debug)]
pub struct GiteaPullHead {
    /// The name of the branch.
    pub label: String,
    /// The commit at its tip.
    pub sha: String,
}

/// The value of a [`GiteaPullHead`].
#[verifier::ext_equal]
pub struct GiteaPullHeadView {
    pub label: Seq<char>,
    pub sha: Seq<char>,
}

impl DeepView for GiteaPullHead {
    type V = GiteaPullHeadView;

    open spec fn deep_view(&self) -> GiteaPullHeadView {
        GiteaPullHeadView {
            label: self.label@,
            sha: self.sha@,
        }
    }
}

/// A pull request, as the pull endpoints answer it.
#[derive(Debug)]
pub struct GiteaPullRequest {
    pub number: u64,
    pub body: String,
    pub head: GiteaPullHead,
    pub merged: bool,
    pub merge_commit_sha: Option<String>,
}

/// The value of a [`GiteaPullRequest`].
#[verifier::ext_equal]
pub struct GiteaPullRequestView {
    pub number: u64,
    pub body: Seq<char>,
    pub head: GiteaPullHeadView,
    pub merged: bool,
    pub merge_commit_sha: Option<Seq<char>>,
}

impl DeepView for GiteaPullRequest {
    type V = GiteaPullRequestView;

    open spec fn deep_view(&self) -> GiteaPullRequestView {
        GiteaPullRequestView {
            number: self.number,
            body: self.body@,
            head: self.head.deep_view(),
            merged: self.merged,
            merge_commit_sha: self.merge_commit_sha.deep_view(),
        }
    }
}

/// Asks for a new label.
#[derive(Debug)]
pub struct CreateLabel {
    pub name: String,
    pub color: String,
}

/// The value of a [`CreateLabel`].
#[verifier::ext_equal]
pub struct CreateLabelView {
    pub name: Seq<char>,
    pub color: Seq<char>,
}

impl DeepView for CreateLabel {
    type V = CreateLabelView;

    open spec fn deep_view(&self) -> CreateLabelView {
        CreateLabelView {
            name: self.name@,
            color: self.color@,
        }
    }
}

/// Opens or closes a pull request.
#[derive(Debug)]
pub struct UpdatePullState {
    pub state: String,
}

/// The value of an [`UpdatePullState`].
#[verifier::ext_equal]
pub struct UpdatePullStateView {
    pub state: Seq<char>,
}

impl DeepView for UpdatePullState {
    type V = UpdatePullStateView;

    open spec fn deep_view(&self) -> UpdatePullStateView {
        UpdatePullStateView {
            state: self.state@,
        }
    }
}

/// What is done to a file.
#[derive(Clone, Copy, Debug, PartialEq, Eq, Structural)]
pub enum GiteaFileChangeOperation {
    /// The file is new.
    Create,
    /// The file replaces one that is there.
    Update,
}

impl DeepView for GiteaFileChangeOperation {
    type V = GiteaFileChangeOperation;

    open spec fn deep_view(&self) -> GiteaFileChangeOperation {
        *self
    }
}

/// The change of one file.
#[derive(Debug)]
pub struct GiteaFileChange {
    pub path: String,
    /// The new content, in Base64.
    pub content: String,
    pub operation: GiteaFileChangeOperation,
    /// The hash of the file that is replaced.
    pub sha: Option<String>,
}

/// The value of a [`GiteaFileChange`].
#[verifier::ext_equal]
pub struct GiteaFileChangeView {
    pub path: Seq<char>,
    pub content: Seq<char>,
    pub operation: GiteaFileChangeOperation,
    pub sha: Option<Seq<char>>,
}

impl DeepView for GiteaFileChange {
    type V = GiteaFileChangeView;

    open spec fn deep_view(&self) -> GiteaFileChangeView {
        GiteaFileChangeView {
            path: self.path@,
            content: self.content@,
            operation: self.operation,
            sha: self.sha.deep_view(),
        }
    }
}

/// Asks for a commit that changes files.
#[derive(Debug)]
pub struct GiteaModifyFiles {
    /// The branch that the commit starts from.
    pub branch: String,
    /// The branch to make for it, where it is not put on `branch`.
    pub new_branch: Option<String>,
    pub message: String,
    pub files: Vec<GiteaFileChange>,
    pub force_push: bool,
}

/// The value of a [`GiteaModifyFiles`].
#[verifier::ext_equal]
pub struct GiteaModifyFilesView {
    pub branch: Seq<char>,
    pub new_branch: Option<Seq<char>>,
    pub message: Seq<char>,
    pub files: Seq<GiteaFileChangeView>,
    pub force_push: bool,
}

impl DeepView for GiteaModifyFiles {
    type V = GiteaModifyFilesView;

    open spec fn deep_view(&self) -> GiteaModifyFilesView {
        GiteaModifyFilesView {
            branch: self.branch@,
            new_branch: self.new_branch.deep_view(),
            message: self.message@,
            files: self.files.deep_view(),
            force_push: self.force_push,
        }
    }
}

/// Asks for a new tag.
#[derive(Debug)]
pub struct CreateTag {
    pub tag_name: String,
    /// The commit to tag.
    pub target: String,
}

/// The value of a [`CreateTag`].
#[verifier::ext_equal]
pub struct CreateTagView {
    pub tag_name: Seq<char>,
    pub target: Seq<char>,
}

impl DeepView for CreateTag {
    type V = CreateTagView;

    open spec fn deep_view(&self) -> CreateTagView {
        CreateTagView {
            tag_name: self.tag_name@,
            target: self.target@,
        }
    }
}

/// Asks for a new pull request.
#[derive(Debug)]
pub struct CreatePull {
    pub title: String,
    pub body: String,
    pub head: String,
    pub base: String,
}

/// The value of a [`CreatePull`].
#[verifier::ext_equal]
pub struct CreatePullView {
    pub title: Seq<char>,
    pub body: Seq<char>,
    pub head: Seq<char>,
    pub base: Seq<char>,
}

impl DeepView for CreatePull {
    type V = CreatePullView;

    open spec fn deep_view(&self) -> CreatePullView {
        CreatePullView {
            title: self.title@,
            body: self.body@,
            head: self.head@,
            base: self.base@,
        }
    }
}

/// Rewrites a pull request.
#[derive(Debug)]
pub struct UpdatePullBody {
    pub title: String,
    pub body: String,
}

/// The value of an [`UpdatePullBody`].
#[verifier::ext_equal]
pub struct UpdatePullBodyView {
    pub title: Seq<char>,
    pub body: Seq<char>,
}

impl DeepView for UpdatePullBody {
    type V = UpdatePullBodyView;

    open spec fn deep_view(&self) -> UpdatePullBodyView {
        UpdatePullBodyView {
            title: self.title@,
            body: self.body@,
        }
    }
}

/// Replaces the labels of a pull request.
#[derive(Debug)]
pub struct UpdatePullLabels {
    pub labels: Vec<u64>,
}

/// The value of an [`UpdatePullLabels`].
#[verifier::ext_equal]
pub struct UpdatePullLabelsView {
    pub labels: Seq<u64>,
}

impl DeepView for UpdatePullLabels {
    type V = UpdatePullLabelsView;

    open spec fn deep_view(&self) -> UpdatePullLabelsView {
        UpdatePullLabelsView {
            labels: self.labels.deep_view(),
        }
    }
}

/// Asks for a new release.
#[derive(Debug)]
pub struct CreateRelease {
    pub tag_name: String,
    pub target_commitish: String,
    pub name: String,
    pub body: String,
    pub draft: bool,
    pub prerelease: bool,
}

/// The value of a [`CreateRelease`].
#[verifier::ext_equal]
pub struct CreateReleaseView {
    pub tag_name: Seq<char>,
    pub target_commitish: Seq<char>,
    pub name: Seq<char>,
    pub body: Seq<char>,
    pub draft: bool,
    pub prerelease: bool,
}

impl DeepView for CreateRelease {
    type V = CreateReleaseView;

    open spec fn deep_view(&self) -> CreateReleaseView {
        CreateReleaseView {
            tag_name: self.tag_name@,
            target_commitish: self.target_commitish@,
            name: self.name@,
            body: self.body@,
            draft: self.draft,
            prerelease: self.prerelease,
        }
    }
}

} // verus!

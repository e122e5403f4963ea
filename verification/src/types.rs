//! The requests that a caller makes of the forge, and the results it gets.

use vstd::prelude::*;

verus! {

/// Where a repository is.
#[derive(Debug)]
pub struct RepoUrl {
    pub scheme: String,
    pub host: String,
    pub port: Option<u16>,
    pub owner: String,
    pub name: String,
    /// What the links into the forge's pages start with.
    pub link_base_url: String,
}

/// The value of a [`RepoUrl`].
#[verifier::ext_equal]
pub struct RepoUrlView {
    pub scheme: Seq<char>,
    pub host: Seq<char>,
    pub port: Option<u16>,
    pub owner: Seq<char>,
    pub name: Seq<char>,
    pub link_base_url: Seq<char>,
}

impl DeepView for RepoUrl {
    type V = RepoUrlView;

    open spec fn deep_view(&self) -> RepoUrlView {
        RepoUrlView {
            scheme: self.scheme@,
            host: self.host@,
            port: self.port.deep_view(),
            owner: self.owner@,
            name: self.name@,
            link_base_url: self.link_base_url@,
        }
    }
}

/// What a forge is set up with.
#[derive(Debug)]
pub struct ForgeSettings {
    /// How many commits are looked at for a first release.
    pub commit_search_depth: usize,
    /// How many tags are looked at.
    pub tag_search_depth: usize,
    /// How many items a page of a listing has at most.
    pub page_size: u16,
    /// The label of a pull request that waits for its release.
    pub pending_label: String,
    /// The name that `pending_label` had before.
    pub legacy_pending_label: String,
    /// The color of new labels.
    pub label_color: String,
    /// The path of the configuration file.
    pub config_file: String,
}

/// The value of a [`ForgeSettings`].
#[verifier::ext_equal]
pub struct ForgeSettingsView {
    pub commit_search_depth: usize,
    pub tag_search_depth: usize,
    pub page_size: u16,
    pub pending_label: Seq<char>,
    pub legacy_pending_label: Seq<char>,
    pub label_color: Seq<char>,
    pub config_file: Seq<char>,
}

impl DeepView for ForgeSettings {
    type V = ForgeSettingsView;

    open spec fn deep_view(&self) -> ForgeSettingsView {
        ForgeSettingsView {
            commit_search_depth: self.commit_search_depth,
            tag_search_depth: self.tag_search_depth,
            page_size: self.page_size,
            pending_label: self.pending_label@,
            legacy_pending_label: self.legacy_pending_label@,
            label_color: self.label_color@,
            config_file: self.config_file@,
        }
    }
}

/// Asks for a file.
#[derive(Debug)]
pub struct GetFileContentRequest {
    /// The branch to read, the default branch where there is none.
    pub branch: Option<String>,
    pub path: String,
}

/// The value of a [`GetFileContentRequest`].
#[verifier::ext_equal]
pub struct GetFileContentRequestView {
    pub branch: Option<Seq<char>>,
    pub path: Seq<char>,
}

impl DeepView for GetFileContentRequest {
    type V = GetFileContentRequestView;

    open spec fn deep_view(&self) -> GetFileContentRequestView {
        GetFileContentRequestView {
            branch: self.branch.deep_view(),
            path: self.path@,
        }
    }
}

/// Asks for a release pull request.
#[derive(Debug)]
pub struct GetPrRequest {
    pub base_branch: String,
    pub head_branch: String,
}

/// The value of a [`GetPrRequest`].
#[verifier::ext_equal]
pub struct GetPrRequestView {
    pub base_branch: Seq<char>,
    pub head_branch: Seq<char>,
}

impl DeepView for GetPrRequest {
    type V = GetPrRequestView;

    open spec fn deep_view(&self) -> GetPrRequestView {
        GetPrRequestView {
            base_branch: self.base_branch@,
            head_branch: self.head_branch@,
        }
    }
}

/// How new content goes into a file.
#[derive(Clone, Copy, Debug, PartialEq, Eq, Structural)]
pub enum FileUpdateType {
    /// In place of what is there.
    Replace,
    /// In front of what is there.
    Prepend,
}

impl DeepView for FileUpdateType {
    type V = FileUpdateType;

    open spec fn deep_view(&self) -> FileUpdateType {
        *self
    }
}

/// New content for a file.
#[derive(Debug)]
pub struct FileChange {
    pub path: String,
    pub content: String,
    pub update_type: FileUpdateType,
}

/// The value of a [`FileChange`].
#[verifier::ext_equal]
pub struct FileChangeView {
    pub path: Seq<char>,
    pub content: Seq<char>,
    pub update_type: FileUpdateType,
}

impl DeepView for FileChange {
    type V = FileChangeView;

    open spec fn deep_view(&self) -> FileChangeView {
        FileChangeView {
            path: self.path@,
            content: self.content@,
            update_type: self.update_type,
        }
    }
}

/// Asks for a release branch with one commit on top of its base.
#[derive(Debug)]
pub struct CreateReleaseBranchRequest {
    pub base_branch: String,
    pub release_branch: String,
    pub message: String,
    pub file_changes: Vec<FileChange>,
}

/// The value of a [`CreateReleaseBranchRequest`].
#[verifier::ext_equal]
pub struct CreateReleaseBranchRequestView {
    pub base_branch: Seq<char>,
    pub release_branch: Seq<char>,
    pub message: Seq<char>,
    pub file_changes: Seq<FileChangeView>,
}

impl DeepView for CreateReleaseBranchRequest {
    type V = CreateReleaseBranchRequestView;

    open spec fn deep_view(&self) -> CreateReleaseBranchRequestView {
        CreateReleaseBranchRequestView {
            base_branch: self.base_branch@,
            release_branch: self.release_branch@,
            message: self.message@,
            file_changes: self.file_changes.deep_view(),
        }
    }
}

/// Asks for a commit on a branch.
#[derive(Debug)]
pub struct CreateCommitRequest {
    pub target_branch: String,
    pub message: String,
    pub file_changes: Vec<FileChange>,
}

/// The value of a [`CreateCommitRequest`].
#[verifier::ext_equal]
pub struct CreateCommitRequestView {
    pub target_branch: Seq<char>,
    pub message: Seq<char>,
    pub file_changes: Seq<FileChangeView>,
}

impl DeepView for CreateCommitRequest {
    type V = CreateCommitRequestView;

    open spec fn deep_view(&self) -> CreateCommitRequestView {
        CreateCommitRequestView {
            target_branch: self.target_branch@,
            message: self.message@,
            file_changes: self.file_changes.deep_view(),
        }
    }
}

/// Asks for a pull request.
#[derive(Debug)]
pub struct CreatePrRequest {
    pub head_branch: String,
    pub base_branch: String,
    pub title: String,
    pub body: String,
}

/// The value of a [`CreatePrRequest`].
#[verifier::ext_equal]
pub struct CreatePrRequestView {
    pub head_branch: Seq<char>,
    pub base_branch: Seq<char>,
    pub title: Seq<char>,
    pub body: Seq<char>,
}

impl DeepView for CreatePrRequest {
    type V = CreatePrRequestView;

    open spec fn deep_view(&self) -> CreatePrRequestView {
        CreatePrRequestView {
            head_branch: self.head_branch@,
            base_branch: self.base_branch@,
            title: self.title@,
            body: self.body@,
        }
    }
}

/// Asks for a new title and body of a pull request.
#[derive(Debug)]
pub struct UpdatePrRequest {
    pub pr_number: u64,
    pub title: String,
    pub body: String,
}

/// The value of an [`UpdatePrRequest`].
#[verifier::ext_equal]
pub struct UpdatePrRequestView {
    pub pr_number: u64,
    pub title: Seq<char>,
    pub body: Seq<char>,
}

impl DeepView for UpdatePrRequest {
    type V = UpdatePrRequestView;

    open spec fn deep_view(&self) -> UpdatePrRequestView {
        UpdatePrRequestView {
            pr_number: self.pr_number,
            title: self.title@,
            body: self.body@,
        }
    }
}

/// Asks for new labels of a pull request, by name.
#[derive(Debug)]
pub struct PrLabelsRequest {
    pub pr_number: u64,
    pub labels: Vec<String>,
}

/// The value of a [`PrLabelsRequest`].
#[verifier::ext_equal]
pub struct PrLabelsRequestView {
    pub pr_number: u64,
    pub labels: Seq<Seq<char>>,
}

impl DeepView for PrLabelsRequest {
    type V = PrLabelsRequestView;

    open spec fn deep_view(&self) -> PrLabelsRequestView {
        PrLabelsRequestView {
            pr_number: self.pr_number,
            labels: self.labels.deep_view(),
        }
    }
}

/// A pull request.
#[derive(Debug)]
pub struct PullRequest {
    pub number: u64,
    /// The tip of its branch, or its merge commit where it is merged.
    pub sha: String,
    pub body: String,
}

/// The value of a [`PullRequest`].
#[verifier::ext_equal]
pub struct PullRequestView {
    pub number: u64,
    pub sha: Seq<char>,
    pub body: Seq<char>,
}

impl DeepView for PullRequest {
    type V = PullRequestView;

    open spec fn deep_view(&self) -> PullRequestView {
        PullRequestView {
            number: self.number,
            sha: self.sha@,
            body: self.body@,
        }
    }
}

/// The release of a tag.
#[derive(Debug)]
pub struct ReleaseByTagResponse {
    pub tag: String,
    pub sha: String,
    pub notes: String,
}

/// The value of a [`ReleaseByTagResponse`].
#[verifier::ext_equal]
pub struct ReleaseByTagResponseView {
    pub tag: Seq<char>,
    pub sha: Seq<char>,
    pub notes: Seq<char>,
}

impl DeepView for ReleaseByTagResponse {
    type V = ReleaseByTagResponseView;

    open spec fn deep_view(&self) -> ReleaseByTagResponseView {
        ReleaseByTagResponseView {
            tag: self.tag@,
            sha: self.sha@,
            notes: self.notes@,
        }
    }
}

/// A semantic version.
#[derive(Debug)]
pub struct SemVer {
    pub major: u64,
    pub minor: u64,
    pub patch: u64,
    pub pre: String,
    pub build: String,
}

/// The value of a [`SemVer`].
#[verifier::ext_equal]
pub struct SemVerView {
    pub major: u64,
    pub minor: u64,
    pub patch: u64,
    pub pre: Seq<char>,
    pub build: Seq<char>,
}

impl DeepView for SemVer {
    type V = SemVerView;

    open spec fn deep_view(&self) -> SemVerView {
        SemVerView {
            major: self.major,
            minor: self.minor,
            patch: self.patch,
            pre: self.pre@,
            build: self.build@,
        }
    }
}

/// A tag that names a version.
#[derive(Debug)]
pub struct Tag {
    pub name: String,
    pub semver: SemVer,
    pub sha: String,
    /// The Unix time of its commit, where that could be read.
    pub timestamp: Option<i64>,
}

/// The value of a [`Tag`].
#[verifier::ext_equal]
pub struct TagView {
    pub name: Seq<char>,
    pub semver: SemVerView,
    pub sha: Seq<char>,
    pub timestamp: Option<i64>,
}

impl DeepView for Tag {
    type V = TagView;

    open spec fn deep_view(&self) -> TagView {
        TagView {
            name: self.name@,
            semver: self.semver.deep_view(),
            sha: self.sha@,
            timestamp: self.timestamp.deep_view(),
        }
    }
}

/// A commit of the history.
#[derive(Debug)]
pub struct ForgeCommit {
    pub id: String,
    /// The first eight characters of `id`.
    pub short_id: String,
    pub link: String,
    pub author_name: String,
    pub author_email: String,
    pub merge_commit: bool,
    pub message: String,
    /// The Unix time of the commit.
    pub timestamp: i64,
    pub files: Vec<String>,
}

/// The value of a [`ForgeCommit`].
#[verifier::ext_equal]
pub struct ForgeCommitView {
    pub id: Seq<char>,
    pub short_id: Seq<char>,
    pub link: Seq<char>,
    pub author_name: Seq<char>,
    pub author_email: Seq<char>,
    pub merge_commit: bool,
    pub message: Seq<char>,
    pub timestamp: i64,
    pub files: Seq<Seq<char>>,
}

impl DeepView for ForgeCommit {
    type V = ForgeCommitView;

    open spec fn deep_view(&self) -> ForgeCommitView {
        ForgeCommitView {
            id: self.id@,
            short_id: self.short_id@,
            link: self.link@,
            author_name: self.author_name@,
            author_email: self.author_email@,
            merge_commit: self.merge_commit,
            message: self.message@,
            timestamp: self.timestamp,
            files: self.files.deep_view(),
        }
    }
}

} // verus!

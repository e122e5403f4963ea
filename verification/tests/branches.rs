//! Files, commits, and release branches.

use gitea_forge::error::ForgeError;
use gitea_forge::gitea::Gitea;
use gitea_forge::http::{Body, Expect, Flow, Method, Payload, Reply, Request, make_request};
use gitea_forge::types::{
    CreateCommitRequest, CreateReleaseBranchRequest, FileChange, FileUpdateType, ForgeSettings,
    GetFileContentRequest, RepoUrl,
};
use gitea_forge::wire::{
    Commit, GiteaCreatedCommit, GiteaFileChangeOperation, GiteaModifyFiles, GiteaPullHead,
    GiteaPullRequest, Label,
};

const API: &str = "https://git.example.com/api/v1/repos/acme/tool/";

fn repo() -> RepoUrl {
    RepoUrl {
        scheme: "https".to_string(),
        host: "git.example.com".to_string(),
        port: None,
        owner: "acme".to_string(),
        name: "tool".to_string(),
        link_base_url: "https://git.example.com".to_string(),
    }
}

fn settings() -> ForgeSettings {
    ForgeSettings {
        commit_search_depth: 3,
        tag_search_depth: 4,
        page_size: 50,
        pending_label: "release:waiting".to_string(),
        legacy_pending_label: "waiting".to_string(),
        label_color: "336699".to_string(),
        config_file: "forge.toml".to_string(),
    }
}

fn reply(status: u16, payload: Payload) -> Reply {
    Reply { status, has_more: None, payload }
}

fn json(text: &str) -> Reply {
    reply(200, Payload::Json(text.as_bytes().to_vec()))
}

fn page(goes_on: bool, payload: Payload) -> Reply {
    let has_more = if goes_on { "true" } else { "false" };
    Reply { status: 200, has_more: Some(has_more.to_string()), payload }
}

fn nothing(status: u16) -> Reply {
    reply(status, Payload::Nothing)
}

fn text(content: &str) -> Reply {
    reply(200, Payload::Text(content.to_string()))
}

fn sent<S, T>(flow: Result<Flow<S, T>, ForgeError>) -> (Request, S) {
    match flow {
        Ok(Flow::Send(request, state)) => (request, state),
        Ok(Flow::Done(_)) => panic!("done"),
        Err(error) => panic!("{error:?}"),
    }
}

fn done<S, T>(flow: Result<Flow<S, T>, ForgeError>) -> T {
    match flow {
        Ok(Flow::Done(value)) => value,
        Ok(Flow::Send(request, _)) => panic!("{request:?}"),
        Err(error) => panic!("{error:?}"),
    }
}

fn failed<T>(res: Result<T, ForgeError>) -> ForgeError {
    match res {
        Ok(_) => panic!("no error"),
        Err(error) => error,
    }
}

fn forge() -> Gitea {
    let (_, setup) = sent(Gitea::new(repo(), "abc", settings()));
    done(setup.on_reply(json("{\"default_branch\": \"main\"}")))
}

fn url(path: &str) -> String {
    format!("{API}{path}")
}

fn label(id: u64, name: &str) -> Label {
    Label { id, name: name.to_string() }
}

fn labels(goes_on: bool, labels: Vec<Label>) -> Reply {
    page(goes_on, Payload::Labels(labels))
}

fn pull(number: u64, head: &str, merged: bool, merge_commit: Option<&str>) -> GiteaPullRequest {
    GiteaPullRequest {
        number,
        body: format!("body {number}"),
        head: GiteaPullHead { label: head.to_string(), sha: format!("head{number}") },
        merged,
        merge_commit_sha: merge_commit.map(str::to_string),
    }
}

fn pulls(goes_on: bool, pulls: Vec<GiteaPullRequest>) -> Reply {
    page(goes_on, Payload::Pulls(pulls))
}

fn change(path: &str, content: &str, update_type: FileUpdateType) -> FileChange {
    FileChange { path: path.to_string(), content: content.to_string(), update_type }
}

fn created(sha: &str) -> Reply {
    let commit = Commit { sha: sha.to_string() };
    reply(201, Payload::CreatedCommit(GiteaCreatedCommit { commit }))
}

fn files_of(request: Request) -> GiteaModifyFiles {
    match request.body {
        Body::ModifyFiles(body) => body,
        other => panic!("{other:?}"),
    }
}


#[test]
fn file_is_asked_for_on_a_branch() {
    let forge = forge();
    let request = forge
        .get_file_content(GetFileContentRequest {
            branch: Some("next".to_string()),
            path: "src/a b.rs".to_string(),
        })
        .unwrap();
    assert_eq!(request.url, url("raw/src/a%20b.rs?ref=next"));
    assert_eq!(request.expect, Expect::Text);
    let request = forge
        .get_file_content(GetFileContentRequest { branch: None, path: "a.rs".to_string() })
        .unwrap();
    assert_eq!(request.url, url("raw/a.rs"));
}

#[test]
fn file_content_is_read() {
    assert_eq!(text("hello").file_content().unwrap(), Some("hello".to_string()));
    assert_eq!(nothing(404).file_content().unwrap(), None);
    assert!(matches!(failed(nothing(500).file_content()), ForgeError::Status(500)));
}

#[test]
fn file_hash_is_read() {
    let forge = forge();
    let request = forge.get_file_sha("./src/a.rs").unwrap();
    assert_eq!(request.url, url("contents/src/a.rs"));
    assert_eq!(json("{\"sha\": \"f1\"}").file_sha().unwrap(), "f1");
    match failed(json("{}").file_sha()) {
        ForgeError::Missing(what) => assert_eq!(what, "failed to get file sha"),
        other => panic!("{other:?}"),
    }
}

#[test]
fn configuration_file_is_asked_for() {
    let forge = forge();
    let request = forge.load_config(None).unwrap();
    assert_eq!(request.url, url("raw/forge.toml"));
    let request = forge.load_config(Some("next".to_string())).unwrap();
    assert_eq!(request.url, url("raw/forge.toml?ref=next"));
}

#[test]
fn request_comes_about_with_its_url_only() {
    let to = |url: Result<String, ForgeError>| {
        make_request(Method::Get, url, Body::Empty, Expect::Nothing)
    };
    assert_eq!(to(Ok(url("labels"))).unwrap().url, url("labels"));
    assert!(matches!(failed(to(Err(ForgeError::UrlTooLong))), ForgeError::UrlTooLong));
}

#[test]
fn branch_is_there_or_not() {
    let forge = forge();
    let request = forge.branch_exists("release").unwrap();
    assert_eq!(request.method, Method::Get);
    assert_eq!(request.url, url("branches/release"));
    assert!(nothing(200).branch_exists().unwrap());
    assert!(!nothing(404).branch_exists().unwrap());
    assert!(!nothing(204).branch_exists().unwrap());
    assert!(matches!(failed(nothing(403).branch_exists()), ForgeError::Status(403)));
    let request = forge.delete_branch("release").unwrap();
    assert_eq!(request.method, Method::Delete);
    assert_eq!(request.url, url("branches/release"));
}

fn commit_of(changes: Vec<FileChange>) -> CreateCommitRequest {
    CreateCommitRequest {
        target_branch: "main".to_string(),
        message: "chore: version".to_string(),
        file_changes: changes,
    }
}

#[test]
fn commit_creates_and_updates_files() {
    let forge = forge();
    let changes = vec![
        change("new.txt", "hello", FileUpdateType::Prepend),
        change("./old.txt", "new\n", FileUpdateType::Prepend),
        change("whole.txt", "fn main() {}\n", FileUpdateType::Replace),
    ];
    let (request, state) = sent(forge.create_commit(commit_of(changes)));
    assert_eq!(request.url, url("raw/new.txt?ref=main"));
    let (request, state) = sent(state.on_reply(&forge, nothing(404)));
    assert_eq!(request.url, url("raw/old.txt?ref=main"));
    let (request, state) = sent(state.on_reply(&forge, text("old\n")));
    assert_eq!(request.url, url("contents/old.txt"));
    let (_, state) = sent(state.on_reply(&forge, json("{\"sha\": \"f2\"}")));
    let (_, state) = sent(state.on_reply(&forge, text("")));
    let (request, state) = sent(state.on_reply(&forge, json("{\"sha\": \"f3\"}")));
    assert_eq!(request.method, Method::Post);
    assert_eq!(request.url, url("contents"));
    assert_eq!(request.expect, Expect::CreatedCommit);
    let body = files_of(request);
    assert_eq!(body.branch, "main");
    assert_eq!(body.new_branch, None);
    assert_eq!(body.message, "chore: version");
    assert!(!body.force_push);
    assert_eq!(body.files.len(), 3);
    assert_eq!(body.files[0].path, "new.txt");
    assert_eq!(body.files[0].operation, GiteaFileChangeOperation::Create);
    assert_eq!(body.files[0].content, "aGVsbG8=");
    assert_eq!(body.files[0].sha, None);
    assert_eq!(body.files[1].path, "./old.txt");
    assert_eq!(body.files[1].operation, GiteaFileChangeOperation::Update);
    assert_eq!(body.files[1].content, "bmV3Cm9sZAo=");
    assert_eq!(body.files[1].sha, Some("f2".to_string()));
    assert_eq!(body.files[2].content, "Zm4gbWFpbigpIHt9Cg==");
    assert_eq!(done(state.on_reply(&forge, created("c9"))).sha, "c9");
}

#[test]
fn commit_that_changes_nothing_is_not_made() {
    let forge = forge();
    let changes = vec![
        change("same.txt", "hello", FileUpdateType::Replace),
        change("empty.txt", "", FileUpdateType::Replace),
    ];
    let (_, state) = sent(forge.create_commit(commit_of(changes)));
    let (_, state) = sent(state.on_reply(&forge, text("hello")));
    let (_, state) = sent(state.on_reply(&forge, json("{\"sha\": \"f1\"}")));
    assert_eq!(done(state.on_reply(&forge, nothing(404))).sha, "None");
    assert_eq!(done(forge.create_commit(commit_of(vec![]))).sha, "None");
}

#[test]
fn unchanged_file_is_left_out_of_a_commit() {
    let forge = forge();
    let changes = vec![
        change("same.txt", "hello", FileUpdateType::Replace),
        change("b.txt", "gr\u{fc}\u{df}", FileUpdateType::Replace),
    ];
    let (_, state) = sent(forge.create_commit(commit_of(changes)));
    let (_, state) = sent(state.on_reply(&forge, text("hello")));
    let (_, state) = sent(state.on_reply(&forge, json("{\"sha\": \"f1\"}")));
    let (request, _) = sent(state.on_reply(&forge, nothing(404)));
    let body = files_of(request);
    assert_eq!(body.files.len(), 1);
    assert_eq!(body.files[0].path, "b.txt");
    assert_eq!(body.files[0].content, "Z3LDvMOf");
}

#[test]
fn failed_look_up_fails_the_commit() {
    let forge = forge();
    let changes = vec![change("a.txt", "a", FileUpdateType::Replace)];
    let (_, state) = sent(forge.create_commit(commit_of(changes)));
    let (_, state) = sent(state.on_reply(&forge, text("b")));
    assert!(matches!(failed(state.on_reply(&forge, nothing(404))), ForgeError::Status(404)));
}

fn branch_of(changes: Vec<FileChange>) -> CreateReleaseBranchRequest {
    CreateReleaseBranchRequest {
        base_branch: "main".to_string(),
        release_branch: "release".to_string(),
        message: "chore: release".to_string(),
        file_changes: changes,
    }
}

#[test]
fn new_release_branch_needs_no_deletion() {
    let forge = forge();
    let changes = vec![change("a.txt", "ab", FileUpdateType::Replace)];
    let (request, state) = sent(forge.create_release_branch(branch_of(changes)));
    assert_eq!(request.url, url("branches/release"));
    let (request, state) = sent(state.on_reply(&forge, nothing(404)));
    assert_eq!(request.url, url("raw/a.txt?ref=main"));
    let (request, state) = sent(state.on_reply(&forge, nothing(404)));
    let body = files_of(request);
    assert_eq!(body.branch, "main");
    assert_eq!(body.new_branch, Some("release".to_string()));
    assert!(body.force_push);
    assert_eq!(body.files[0].content, "YWI=");
    assert_eq!(done(state.on_reply(&forge, created("c1"))).sha, "c1");
}

#[test]
fn release_branch_keeps_files_that_do_not_change() {
    let forge = forge();
    let changes = vec![change("a.txt", "a", FileUpdateType::Replace)];
    let (_, state) = sent(forge.create_release_branch(branch_of(changes)));
    let (_, state) = sent(state.on_reply(&forge, nothing(404)));
    let (_, state) = sent(state.on_reply(&forge, text("a")));
    let (request, _) = sent(state.on_reply(&forge, json("{\"sha\": \"f1\"}")));
    let body = files_of(request);
    assert_eq!(body.files.len(), 1);
    assert_eq!(body.files[0].content, "YQ==");
    assert_eq!(body.files[0].operation, GiteaFileChangeOperation::Update);
}

#[test]
fn pull_of_a_branch_that_is_made_anew_is_opened_again() {
    let forge = forge();
    let (_, state) = sent(forge.create_release_branch(branch_of(vec![])));
    let (request, state) = sent(state.on_reply(&forge, nothing(200)));
    assert_eq!(request.url, url("labels?limit=50&page=1"));
    let page = labels(false, vec![label(5, "release:waiting")]);
    let (request, state) = sent(state.on_reply(&forge, page));
    assert_eq!(request.url, url("pulls?state=open&labels=5&limit=50&page=1"));
    let page = pulls(false, vec![pull(8, "release", false, None)]);
    let (request, state) = sent(state.on_reply(&forge, page));
    assert_eq!(request.method, Method::Delete);
    assert_eq!(request.url, url("branches/release"));
    let (request, state) = sent(state.on_reply(&forge, nothing(204)));
    assert!(files_of(request).files.is_empty());
    let (request, state) = sent(state.on_reply(&forge, created("c2")));
    assert_eq!(request.method, Method::Patch);
    assert_eq!(request.url, url("pulls/8"));
    assert!(matches!(request.body, Body::UpdatePullState(body) if body.state == "open"));
    assert_eq!(done(state.on_reply(&forge, nothing(200))).sha, "c2");
}

#[test]
fn branch_without_a_pull_is_made_anew() {
    let forge = forge();
    let (_, state) = sent(forge.create_release_branch(branch_of(vec![])));
    let (_, state) = sent(state.on_reply(&forge, nothing(200)));
    let (request, state) = sent(state.on_reply(&forge, labels(false, vec![])));
    assert_eq!(request.method, Method::Delete);
    let (_, state) = sent(state.on_reply(&forge, nothing(204)));
    assert_eq!(done(state.on_reply(&forge, created("c3"))).sha, "c3");
}

#[test]
fn branch_that_cannot_be_deleted_is_an_error() {
    let forge = forge();
    let (_, state) = sent(forge.create_release_branch(branch_of(vec![])));
    let (_, state) = sent(state.on_reply(&forge, nothing(200)));
    let (_, state) = sent(state.on_reply(&forge, labels(false, vec![])));
    assert!(matches!(failed(state.on_reply(&forge, nothing(403))), ForgeError::Status(403)));
}

#[test]
fn pull_that_cannot_be_opened_again_is_an_error() {
    let forge = forge();
    let (_, state) = sent(forge.create_release_branch(branch_of(vec![])));
    let (_, state) = sent(state.on_reply(&forge, nothing(200)));
    let page = labels(false, vec![label(5, "release:waiting")]);
    let (_, state) = sent(state.on_reply(&forge, page));
    let page = pulls(false, vec![pull(8, "release", false, None)]);
    let (_, state) = sent(state.on_reply(&forge, page));
    let (_, state) = sent(state.on_reply(&forge, nothing(204)));
    let (_, state) = sent(state.on_reply(&forge, created("c2")));
    assert!(matches!(failed(state.on_reply(&forge, nothing(409))), ForgeError::Status(409)));
}

//! The search for release pull requests, and changes to pull requests.

use gitea_forge::error::ForgeError;
use gitea_forge::gitea::Gitea;
use gitea_forge::http::{Body, Expect, Flow, Method, Payload, Reply, Request};
use gitea_forge::types::{CreatePrRequest, ForgeSettings, GetPrRequest, RepoUrl, UpdatePrRequest};
use gitea_forge::wire::{GiteaPullHead, GiteaPullRequest, Label};

const API: &str = "https://git.example.com/api/v1/repos/acme/tool/";

fn repo() -> RepoUrl {
    RepoUrl {
        scheme: "https".to_string(),
        host: "git.example.com".to_string(),
        port: None,
        owner: "acme".to_string(),
        name: "tool".to_string(),
        link_base_url: "https://git.example.com".to_string(),
    }
}

fn settings() -> ForgeSettings {
    ForgeSettings {
        commit_search_depth: 3,
        tag_search_depth: 4,
        page_size: 50,
        pending_label: "release:waiting".to_string(),
        legacy_pending_label: "waiting".to_string(),
        label_color: "336699".to_string(),
        config_file: "forge.toml".to_string(),
    }
}

fn reply(status: u16, payload: Payload) -> Reply {
    Reply { status, has_more: None, payload }
}

fn json(text: &str) -> Reply {
    reply(200, Payload::Json(text.as_bytes().to_vec()))
}

fn page(goes_on: bool, payload: Payload) -> Reply {
    let has_more = if goes_on { "true" } else { "false" };
    Reply { status: 200, has_more: Some(has_more.to_string()), payload }
}

fn sent<S, T>(flow: Result<Flow<S, T>, ForgeError>) -> (Request, S) {
    match flow {
        Ok(Flow::Send(request, state)) => (request, state),
        Ok(Flow::Done(_)) => panic!("done"),
        Err(error) => panic!("{error:?}"),
    }
}

fn done<S, T>(flow: Result<Flow<S, T>, ForgeError>) -> T {
    match flow {
        Ok(Flow::Done(value)) => value,
        Ok(Flow::Send(request, _)) => panic!("{request:?}"),
        Err(error) => panic!("{error:?}"),
    }
}

fn failed<T>(res: Result<T, ForgeError>) -> ForgeError {
    match res {
        Ok(_) => panic!("no error"),
        Err(error) => error,
    }
}

fn message(error: ForgeError) -> String {
    match error {
        ForgeError::Forge(message) => message,
        other => panic!("{other:?}"),
    }
}

fn forge() -> Gitea {
    let (_, setup) = sent(Gitea::new(repo(), "abc", settings()));
    done(setup.on_reply(json("{\"default_branch\": \"main\"}")))
}

fn url(path: &str) -> String {
    format!("{API}{path}")
}

fn label(id: u64, name: &str) -> Label {
    Label { id, name: name.to_string() }
}

fn labels(goes_on: bool, labels: Vec<Label>) -> Reply {
    page(goes_on, Payload::Labels(labels))
}

fn pull(number: u64, head: &str, merged: bool, merge_commit: Option<&str>) -> GiteaPullRequest {
    GiteaPullRequest {
        number,
        body: format!("body {number}"),
        head: GiteaPullHead { label: head.to_string(), sha: format!("head{number}") },
        merged,
        merge_commit_sha: merge_commit.map(str::to_string),
    }
}

fn pulls(goes_on: bool, pulls: Vec<GiteaPullRequest>) -> Reply {
    page(goes_on, Payload::Pulls(pulls))
}


fn wanted() -> GetPrRequest {
    GetPrRequest { base_branch: "main".to_string(), head_branch: "release".to_string() }
}

fn both_labels() -> Reply {
    labels(false, vec![label(4, "waiting"), label(5, "release:waiting"), label(6, "other")])
}

#[test]
fn open_pull_is_found_on_a_later_page() {
    let forge = forge();
    let (request, search) = sent(forge.get_open_release_pr(wanted()));
    assert_eq!(request.url, url("labels?limit=50&page=1"));
    let (request, search) = sent(search.on_reply(&forge, both_labels()));
    assert_eq!(request.url, url("pulls?state=open&labels=5&limit=50&page=1"));
    assert_eq!(request.expect, Expect::Pulls);
    let first = pulls(true, vec![pull(1, "feature", false, None)]);
    let (request, search) = sent(search.on_reply(&forge, first));
    assert_eq!(request.url, url("pulls?state=open&labels=5&limit=50&page=2"));
    let second = pulls(false, vec![pull(2, "release", false, None)]);
    let found = done(search.on_reply(&forge, second)).unwrap();
    assert_eq!(found.number, 2);
    assert_eq!(found.sha, "head2");
    assert_eq!(found.body, "body 2");
}

#[test]
fn legacy_label_is_searched_where_the_present_one_has_nothing() {
    let forge = forge();
    let (_, search) = sent(forge.get_open_release_pr(wanted()));
    let (_, search) = sent(search.on_reply(&forge, both_labels()));
    let (request, search) = sent(search.on_reply(&forge, pulls(false, vec![])));
    assert_eq!(request.url, url("pulls?state=open&labels=4&limit=50&page=1"));
    let found = done(search.on_reply(&forge, pulls(false, vec![pull(3, "release", false, None)])));
    assert_eq!(found.unwrap().number, 3);
}

#[test]
fn legacy_label_is_left_alone_where_the_present_one_has_something() {
    let forge = forge();
    let (_, search) = sent(forge.get_open_release_pr(wanted()));
    let (_, search) = sent(search.on_reply(&forge, both_labels()));
    let found = done(search.on_reply(&forge, pulls(false, vec![pull(3, "release", false, None)])));
    assert_eq!(found.unwrap().number, 3);
}

#[test]
fn legacy_label_alone_is_searched() {
    let forge = forge();
    let (_, search) = sent(forge.get_open_release_pr(wanted()));
    let page = labels(false, vec![label(4, "waiting")]);
    let (request, search) = sent(search.on_reply(&forge, page));
    assert_eq!(request.url, url("pulls?state=open&labels=4&limit=50&page=1"));
    assert!(done(search.on_reply(&forge, pulls(false, vec![]))).is_none());
}

#[test]
fn without_labels_no_pull_is_asked_for() {
    let forge = forge();
    let (_, search) = sent(forge.get_open_release_pr(wanted()));
    assert!(done(search.on_reply(&forge, labels(false, vec![label(6, "other")]))).is_none());
    let (_, search) = sent(forge.get_merged_release_pr(wanted()));
    assert!(done(search.on_reply(&forge, labels(false, vec![]))).is_none());
}

#[test]
fn two_open_pulls_are_an_error() {
    let forge = forge();
    let (_, search) = sent(forge.get_open_release_pr(wanted()));
    let (_, search) = sent(search.on_reply(&forge, both_labels()));
    let first = pulls(true, vec![pull(1, "release", false, None)]);
    let (_, search) = sent(search.on_reply(&forge, first));
    let second = pulls(false, vec![pull(2, "release", false, None)]);
    assert_eq!(
        message(failed(search.on_reply(&forge, second))),
        "Found more than one open release PR with pending label for branch release"
    );
}

#[test]
fn merged_pull_has_its_merge_commit() {
    let forge = forge();
    let (_, search) = sent(forge.get_merged_release_pr(wanted()));
    let (request, search) = sent(search.on_reply(&forge, both_labels()));
    assert_eq!(request.url, url("pulls?state=closed&labels=5&limit=50&page=1"));
    let page = pulls(
        false,
        vec![
            pull(1, "release", false, None),
            pull(2, "other", true, None),
            pull(3, "release", true, Some("merge3")),
        ],
    );
    let found = done(search.on_reply(&forge, page)).unwrap();
    assert_eq!(found.number, 3);
    assert_eq!(found.sha, "merge3");
    assert_eq!(found.body, "body 3");
}

#[test]
fn merged_pull_without_a_merge_commit_is_an_error() {
    let forge = forge();
    let (_, search) = sent(forge.get_merged_release_pr(wanted()));
    let (_, search) = sent(search.on_reply(&forge, both_labels()));
    let page = pulls(false, vec![pull(31, "release", true, None)]);
    assert_eq!(
        message(failed(search.on_reply(&forge, page))),
        "no merge_commit_sha found for pr 31"
    );
}

#[test]
fn two_merged_pulls_are_an_error() {
    let forge = forge();
    let (_, search) = sent(forge.get_merged_release_pr(wanted()));
    let (_, search) = sent(search.on_reply(&forge, both_labels()));
    let page =
        pulls(false, vec![pull(1, "release", true, Some("a")), pull(2, "release", true, Some("b"))]);
    assert_eq!(
        message(failed(search.on_reply(&forge, page))),
        "Found more than one closed release PR with pending label for branch release. \
         This means either release PRs were closed manually or releasaurus failed to remove tags. \
         You must remove the release:waiting label from all closed release PRs except for the most \
         recent."
    );
}

#[test]
fn page_of_pulls_that_fails_is_an_error() {
    let forge = forge();
    let (_, search) = sent(forge.get_open_release_pr(wanted()));
    let (_, search) = sent(search.on_reply(&forge, both_labels()));
    let error = failed(search.on_reply(&forge, reply(502, Payload::Nothing)));
    assert!(matches!(error, ForgeError::Status(502)));
}

#[test]
fn new_pull_is_asked_for_and_read() {
    let request = forge()
        .create_pr(CreatePrRequest {
            head_branch: "release".to_string(),
            base_branch: "main".to_string(),
            title: "chore: release".to_string(),
            body: "notes".to_string(),
        })
        .unwrap();
    assert_eq!(request.method, Method::Post);
    assert_eq!(request.url, url("pulls"));
    assert_eq!(request.expect, Expect::Pull);
    match request.body {
        Body::CreatePull(body) => {
            assert_eq!(body.head, "release");
            assert_eq!(body.base, "main");
            assert_eq!(body.title, "chore: release");
            assert_eq!(body.body, "notes");
        }
        other => panic!("{other:?}"),
    }
    let made = reply(201, Payload::Pull(pull(9, "release", false, None))).created_pr().unwrap();
    assert_eq!(made.number, 9);
    assert_eq!(made.sha, "head9");
    assert_eq!(made.body, "body 9");
}

#[test]
fn pull_gets_a_new_title_and_body() {
    let request = forge()
        .update_pr(UpdatePrRequest {
            pr_number: 120,
            title: "t".to_string(),
            body: "b".to_string(),
        })
        .unwrap();
    assert_eq!(request.method, Method::Patch);
    assert_eq!(request.url, url("pulls/120"));
    match request.body {
        Body::UpdatePullBody(body) => {
            assert_eq!(body.title, "t");
            assert_eq!(body.body, "b");
        }
        other => panic!("{other:?}"),
    }
}

#[test]
fn pull_is_opened_or_closed() {
    let request = forge().set_pr_state(3, "open").unwrap();
    assert_eq!(request.method, Method::Patch);
    assert_eq!(request.url, url("pulls/3"));
    assert!(matches!(request.body, Body::UpdatePullState(body) if body.state == "open"));
}

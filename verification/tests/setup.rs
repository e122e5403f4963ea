//! The setup of a forge, its links, its token, and its depths.

use gitea_forge::error::ForgeError;
use gitea_forge::gitea::{Gitea, GiteaSetup, header_text, require_text};
use gitea_forge::http::{Body, Expect, Flow, Method, Payload, Reply, Request, error_for_status};
use gitea_forge::types::{ForgeSettings, RepoUrl};

const API: &str = "https://git.example.com/api/v1/repos/acme/tool/";

fn repo() -> RepoUrl {
    RepoUrl {
        scheme: "https".to_string(),
        host: "git.example.com".to_string(),
        port: None,
        owner: "acme".to_string(),
        name: "tool".to_string(),
        link_base_url: "https://git.example.com".to_string(),
    }
}

fn settings() -> ForgeSettings {
    ForgeSettings {
        commit_search_depth: 3,
        tag_search_depth: 4,
        page_size: 50,
        pending_label: "release:waiting".to_string(),
        legacy_pending_label: "waiting".to_string(),
        label_color: "336699".to_string(),
        config_file: "forge.toml".to_string(),
    }
}

fn reply(status: u16, payload: Payload) -> Reply {
    Reply { status, has_more: None, payload }
}

fn json(text: &str) -> Reply {
    reply(200, Payload::Json(text.as_bytes().to_vec()))
}

fn text(content: &str) -> Reply {
    reply(200, Payload::Text(content.to_string()))
}

fn sent<S, T>(flow: Result<Flow<S, T>, ForgeError>) -> (Request, S) {
    match flow {
        Ok(Flow::Send(request, state)) => (request, state),
        Ok(Flow::Done(_)) => panic!("done"),
        Err(error) => panic!("{error:?}"),
    }
}

fn done<S, T>(flow: Result<Flow<S, T>, ForgeError>) -> T {
    match flow {
        Ok(Flow::Done(value)) => value,
        Ok(Flow::Send(request, _)) => panic!("{request:?}"),
        Err(error) => panic!("{error:?}"),
    }
}

fn failed<T>(res: Result<T, ForgeError>) -> ForgeError {
    match res {
        Ok(_) => panic!("no error"),
        Err(error) => error,
    }
}

fn forge() -> Gitea {
    let (_, setup) = sent(Gitea::new(repo(), "abc", settings()));
    done(setup.on_reply(json("{\"default_branch\": \"main\"}")))
}

fn url(path: &str) -> String {
    format!("{API}{path}")
}


#[test]
fn repository_is_asked_for() {
    let (request, setup) = sent(Gitea::new(repo(), "abc", settings()));
    assert_eq!(request.method, Method::Get);
    assert_eq!(request.url, API);
    assert_eq!(request.expect, Expect::Json);
    assert!(matches!(request.body, Body::Empty));
    assert_eq!(setup.authorization(), "token abc");
}

#[test]
fn default_branch_and_links_are_kept() {
    let forge = forge();
    assert_eq!(forge.default_branch(), "main");
    assert_eq!(forge.repo_name(), "tool");
    assert_eq!(forge.release_link_base_url(), "https://git.example.com/acme/tool/releases/");
    assert_eq!(forge.compare_link_base_url(), "https://git.example.com/acme/tool/compare/");
}

#[test]
fn port_stands_in_the_api_url_only() {
    let url = RepoUrl { port: Some(3000), ..repo() };
    let (request, setup) = sent(Gitea::new(url, "abc", settings()));
    assert_eq!(request.url, "https://git.example.com:3000/api/v1/repos/acme/tool/");
    let forge = done(setup.on_reply(json("{\"default_branch\": \"trunk\"}")));
    assert_eq!(forge.default_branch(), "trunk");
    assert_eq!(forge.release_link_base_url(), "https://git.example.com/acme/tool/releases/");
}

#[test]
fn default_port_is_dropped_from_the_api_url() {
    let url = RepoUrl { port: Some(443), ..repo() };
    let (request, _) = sent(Gitea::new(url, "abc", settings()));
    assert_eq!(request.url, API);
}

#[test]
fn link_base_must_be_a_url() {
    let url = RepoUrl { link_base_url: "no url".to_string(), ..repo() };
    let error = failed(Gitea::new(url, "abc", settings()));
    assert!(matches!(error, ForgeError::InvalidUrl(_)));
}

#[test]
fn host_must_make_a_url() {
    let url = RepoUrl { host: "a b".to_string(), ..repo() };
    let error = failed(Gitea::new(url, "abc", settings()));
    assert!(matches!(error, ForgeError::InvalidUrl(_)));
}

#[test]
fn token_with_a_line_break_is_refused() {
    let error = failed(Gitea::new(repo(), "ab\nc", settings()));
    assert!(matches!(error, ForgeError::InvalidHeader));
}

#[test]
fn token_is_checked_before_the_host() {
    let url = RepoUrl { host: "a b".to_string(), ..repo() };
    let error = failed(Gitea::new(url, "ab\nc", settings()));
    assert!(matches!(error, ForgeError::InvalidHeader));
}

#[test]
fn links_are_checked_before_the_token() {
    let url = RepoUrl { link_base_url: "no url".to_string(), ..repo() };
    let error = failed(Gitea::new(url, "ab\nc", settings()));
    assert!(matches!(error, ForgeError::InvalidUrl(_)));
}

#[test]
fn setup_can_start_from_links() {
    let (request, setup) = sent(GiteaSetup::with_links(
        repo(),
        "xyz",
        settings(),
        Ok("https://a.example/releases/".to_string()),
        Ok("https://a.example/compare/".to_string()),
        Ok("https://a.example/api/".to_string()),
    ));
    assert_eq!(request.url, "https://a.example/api/");
    assert_eq!(setup.authorization(), "token xyz");
    let forge = done(setup.on_reply(json("{\"default_branch\": \"main\"}")));
    assert_eq!(forge.compare_link_base_url(), "https://a.example/compare/");
}

#[test]
fn header_text_takes_tabs_and_letters() {
    assert!(header_text(""));
    assert!(header_text("token\tabc ~ \u{e4}"));
    assert!(!header_text("a\u{7f}"));
    assert!(!header_text("\u{1f}"));
    assert!(!header_text("a\r"));
}

#[test]
fn header_text_agrees_with_the_http_crate() {
    for code in 0u32..0x180 {
        let text = char::from_u32(code).unwrap().to_string();
        let accepted = reqwest::header::HeaderValue::from_str(&text).is_ok();
        assert_eq!(header_text(&text), accepted, "{code}");
    }
}

#[test]
fn missing_default_branch_is_an_error() {
    let (_, setup) = sent(Gitea::new(repo(), "abc", settings()));
    match failed(setup.on_reply(json("{\"default_branch\": 1}"))) {
        ForgeError::Missing(what) => assert_eq!(what, "failed to get default branch"),
        other => panic!("{other:?}"),
    }
}

#[test]
fn broken_json_is_an_error() {
    let (_, setup) = sent(Gitea::new(repo(), "abc", settings()));
    assert!(matches!(failed(setup.on_reply(json("{"))), ForgeError::InvalidJson(_)));
}

#[test]
fn refused_repository_is_an_error() {
    let (_, setup) = sent(Gitea::new(repo(), "abc", settings()));
    let error = failed(setup.on_reply(reply(401, Payload::Nothing)));
    assert!(matches!(error, ForgeError::Status(401)));
}

#[test]
fn wrong_payload_is_an_error() {
    let (_, setup) = sent(Gitea::new(repo(), "abc", settings()));
    let error = failed(setup.on_reply(reply(200, Payload::Text("main".to_string()))));
    assert!(matches!(error, ForgeError::UnexpectedPayload));
}

#[test]
fn unreadable_payload_tells_why() {
    let (_, setup) = sent(Gitea::new(repo(), "abc", settings()));
    match failed(setup.on_reply(reply(200, Payload::Unreadable("cut off".to_string())))) {
        ForgeError::Undecodable(reason) => assert_eq!(reason, "cut off"),
        other => panic!("{other:?}"),
    }
}

#[test]
fn required_text_is_handed_on() {
    assert_eq!(require_text(Some("a".to_string()), "no a").unwrap(), "a");
    assert!(matches!(failed(require_text(None, "no a")), ForgeError::Missing(m) if m == "no a"));
}

#[test]
fn zero_takes_the_depths_away() {
    let mut forge = forge();
    forge.set_commit_search_depth(7);
    forge.set_tag_search_depth(9);
    assert_eq!(forge.settings().commit_search_depth, 7);
    assert_eq!(forge.settings().tag_search_depth, 9);
    forge.set_commit_search_depth(0);
    assert_eq!(forge.settings().commit_search_depth, usize::MAX);
    assert_eq!(forge.settings().tag_search_depth, 9);
    forge.set_tag_search_depth(0);
    assert_eq!(forge.settings().tag_search_depth, usize::MAX);
    assert_eq!(forge.settings().page_size, 50);
    assert_eq!(forge.default_branch(), "main");
}

#[test]
fn client_and_server_errors_are_errors() {
    assert!(error_for_status(200).is_ok());
    assert!(error_for_status(399).is_ok());
    assert!(matches!(failed(error_for_status(400)), ForgeError::Status(400)));
    assert!(matches!(failed(error_for_status(599)), ForgeError::Status(599)));
    assert!(error_for_status(600).is_ok());
}

//! Releases and their tags.

use gitea_forge::error::ForgeError;
use gitea_forge::gitea::Gitea;
use gitea_forge::http::{Body, Expect, Flow, Method, Payload, Reply, Request};
use gitea_forge::types::{ForgeSettings, RepoUrl};
use gitea_forge::wire::{GiteaRelease, GiteaTag, GiteaTagCommit};

const API: &str = "https://git.example.com/api/v1/repos/acme/tool/";

fn repo() -> RepoUrl {
    RepoUrl {
        scheme: "https".to_string(),
        host: "git.example.com".to_string(),
        port: None,
        owner: "acme".to_string(),
        name: "tool".to_string(),
        link_base_url: "https://git.example.com".to_string(),
    }
}

fn settings() -> ForgeSettings {
    ForgeSettings {
        commit_search_depth: 3,
        tag_search_depth: 4,
        page_size: 50,
        pending_label: "release:waiting".to_string(),
        legacy_pending_label: "waiting".to_string(),
        label_color: "336699".to_string(),
        config_file: "forge.toml".to_string(),
    }
}

fn reply(status: u16, payload: Payload) -> Reply {
    Reply { status, has_more: None, payload }
}

fn json(text: &str) -> Reply {
    reply(200, Payload::Json(text.as_bytes().to_vec()))
}

fn nothing(status: u16) -> Reply {
    reply(status, Payload::Nothing)
}

fn sent<S, T>(flow: Result<Flow<S, T>, ForgeError>) -> (Request, S) {
    match flow {
        Ok(Flow::Send(request, state)) => (request, state),
        Ok(Flow::Done(_)) => panic!("done"),
        Err(error) => panic!("{error:?}"),
    }
}

fn done<S, T>(flow: Result<Flow<S, T>, ForgeError>) -> T {
    match flow {
        Ok(Flow::Done(value)) => value,
        Ok(Flow::Send(request, _)) => panic!("{request:?}"),
        Err(error) => panic!("{error:?}"),
    }
}

fn failed<T>(res: Result<T, ForgeError>) -> ForgeError {
    match res {
        Ok(_) => panic!("no error"),
        Err(error) => error,
    }
}

fn message(error: ForgeError) -> String {
    match error {
        ForgeError::Forge(message) => message,
        other => panic!("{other:?}"),
    }
}

fn forge() -> Gitea {
    let (_, setup) = sent(Gitea::new(repo(), "abc", settings()));
    done(setup.on_reply(json("{\"default_branch\": \"main\"}")))
}

fn url(path: &str) -> String {
    format!("{API}{path}")
}

fn tag(name: &str, sha: &str, created: &str) -> GiteaTag {
    GiteaTag {
        name: name.to_string(),
        commit: GiteaTagCommit { sha: sha.to_string(), created: created.to_string() },
    }
}


#[test]
fn release_of_a_tag_is_looked_up() {
    let forge = forge();
    let (request, lookup) = sent(forge.get_release_by_tag("v1"));
    assert_eq!(request.url, url("tags/v1"));
    assert_eq!(request.expect, Expect::Tag);
    let found = reply(200, Payload::Tag(tag("v1.0.0", "s1", "")));
    let (request, lookup) = sent(lookup.on_reply(&forge, found));
    assert_eq!(request.url, url("releases/tags/v1.0.0"));
    assert_eq!(request.expect, Expect::Release);
    let release = GiteaRelease { body: "notes".to_string() };
    let response = done(lookup.on_reply(&forge, reply(200, Payload::Release(release))));
    assert_eq!(response.tag, "v1.0.0");
    assert_eq!(response.sha, "s1");
    assert_eq!(response.notes, "notes");
}

#[test]
fn missing_tag_and_missing_release_are_told_apart() {
    let forge = forge();
    let (_, lookup) = sent(forge.get_release_by_tag("v1"));
    assert_eq!(message(failed(lookup.on_reply(&forge, nothing(404)))), "tag not found: v1");
    let (_, lookup) = sent(forge.get_release_by_tag("v1"));
    let found = reply(200, Payload::Tag(tag("v1.0.0", "s1", "")));
    let (_, lookup) = sent(lookup.on_reply(&forge, found));
    assert_eq!(
        message(failed(lookup.on_reply(&forge, nothing(404)))),
        "no release found for tag: v1.0.0"
    );
}

#[test]
fn refused_look_up_is_an_error() {
    let forge = forge();
    let (_, lookup) = sent(forge.get_release_by_tag("v1"));
    assert!(matches!(failed(lookup.on_reply(&forge, nothing(403))), ForgeError::Status(403)));
}

#[test]
fn tag_is_put_on_a_commit() {
    let forge = forge();
    let (request, tagging) = sent(forge.tag_commit("v1.0.0", "s1"));
    assert_eq!(request.method, Method::Post);
    assert_eq!(request.url, url("tags"));
    match request.body {
        Body::CreateTag(body) => {
            assert_eq!(body.tag_name, "v1.0.0");
            assert_eq!(body.target, "s1");
        }
        other => panic!("{other:?}"),
    }
    done(tagging.on_reply(&forge, nothing(201)));
}

#[test]
fn tag_that_is_there_already_is_fine() {
    let forge = forge();
    let (_, tagging) = sent(forge.tag_commit("v1.0.0", "s1"));
    let (request, tagging) = sent(tagging.on_reply(&forge, nothing(409)));
    assert_eq!(request.method, Method::Get);
    assert_eq!(request.url, url("tags/v1.0.0"));
    done(tagging.on_reply(&forge, reply(200, Payload::Tag(tag("v1.0.0", "s1", "")))));
}

#[test]
fn tag_on_another_commit_is_an_error() {
    let forge = forge();
    let (_, tagging) = sent(forge.tag_commit("v1.0.0", "s1"));
    let (_, tagging) = sent(tagging.on_reply(&forge, nothing(409)));
    let elsewhere = reply(200, Payload::Tag(tag("v1.0.0", "s2", "")));
    assert_eq!(
        message(failed(tagging.on_reply(&forge, elsewhere))),
        "tag v1.0.0 already exists pointing at s2 but expected s1"
    );
}

#[test]
fn refused_tag_is_an_error() {
    let forge = forge();
    let (_, tagging) = sent(forge.tag_commit("v1.0.0", "s1"));
    assert!(matches!(failed(tagging.on_reply(&forge, nothing(422))), ForgeError::Status(422)));
    let (_, tagging) = sent(forge.tag_commit("v1.0.0", "s1"));
    let (_, tagging) = sent(tagging.on_reply(&forge, nothing(409)));
    assert!(matches!(failed(tagging.on_reply(&forge, nothing(404))), ForgeError::Status(404)));
}

#[test]
fn new_release_is_asked_for() {
    let request = forge().create_release("v1.0.0", "s1", "notes").unwrap();
    assert_eq!(request.method, Method::Post);
    assert_eq!(request.url, url("releases"));
    assert_eq!(request.expect, Expect::Nothing);
    match request.body {
        Body::CreateRelease(body) => {
            assert_eq!(body.tag_name, "v1.0.0");
            assert_eq!(body.name, "v1.0.0");
            assert_eq!(body.target_commitish, "s1");
            assert_eq!(body.body, "notes");
            assert!(!body.draft);
            assert!(!body.prerelease);
        }
        other => panic!("{other:?}"),
    }
}

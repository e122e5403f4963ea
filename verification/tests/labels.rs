//! Listings of labels, and labels given to pull requests.

use gitea_forge::error::ForgeError;
use gitea_forge::gitea::Gitea;
use gitea_forge::http::{Body, Expect, Flow, Method, Payload, Reply, Request};
use gitea_forge::labels::find_label;
use gitea_forge::types::{ForgeSettings, PrLabelsRequest, RepoUrl};
use gitea_forge::wire::Label;

const API: &str = "https://git.example.com/api/v1/repos/acme/tool/";

fn repo() -> RepoUrl {
    RepoUrl {
        scheme: "https".to_string(),
        host: "git.example.com".to_string(),
        port: None,
        owner: "acme".to_string(),
        name: "tool".to_string(),
        link_base_url: "https://git.example.com".to_string(),
    }
}

fn settings() -> ForgeSettings {
    ForgeSettings {
        commit_search_depth: 3,
        tag_search_depth: 4,
        page_size: 50,
        pending_label: "release:waiting".to_string(),
        legacy_pending_label: "waiting".to_string(),
        label_color: "336699".to_string(),
        config_file: "forge.toml".to_string(),
    }
}

fn reply(status: u16, payload: Payload) -> Reply {
    Reply { status, has_more: None, payload }
}

fn json(text: &str) -> Reply {
    reply(200, Payload::Json(text.as_bytes().to_vec()))
}

fn page(goes_on: bool, payload: Payload) -> Reply {
    let has_more = if goes_on { "true" } else { "false" };
    Reply { status: 200, has_more: Some(has_more.to_string()), payload }
}

fn nothing(status: u16) -> Reply {
    reply(status, Payload::Nothing)
}

fn sent<S, T>(flow: Result<Flow<S, T>, ForgeError>) -> (Request, S) {
    match flow {
        Ok(Flow::Send(request, state)) => (request, state),
        Ok(Flow::Done(_)) => panic!("done"),
        Err(error) => panic!("{error:?}"),
    }
}

fn done<S, T>(flow: Result<Flow<S, T>, ForgeError>) -> T {
    match flow {
        Ok(Flow::Done(value)) => value,
        Ok(Flow::Send(request, _)) => panic!("{request:?}"),
        Err(error) => panic!("{error:?}"),
    }
}

fn failed<T>(res: Result<T, ForgeError>) -> ForgeError {
    match res {
        Ok(_) => panic!("no error"),
        Err(error) => error,
    }
}

fn forge() -> Gitea {
    let (_, setup) = sent(Gitea::new(repo(), "abc", settings()));
    done(setup.on_reply(json("{\"default_branch\": \"main\"}")))
}

fn url(path: &str) -> String {
    format!("{API}{path}")
}

fn label(id: u64, name: &str) -> Label {
    Label { id, name: name.to_string() }
}

fn labels(goes_on: bool, labels: Vec<Label>) -> Reply {
    page(goes_on, Payload::Labels(labels))
}


#[test]
fn labels_of_all_pages_are_listed() {
    let forge = forge();
    let (request, listing) = sent(forge.get_all_labels());
    assert_eq!(request.method, Method::Get);
    assert_eq!(request.url, url("labels?limit=50&page=1"));
    assert_eq!(request.expect, Expect::Labels);
    let first = labels(true, vec![label(1, "a"), label(2, "b")]);
    let (request, listing) = sent(listing.on_reply(&forge, first));
    assert_eq!(request.url, url("labels?limit=50&page=2"));
    let all = done(listing.on_reply(&forge, labels(false, vec![label(3, "c")])));
    let ids: Vec<u64> = all.iter().map(|l| l.id).collect();
    assert_eq!(ids, vec![1, 2, 3]);
    assert_eq!(all[2].name, "c");
}

#[test]
fn listing_without_a_header_ends() {
    let forge = forge();
    let (_, listing) = sent(forge.get_all_labels());
    let all = done(listing.on_reply(&forge, reply(200, Payload::Labels(vec![label(1, "a")]))));
    assert_eq!(all.len(), 1);
}

#[test]
fn failed_page_fails_the_listing() {
    let forge = forge();
    let (_, listing) = sent(forge.get_all_labels());
    let error = failed(listing.on_reply(&forge, nothing(500)));
    assert!(matches!(error, ForgeError::Status(500)));
}

#[test]
fn first_label_of_a_name_is_found() {
    let all = vec![label(1, "a"), label(2, "b"), label(3, "b")];
    assert_eq!(find_label(&all, "b"), Some(2));
    assert_eq!(find_label(&all, "c"), None);
}

#[test]
fn new_label_has_the_color_of_the_settings() {
    let request = forge().create_label("done".to_string()).unwrap();
    assert_eq!(request.method, Method::Post);
    assert_eq!(request.url, url("labels"));
    assert_eq!(request.expect, Expect::Label);
    match request.body {
        Body::CreateLabel(body) => {
            assert_eq!(body.name, "done");
            assert_eq!(body.color, "336699");
        }
        other => panic!("{other:?}"),
    }
}

fn asked(names: &[&str]) -> PrLabelsRequest {
    PrLabelsRequest { pr_number: 12, labels: names.iter().map(|n| n.to_string()).collect() }
}

fn ids_of(request: Request) -> Vec<u64> {
    assert_eq!(request.method, Method::Put);
    assert_eq!(request.url, url("issues/12/labels"));
    match request.body {
        Body::UpdatePullLabels(body) => body.labels,
        other => panic!("{other:?}"),
    }
}

#[test]
fn missing_labels_are_made_and_all_are_put_in_order() {
    let forge = forge();
    let (_, state) = sent(forge.replace_pr_labels(asked(&["new", "b", "newer"])));
    let (_, state) = sent(state.on_reply(&forge, labels(true, vec![label(1, "a")])));
    let (request, state) = sent(state.on_reply(&forge, labels(false, vec![label(2, "b")])));
    assert!(matches!(request.body, Body::CreateLabel(body) if body.name == "new"));
    let (request, state) =
        sent(state.on_reply(&forge, reply(201, Payload::Label(label(7, "new")))));
    assert!(matches!(request.body, Body::CreateLabel(body) if body.name == "newer"));
    let (request, state) =
        sent(state.on_reply(&forge, reply(201, Payload::Label(label(8, "newer")))));
    assert_eq!(ids_of(request), vec![7, 2, 8]);
    done(state.on_reply(&forge, nothing(200)));
}

#[test]
fn labels_that_are_there_are_not_made() {
    let forge = forge();
    let (_, state) = sent(forge.replace_pr_labels(asked(&["b", "a", "b"])));
    let page = labels(false, vec![label(1, "a"), label(2, "b")]);
    let (request, state) = sent(state.on_reply(&forge, page));
    assert_eq!(ids_of(request), vec![2, 1, 2]);
    assert!(matches!(failed(state.on_reply(&forge, nothing(403))), ForgeError::Status(403)));
}

#[test]
fn no_names_take_all_labels_away() {
    let forge = forge();
    let (_, state) = sent(forge.replace_pr_labels(asked(&[])));
    let (request, _) = sent(state.on_reply(&forge, labels(false, vec![label(1, "a")])));
    assert_eq!(ids_of(request), Vec::<u64>::new());
}

#[test]
fn label_that_cannot_be_made_is_an_error() {
    let forge = forge();
    let (_, state) = sent(forge.replace_pr_labels(asked(&["new"])));
    let (_, state) = sent(state.on_reply(&forge, labels(false, vec![])));
    assert!(matches!(failed(state.on_reply(&forge, nothing(422))), ForgeError::Status(422)));
}

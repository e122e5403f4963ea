//! The search for the tags that name versions.

use gitea_forge::error::ForgeError;
use gitea_forge::gitea::Gitea;
use gitea_forge::http::{Expect, Flow, Method, Payload, Reply, Request};
use gitea_forge::tags::{Scan, TagSearch, counts_none, date_tag};
use gitea_forge::types::{ForgeSettings, RepoUrl, SemVer};
use gitea_forge::wire::{GiteaTag, GiteaTagCommit};

const API: &str = "https://git.example.com/api/v1/repos/acme/tool/";

fn repo() -> RepoUrl {
    RepoUrl {
        scheme: "https".to_string(),
        host: "git.example.com".to_string(),
        port: None,
        owner: "acme".to_string(),
        name: "tool".to_string(),
        link_base_url: "https://git.example.com".to_string(),
    }
}

fn settings() -> ForgeSettings {
    ForgeSettings {
        commit_search_depth: 3,
        tag_search_depth: 4,
        page_size: 50,
        pending_label: "release:waiting".to_string(),
        legacy_pending_label: "waiting".to_string(),
        label_color: "336699".to_string(),
        config_file: "forge.toml".to_string(),
    }
}

fn reply(status: u16, payload: Payload) -> Reply {
    Reply { status, has_more: None, payload }
}

fn json(text: &str) -> Reply {
    reply(200, Payload::Json(text.as_bytes().to_vec()))
}

fn page(goes_on: bool, payload: Payload) -> Reply {
    let has_more = if goes_on { "true" } else { "false" };
    Reply { status: 200, has_more: Some(has_more.to_string()), payload }
}

fn nothing(status: u16) -> Reply {
    reply(status, Payload::Nothing)
}

fn sent<S, T>(flow: Result<Flow<S, T>, ForgeError>) -> (Request, S) {
    match flow {
        Ok(Flow::Send(request, state)) => (request, state),
        Ok(Flow::Done(_)) => panic!("done"),
        Err(error) => panic!("{error:?}"),
    }
}

fn done<S, T>(flow: Result<Flow<S, T>, ForgeError>) -> T {
    match flow {
        Ok(Flow::Done(value)) => value,
        Ok(Flow::Send(request, _)) => panic!("{request:?}"),
        Err(error) => panic!("{error:?}"),
    }
}

fn failed<T>(res: Result<T, ForgeError>) -> ForgeError {
    match res {
        Ok(_) => panic!("no error"),
        Err(error) => error,
    }
}

fn forge() -> Gitea {
    let (_, setup) = sent(Gitea::new(repo(), "abc", settings()));
    done(setup.on_reply(json("{\"default_branch\": \"main\"}")))
}

fn url(path: &str) -> String {
    format!("{API}{path}")
}

fn tag(name: &str, sha: &str, created: &str) -> GiteaTag {
    GiteaTag {
        name: name.to_string(),
        commit: GiteaTagCommit { sha: sha.to_string(), created: created.to_string() },
    }
}


fn tags(goes_on: bool, tags: Vec<GiteaTag>) -> Reply {
    page(goes_on, Payload::Tags(tags))
}

const DATE: &str = "2024-05-02T10:00:00Z";

#[test]
fn versions_in_the_history_are_found() {
    let forge = forge();
    let (request, search) = sent(forge.get_latest_tags_for_prefix("api-v", "main"));
    assert_eq!(request.url, url("tags?limit=50&page=1"));
    assert_eq!(request.expect, Expect::Tags);
    let first = tags(true, vec![tag("web-v9.0.0", "s1", DATE), tag("api-v1.2.3-rc.1+b7", "s2", DATE)]);
    let (request, search) = sent(search.on_reply(&forge, first));
    assert_eq!(request.url, url("compare/main...s2"));
    assert_eq!(request.expect, Expect::Json);
    let (request, search) = sent(search.on_reply(&forge, json("{\"total_commits\": 0}")));
    assert_eq!(request.url, url("tags?limit=50&page=2"));
    let second = tags(false, vec![tag("api-v1.0.0", "s3", "no date"), tag("api-vx", "s4", DATE)]);
    let (request, search) = sent(search.on_reply(&forge, second));
    assert_eq!(request.url, url("compare/main...s3"));
    let found = done(search.on_reply(&forge, json("{\"total_commits\": 0}")));
    assert_eq!(found.len(), 2);
    assert_eq!(found[0].name, "api-v1.2.3-rc.1+b7");
    assert_eq!(found[0].sha, "s2");
    assert_eq!(found[0].timestamp, Some(1714644000));
    let semver = &found[0].semver;
    assert_eq!((semver.major, semver.minor, semver.patch), (1, 2, 3));
    assert_eq!(semver.pre, "rc.1");
    assert_eq!(semver.build, "b7");
    assert_eq!(found[1].name, "api-v1.0.0");
    assert_eq!(found[1].timestamp, None);
}

#[test]
fn tag_outside_the_history_is_left_out() {
    let forge = forge();
    let (_, search) = sent(forge.get_latest_tags_for_prefix("v", "main"));
    let all = tags(false, vec![tag("v2.0.0", "s1", DATE), tag("v1.0.0", "s2", DATE)]);
    let (_, search) = sent(search.on_reply(&forge, all));
    let (request, search) = sent(search.on_reply(&forge, json("{\"total_commits\": 3}")));
    assert_eq!(request.url, url("compare/main...s2"));
    assert!(done(search.on_reply(&forge, json("{}"))).is_empty());
}

#[test]
fn search_stops_at_its_depth() {
    let forge = forge();
    let (_, search) = sent(forge.get_latest_tags_for_prefix("v", "main"));
    let five = vec![
        tag("a", "s1", DATE),
        tag("b", "s2", DATE),
        tag("c", "s3", DATE),
        tag("v1.0.0", "s4", DATE),
        tag("v0.9.0", "s5", DATE),
    ];
    let (request, search) = sent(search.on_reply(&forge, tags(true, five)));
    assert_eq!(request.url, url("compare/main...s4"));
    let found = done(search.on_reply(&forge, json("{\"total_commits\": 0}")));
    assert_eq!(found.len(), 1);
}

#[test]
fn page_that_ends_at_the_depth_asks_for_one_page_more() {
    let forge = forge();
    let (_, search) = sent(forge.get_latest_tags_for_prefix("v", "main"));
    let four =
        vec![tag("a", "s", DATE), tag("b", "s", DATE), tag("c", "s", DATE), tag("d", "s", DATE)];
    let (request, search) = sent(search.on_reply(&forge, tags(true, four)));
    assert_eq!(request.url, url("tags?limit=50&page=2"));
    assert!(done(search.on_reply(&forge, tags(true, vec![tag("v1.0.0", "s", DATE)]))).is_empty());
}

#[test]
fn prefix_is_a_regular_expression() {
    let forge = forge();
    let (_, search) = sent(forge.get_latest_tags_for_prefix("(api|web)-v", "main"));
    let (request, _) = sent(search.on_reply(&forge, tags(false, vec![tag("web-v1.0.0", "s1", DATE)])));
    assert_eq!(request.url, url("compare/main...s1"));
}

#[test]
fn prefix_matches_at_the_start_only() {
    let forge = forge();
    let (_, search) = sent(forge.get_latest_tags_for_prefix("v", "main"));
    let all = tags(false, vec![tag("xv1.0.0", "s1", DATE), tag("1.0.0", "s2", DATE)]);
    assert!(done(search.on_reply(&forge, all)).is_empty());
}

#[test]
fn broken_prefix_is_an_error() {
    let error = failed(forge().get_latest_tags_for_prefix("(", "main"));
    assert!(matches!(error, ForgeError::InvalidPattern(_)));
}

#[test]
fn failed_comparison_is_an_error() {
    let forge = forge();
    let (_, search) = sent(forge.get_latest_tags_for_prefix("v", "main"));
    let (_, search) = sent(search.on_reply(&forge, tags(false, vec![tag("v1.0.0", "s1", DATE)])));
    assert!(matches!(failed(search.on_reply(&forge, nothing(500))), ForgeError::Status(500)));
}

#[test]
fn comparison_that_is_no_json_is_an_error() {
    assert!(matches!(failed(json("no").is_ancestor()), ForgeError::InvalidJson(_)));
    assert!(json("{\"total_commits\": 0}").is_ancestor().unwrap());
    assert!(!json("{\"total_commits\": 1}").is_ancestor().unwrap());
    assert!(!json("{\"total_commits\": \"0\"}").is_ancestor().unwrap());
    assert!(!json("{\"total_commits\": -1}").is_ancestor().unwrap());
    assert!(!json("[]").is_ancestor().unwrap());
}

#[test]
fn counts_are_compared_with_zero() {
    assert!(counts_none(Some(0)));
    assert!(!counts_none(Some(1)));
    assert!(!counts_none(None));
}

#[test]
fn comparison_asks_for_what_the_tag_has_and_the_branch_lacks() {
    let request = forge().is_tag_ancestor_of_branch("abc123", "release/next").unwrap();
    assert_eq!(request.method, Method::Get);
    assert_eq!(request.url, url("compare/release/next...abc123"));
}

fn version() -> SemVer {
    SemVer { major: 1, minor: 0, patch: 0, pre: String::new(), build: String::new() }
}

#[test]
fn tag_is_dated() {
    let made = date_tag(tag("v1.0.0", "s1", DATE), version(), Some(5));
    assert_eq!(made.timestamp, Some(5));
    assert_eq!(made.sha, "s1");
    assert_eq!(made.semver.major, 1);
}

#[test]
fn scan_leads_to_the_next_page_or_to_the_end() {
    let forge = forge();
    let end = |exhausted: bool| Scan::End { examined: 2, exhausted };
    let pattern = || "^v".to_string();
    let branch = || "main".to_string();
    let next = TagSearch::on_scan(&forge, pattern(), branch(), vec![], 4, true, end(false));
    assert_eq!(sent(next).0.url, url("tags?limit=50&page=5"));
    let over = TagSearch::on_scan(&forge, pattern(), branch(), vec![], 4, true, end(true));
    assert!(done(over).is_empty());
    let last = TagSearch::on_scan(&forge, pattern(), branch(), vec![], 4, false, end(false));
    assert!(done(last).is_empty());
    let many = TagSearch::on_scan(&forge, pattern(), branch(), vec![], u64::MAX, true, end(false));
    assert!(matches!(failed(many), ForgeError::PageOverflow));
    let found = Scan::Version {
        tag: tag("v1.0.0", "s9", DATE),
        semver: version(),
        examined: 1,
        later: vec![],
    };
    let compared = TagSearch::on_scan(&forge, pattern(), branch(), vec![], 1, false, found);
    assert_eq!(sent(compared).0.url, url("compare/main...s9"));
}

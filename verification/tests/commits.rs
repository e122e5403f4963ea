//! Listings of commits.

use gitea_forge::commits::{make_commit, take_commit};
use gitea_forge::error::ForgeError;
use gitea_forge::gitea::Gitea;
use gitea_forge::http::{Expect, Flow, Payload, Reply, Request};
use gitea_forge::types::{ForgeSettings, RepoUrl};
use gitea_forge::wire::{
    Commit, GiteaCommitAuthor, GiteaCommitDetails, GiteaCommitFile, GiteaCommitQueryObject,
};

const API: &str = "https://git.example.com/api/v1/repos/acme/tool/";

fn repo() -> RepoUrl {
    RepoUrl {
        scheme: "https".to_string(),
        host: "git.example.com".to_string(),
        port: None,
        owner: "acme".to_string(),
        name: "tool".to_string(),
        link_base_url: "https://git.example.com".to_string(),
    }
}

fn settings() -> ForgeSettings {
    ForgeSettings {
        commit_search_depth: 3,
        tag_search_depth: 4,
        page_size: 50,
        pending_label: "release:waiting".to_string(),
        legacy_pending_label: "waiting".to_string(),
        label_color: "336699".to_string(),
        config_file: "forge.toml".to_string(),
    }
}

fn reply(status: u16, payload: Payload) -> Reply {
    Reply { status, has_more: None, payload }
}

fn json(text: &str) -> Reply {
    reply(200, Payload::Json(text.as_bytes().to_vec()))
}

fn page(goes_on: bool, payload: Payload) -> Reply {
    let has_more = if goes_on { "true" } else { "false" };
    Reply { status: 200, has_more: Some(has_more.to_string()), payload }
}

fn nothing(status: u16) -> Reply {
    reply(status, Payload::Nothing)
}

fn sent<S, T>(flow: Result<Flow<S, T>, ForgeError>) -> (Request, S) {
    match flow {
        Ok(Flow::Send(request, state)) => (request, state),
        Ok(Flow::Done(_)) => panic!("done"),
        Err(error) => panic!("{error:?}"),
    }
}

fn done<S, T>(flow: Result<Flow<S, T>, ForgeError>) -> T {
    match flow {
        Ok(Flow::Done(value)) => value,
        Ok(Flow::Send(request, _)) => panic!("{request:?}"),
        Err(error) => panic!("{error:?}"),
    }
}

fn failed<T>(res: Result<T, ForgeError>) -> ForgeError {
    match res {
        Ok(_) => panic!("no error"),
        Err(error) => error,
    }
}

fn forge() -> Gitea {
    let (_, setup) = sent(Gitea::new(repo(), "abc", settings()));
    done(setup.on_reply(json("{\"default_branch\": \"main\"}")))
}

fn url(path: &str) -> String {
    format!("{API}{path}")
}

fn commit(sha: &str, created: &str) -> GiteaCommitQueryObject {
    GiteaCommitQueryObject {
        sha: sha.to_string(),
        created: created.to_string(),
        html_url: format!("https://git.example.com/acme/tool/commit/{sha}"),
        commit: GiteaCommitDetails {
            author: GiteaCommitAuthor {
                name: "Ada".to_string(),
                email: "ada@example.com".to_string(),
            },
            message: " feat: more\n".to_string(),
        },
        parents: vec!["p1".to_string()],
        files: vec![GiteaCommitFile { filename: "a.rs".to_string() }],
    }
}


#[test]
fn first_release_stops_at_the_search_depth() {
    let forge = forge();
    let (request, listing) = sent(forge.get_commits(None, None));
    assert_eq!(request.url, url("commits?limit=3&page=1"));
    assert_eq!(request.expect, Expect::Commits);
    let date = "2024-05-02T10:00:00Z";
    let first = page(true, Payload::Commits(vec![commit("c1", date), commit("c2", date)]));
    let (request, listing) = sent(listing.on_reply(&forge, first));
    assert_eq!(request.url, url("commits?limit=3&page=2"));
    let second = page(true, Payload::Commits(vec![commit("c3", date), commit("c4", date)]));
    let commits = done(listing.on_reply(&forge, second));
    let ids: Vec<&str> = commits.iter().map(|c| c.id.as_str()).collect();
    assert_eq!(ids, vec!["c1", "c2", "c3"]);
}

#[test]
fn full_page_at_the_depth_asks_for_one_page_more() {
    let forge = forge();
    let (_, listing) = sent(forge.get_commits(None, None));
    let date = "2024-05-02T10:00:00Z";
    let three = vec![commit("c1", date), commit("c2", date), commit("c3", date)];
    let (request, listing) = sent(listing.on_reply(&forge, page(true, Payload::Commits(three))));
    assert_eq!(request.url, url("commits?limit=3&page=2"));
    let more = page(true, Payload::Commits(vec![commit("c4", "no date")]));
    assert_eq!(done(listing.on_reply(&forge, more)).len(), 3);
}

#[test]
fn later_release_lists_the_commits_since() {
    let forge = forge();
    let stop = Some("c5".to_string());
    let (request, listing) = sent(forge.get_commits(Some("my branch".to_string()), stop));
    assert_eq!(request.url, url("git/commits/c5"));
    assert_eq!(request.expect, Expect::Commit);
    let stop = commit("c5", "2024-05-01T10:00:00+02:00");
    let (request, listing) = sent(listing.on_reply(&forge, reply(200, Payload::Commit(stop))));
    assert_eq!(
        request.url,
        url("commits?limit=3&page=1&sha=my+branch&since=2024-05-01T10%3A00%3A00%2B02%3A00")
    );
    let date = "2024-05-02T10:00:00Z";
    let four = vec![commit("c1", date), commit("c2", date), commit("c3", date), commit("c4", date)];
    let (request, listing) = sent(listing.on_reply(&forge, page(true, Payload::Commits(four))));
    assert_eq!(
        request.url,
        url("commits?limit=3&page=2&sha=my+branch&since=2024-05-01T10%3A00%3A00%2B02%3A00")
    );
    let last = vec![commit("c5", "no date"), commit("c6", date)];
    let commits = done(listing.on_reply(&forge, page(true, Payload::Commits(last))));
    assert_eq!(commits.len(), 4);
    assert_eq!(commits[3].id, "c4");
}

#[test]
fn history_without_the_stop_is_listed_whole() {
    let forge = forge();
    let (_, listing) = sent(forge.get_commits(None, Some("gone".to_string())));
    let stop = commit("gone", "2024-05-01T10:00:00Z");
    let (_, listing) = sent(listing.on_reply(&forge, reply(200, Payload::Commit(stop))));
    let date = "2024-05-02T10:00:00Z";
    let all = vec![commit("c1", date), commit("c2", date)];
    assert_eq!(done(listing.on_reply(&forge, page(false, Payload::Commits(all)))).len(), 2);
}

#[test]
fn commit_of_the_history_is_made() {
    let forge = forge();
    let (_, listing) = sent(forge.get_commits(None, None));
    let mut merge = commit("0123456789ab", "2024-05-01T10:00:00+02:00");
    merge.parents.push("p2".to_string());
    merge.commit.message = "\u{3000}\n Merge\tall \u{85}\n".to_string();
    let commits = done(listing.on_reply(&forge, page(false, Payload::Commits(vec![merge]))));
    let made = &commits[0];
    assert_eq!(made.id, "0123456789ab");
    assert_eq!(made.short_id, "01234567");
    assert_eq!(made.link, "https://git.example.com/acme/tool/commit/0123456789ab");
    assert_eq!(made.author_name, "Ada");
    assert_eq!(made.author_email, "ada@example.com");
    assert!(made.merge_commit);
    assert_eq!(made.message, "Merge\tall");
    assert_eq!(made.timestamp, 1714550400);
    assert_eq!(made.files, vec!["a.rs".to_string()]);
}

#[test]
fn date_that_cannot_be_read_is_an_error() {
    let forge = forge();
    let (_, listing) = sent(forge.get_commits(None, None));
    let bad = page(false, Payload::Commits(vec![commit("c1", "yesterday")]));
    assert!(matches!(failed(listing.on_reply(&forge, bad)), ForgeError::InvalidTimestamp(_)));
}

#[test]
fn page_size_bounds_a_deep_listing() {
    let mut forge = forge();
    forge.set_commit_search_depth(0);
    let (request, _) = sent(forge.get_commits(None, None));
    assert_eq!(request.url, url("commits?limit=50&page=1"));
}

#[test]
fn stop_that_is_not_there_is_an_error() {
    let forge = forge();
    let (_, listing) = sent(forge.get_commits(None, Some("c5".to_string())));
    assert!(matches!(failed(listing.on_reply(&forge, nothing(404))), ForgeError::Status(404)));
}

#[test]
fn branch_name_that_is_too_long_is_an_error() {
    let branch = "b".repeat(65535);
    let error = failed(forge().get_commits(Some(branch), None));
    assert!(matches!(error, ForgeError::UrlTooLong));
}

#[test]
fn commit_is_taken_until_the_stop() {
    let none: Option<String> = None;
    let date = "2024-05-02T10:00:00Z";
    let (taken, stopped) = take_commit(1, &none, vec![], commit("c1", date), Ok(7)).unwrap();
    assert!(!stopped);
    assert_eq!(taken[0].timestamp, 7);
    let (taken, stopped) = take_commit(1, &none, taken, commit("c2", date), Ok(8)).unwrap();
    assert!(stopped);
    assert_eq!(taken.len(), 1);
    let stop = Some("c3".to_string());
    let (taken, stopped) = take_commit(1, &stop, taken, commit("c2", date), Ok(8)).unwrap();
    assert!(!stopped);
    let (taken, stopped) = take_commit(1, &stop, taken, commit("c3", date), Ok(9)).unwrap();
    assert!(stopped);
    assert_eq!(taken.len(), 2);
    assert!(!make_commit(commit("c1", date), 3).merge_commit);
}

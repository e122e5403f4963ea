//! What holds of a listing of commits.

use vstd::prelude::*;

use crate::bindings::{rfc3339_seconds, trimmed};
use crate::commits::{
    commit_page_request, commit_request, forge_commit, harvest, stops_before, taken_with,
    CommitListingView, CommitStageView,
};
use crate::error::ForgeErrorView;
use crate::gitea::GiteaView;
use crate::http::{done, run, sent, FlowView, PayloadView, Progress, ReplyView};
use crate::laws::replies::{brings, fails, refuses};
use crate::laws::runs::{run_ends, run_steps};
use crate::types::ForgeCommitView;
use crate::wire::GiteaCommitQueryObjectView;

verus! {

/// The step of a listing of commits.
pub open spec fn commit_steps(g: GiteaView) -> spec_fn(CommitListingView, ReplyView) -> Progress<
    CommitListingView,
    Seq<ForgeCommitView>,
> {
    |state: CommitListingView, reply: ReplyView| state.step(g, reply)
}

/// Whether the replies are the given pages of commits, and all of them: each but
/// the last says that the listing goes on.
pub open spec fn are_commit_pages(
    replies: Seq<ReplyView>,
    pages: Seq<Seq<GiteaCommitQueryObjectView>>,
) -> bool {
    &&& replies.len() == pages.len() > 0
    &&& forall|i: int|
        0 <= i < replies.len() ==> {
            &&& brings(#[trigger] replies[i], PayloadView::Commits(pages[i]))
            &&& (replies[i].has_more == Some("true"@)) == (i + 1 < replies.len())
        }
}

/// How many commits of a history a listing takes: all of them before the commit
/// to stop at, or, where there is none, as many as the search depth.
pub open spec fn listed(
    depth: usize,
    sha: Option<Seq<char>>,
    commits: Seq<GiteaCommitQueryObjectView>,
) -> int {
    match sha {
        None => if commits.len() < depth {
            commits.len() as int
        } else {
            depth as int
        },
        Some(sha) => first_of(sha, commits),
    }
}

/// Where the first commit of that hash is, or the end where there is none.
pub open spec fn first_of(sha: Seq<char>, commits: Seq<GiteaCommitQueryObjectView>) -> int
    decreases commits.len(),
{
    if commits.len() == 0 || commits.first().sha == sha {
        0
    } else {
        1 + first_of(sha, commits.drop_first())
    }
}

/// The first commits of a history, as many as said, as a listing gives them; or
/// the error that the date of one of them cannot be read.
pub open spec fn history(commits: Seq<GiteaCommitQueryObjectView>, n: int) -> Result<
    Seq<ForgeCommitView>,
    ForgeErrorView,
> {
    if exists|i: int| 0 <= i < n && rfc3339_seconds((#[trigger] commits[i]).created) is None {
        Err(ForgeErrorView::InvalidTimestamp)
    } else {
        Ok(
            Seq::new(
                n as nat,
                |i: int| forge_commit(commits[i], rfc3339_seconds(commits[i].created).unwrap()),
            ),
        )
    }
}

/// Where the first commit of a hash is, it is, and no commit before is it.
pub proof fn first_of_is_first(sha: Seq<char>, commits: Seq<GiteaCommitQueryObjectView>)
    ensures
        0 <= first_of(sha, commits) <= commits.len(),
        forall|i: int| 0 <= i < first_of(sha, commits) ==> (#[trigger] commits[i]).sha != sha,
        first_of(sha, commits) < commits.len() ==> commits[first_of(sha, commits)].sha == sha,
    decreases commits.len(),
{
    if commits.len() > 0 && commits.first().sha != sha {
        let rest = commits.drop_first();
        first_of_is_first(sha, rest);
        assert forall|i: int| 0 <= i < first_of(sha, commits) implies (#[trigger] commits[i]).sha
            != sha by {
            if i > 0 {
                assert(rest[i - 1] == commits[i]);
            }
        }
        if first_of(sha, commits) < commits.len() {
            assert(rest[first_of(sha, rest)] == commits[first_of(sha, commits)]);
        }
    }
}

/// How many more commits are taken of a history, with some taken before.
spec fn listed_after(
    depth: usize,
    sha: Option<Seq<char>>,
    taken: nat,
    commits: Seq<GiteaCommitQueryObjectView>,
) -> int {
    match sha {
        None => if taken >= depth {
            0
        } else if taken + commits.len() < depth {
            commits.len() as int
        } else {
            depth - taken
        },
        Some(sha) => first_of(sha, commits),
    }
}

proof fn harvest_takes_listed(
    depth: usize,
    sha: Option<Seq<char>>,
    taken: Seq<ForgeCommitView>,
    commits: Seq<GiteaCommitQueryObjectView>,
)
    ensures
        match history(commits, listed_after(depth, sha, taken.len(), commits)) {
            Err(error) => harvest(depth, sha, taken, commits) == Err::<
                (Seq<ForgeCommitView>, bool),
                _,
            >(error),
            Ok(more) => harvest(depth, sha, taken, commits) is Ok && harvest(
                depth,
                sha,
                taken,
                commits,
            )->Ok_0 == (
                taken + more,
                listed_after(depth, sha, taken.len(), commits) < commits.len(),
            ),
        },
    decreases commits.len(),
{
    let n = listed_after(depth, sha, taken.len(), commits);
    if sha is Some {
        first_of_is_first(sha.unwrap(), commits);
    }
    if commits.len() == 0 || stops_before(depth, sha, taken.len(), commits.first()) {
        assert(n == 0);
        assert(history(commits, n) is Ok);
        assert(taken + history(commits, n)->Ok_0 =~= taken);
    } else {
        let rest = commits.drop_first();
        if sha is Some {
            first_of_is_first(sha.unwrap(), rest);
        }
        assert(0 < n <= commits.len());
        match rfc3339_seconds(commits.first().created) {
            None => {
                assert(commits[0] == commits.first());
                assert(history(commits, n) is Err);
            },
            Some(timestamp) => {
                let next = taken.push(forge_commit(commits.first(), timestamp));
                harvest_takes_listed(depth, sha, next, rest);
                let m = listed_after(depth, sha, next.len(), rest);
                assert(m == n - 1);
                if history(rest, m) is Err {
                    let i = choose|i: int|
                        0 <= i < m && rfc3339_seconds((#[trigger] rest[i]).created) is None;
                    assert(commits[i + 1] == rest[i]);
                    assert(history(commits, n) is Err);
                } else {
                    assert forall|i: int| 0 <= i < n implies rfc3339_seconds(
                        (#[trigger] commits[i]).created,
                    ) is Some by {
                        if i > 0 {
                            assert(rest[i - 1] == commits[i]);
                        }
                    }
                    assert(next + history(rest, m)->Ok_0 =~= taken + history(commits, n)->Ok_0);
                }
            },
        }
    }
}

proof fn harvest_of_parts(
    depth: usize,
    sha: Option<Seq<char>>,
    taken: Seq<ForgeCommitView>,
    first: Seq<GiteaCommitQueryObjectView>,
    later: Seq<GiteaCommitQueryObjectView>,
)
    ensures
        harvest(depth, sha, taken, first + later) == match harvest(depth, sha, taken, first) {
            Ok((taken, false)) => harvest(depth, sha, taken, later),
            ended => ended,
        },
    decreases first.len(),
{
    if first.len() == 0 {
        assert(first + later =~= later);
    } else {
        assert((first + later).first() == first.first());
        assert((first + later).drop_first() =~= first.drop_first() + later);
        if !stops_before(depth, sha, taken.len(), first.first()) {
            match rfc3339_seconds(first.first().created) {
                Some(timestamp) => harvest_of_parts(
                    depth,
                    sha,
                    taken.push(forge_commit(first.first(), timestamp)),
                    first.drop_first(),
                    later,
                ),
                None => {},
            }
        }
    }
}

/// What a listing comes to that has taken the given commits.
spec fn harvested(taken: Result<(Seq<ForgeCommitView>, bool), ForgeErrorView>) -> Progress<
    CommitListingView,
    Seq<ForgeCommitView>,
> {
    match taken {
        Ok((commits, _)) => done(commits),
        Err(error) => Err(error),
    }
}

/// Whether commits were taken without an end.
spec fn goes_past(taken: Result<(Seq<ForgeCommitView>, bool), ForgeErrorView>) -> bool {
    taken is Ok && !taken->Ok_0.1
}

/// The commits of the first pages of a history, as many as said.
pub open spec fn first_pages(
    pages: Seq<Seq<GiteaCommitQueryObjectView>>,
    n: int,
) -> Seq<GiteaCommitQueryObjectView> {
    pages.take(n).flatten()
}

/// The first pages are the first one and those of the others.
proof fn first_pages_of_parts(pages: Seq<Seq<GiteaCommitQueryObjectView>>, n: int)
    requires
        0 < n <= pages.len(),
    ensures
        first_pages(pages, n) == pages.first() + first_pages(pages.drop_first(), n - 1),
        first_pages(pages, 0) == Seq::<GiteaCommitQueryObjectView>::empty(),
{
    assert(pages.take(n).drop_first() =~= pages.drop_first().take(n - 1));
    assert(pages.take(n).first() == pages.first());
    assert(pages.take(0).len() == 0);
}

proof fn commits_from_page(
    g: GiteaView,
    branch: Option<Seq<char>>,
    sha: Option<Seq<char>>,
    since: Option<Seq<char>>,
    page: u64,
    before: Seq<ForgeCommitView>,
    replies: Seq<ReplyView>,
    pages: Seq<Seq<GiteaCommitQueryObjectView>>,
)
    requires
        are_commit_pages(replies, pages),
        page + replies.len() <= u64::MAX,
        forall|p: u64|
            page <= p < page + replies.len() ==> (#[trigger] commit_page_request(
                g,
                branch,
                since,
                p,
            )) is Ok,
    ensures
        run(
            commit_steps(g),
            CommitListingView::ask(g, branch, sha, since, page, before),
            replies,
        ) == harvested(harvest(g.settings.commit_search_depth, sha, before, pages.flatten())),
        ({
            let depth = g.settings.commit_search_depth;
            let requests = sent(
                commit_steps(g),
                CommitListingView::ask(g, branch, sha, since, page, before),
                replies,
            );
            let k = requests.len();
            &&& 1 <= k <= replies.len()
            &&& forall|i: int|
                0 <= i < k ==> (#[trigger] requests[i]) == commit_page_request(
                    g,
                    branch,
                    since,
                    (page + i) as u64,
                )->Ok_0
            &&& forall|i: int|
                0 <= i < k
                    ==> goes_past(harvest(depth, sha, before, #[trigger] first_pages(pages, i)))
            &&& k < replies.len() ==> !goes_past(
                harvest(depth, sha, before, first_pages(pages, k as int)),
            )
        }),
    decreases replies.len(),
{
    let depth = g.settings.commit_search_depth;
    let state = CommitListingView {
        branch,
        sha,
        stage: CommitStageView::Page { since, page, commits: before },
    };
    assert(commit_page_request(g, branch, since, page) is Ok);
    assert(brings(replies[0], PayloadView::Commits(pages[0])));
    let rest = replies.drop_first();
    let next = commit_steps(g)(state, replies.first());
    let others = pages.drop_first().flatten();
    harvest_of_parts(depth, sha, before, pages.first(), others);
    let at = CommitListingView::ask(g, branch, sha, since, page, before);
    let request = commit_page_request(g, branch, since, page)->Ok_0;
    let requests = sent(commit_steps(g), at, replies);
    assert(requests == seq![request] + sent(commit_steps(g), next, rest));
    first_pages_of_parts(pages, 1);
    assert(first_pages(pages.drop_first(), 0) =~= Seq::empty());
    assert(first_pages(pages, 1) =~= pages.first());
    assert(harvest(depth, sha, before, first_pages(pages, 0)) == Ok::<_, ForgeErrorView>(
        (before, false),
    ));
    match harvest(depth, sha, before, pages.first()) {
        Ok((commits, false)) => {
            if replies.len() == 1 {
                assert(others =~= Seq::empty());
                run_ends(commit_steps(g), next, rest);
            } else {
                assert forall|i: int| 0 <= i < rest.len() implies {
                    &&& brings(#[trigger] rest[i], PayloadView::Commits(pages.drop_first()[i]))
                    &&& (rest[i].has_more == Some("true"@)) == (i + 1 < rest.len())
                } by {
                    assert(rest[i] == replies[i + 1]);
                }
                commits_from_page(
                    g,
                    branch,
                    sha,
                    since,
                    (page + 1) as u64,
                    commits,
                    rest,
                    pages.drop_first(),
                );
                let behind = sent(commit_steps(g), next, rest);
                let k = requests.len();
                assert forall|i: int| 0 <= i < k implies (#[trigger] requests[i])
                    == commit_page_request(g, branch, since, (page + i) as u64)->Ok_0 by {
                    if i > 0 {
                        assert(requests[i] == behind[i - 1]);
                    }
                }
                assert forall|i: int| 0 <= i < k implies goes_past(
                    harvest(depth, sha, before, #[trigger] first_pages(pages, i)),
                ) by {
                    if i > 0 {
                        first_pages_of_parts(pages, i);
                        harvest_of_parts(
                            depth,
                            sha,
                            before,
                            pages.first(),
                            first_pages(pages.drop_first(), i - 1),
                        );
                        assert(goes_past(
                            harvest(
                                depth,
                                sha,
                                commits,
                                first_pages(pages.drop_first(), i - 1),
                            ),
                        ));
                    }
                }
                if k < replies.len() {
                    first_pages_of_parts(pages, k as int);
                    harvest_of_parts(
                        depth,
                        sha,
                        before,
                        pages.first(),
                        first_pages(pages.drop_first(), k - 1),
                    );
                }
            }
        },
        _ => {
            run_ends(commit_steps(g), next, rest);
        },
    }
}

/// The listing for a first release gives the latest commits of the history, up
/// to the search depth, however the history is cut into pages.
pub proof fn first_release_has_the_latest_commits(
    g: GiteaView,
    branch: Option<Seq<char>>,
    replies: Seq<ReplyView>,
    pages: Seq<Seq<GiteaCommitQueryObjectView>>,
)
    requires
        are_commit_pages(replies, pages),
        replies.len() < u64::MAX,
        forall|p: u64|
            1 <= p <= replies.len() ==> (#[trigger] commit_page_request(
                g,
                branch,
                None,
                p,
            )) is Ok,
    ensures
        run(commit_steps(g), CommitListingView::start(g, branch, None), replies) == match history(
            pages.flatten(),
            listed(g.settings.commit_search_depth, None, pages.flatten()),
        ) {
            Ok(commits) => done::<CommitListingView, _>(commits),
            Err(error) => Err(error),
        },
{
    let depth = g.settings.commit_search_depth;
    commits_from_page(g, branch, None, None, 1, Seq::empty(), replies, pages);
    harvest_takes_listed(depth, None, Seq::empty(), pages.flatten());
    let n = listed(depth, None, pages.flatten());
    assert(n == listed_after(depth, None, 0, pages.flatten()));
    if history(pages.flatten(), n) is Ok {
        let commits = history(pages.flatten(), n)->Ok_0;
        assert(Seq::<ForgeCommitView>::empty() + commits =~= commits);
    }
}

/// The listing since a release asks for the commit of that release first, and
/// then gives the commits of the history before the first occurrence of that
/// commit, which is left out; the search depth does not matter.
pub proof fn later_release_has_the_commits_since(
    g: GiteaView,
    branch: Option<Seq<char>>,
    sha: Seq<char>,
    stop: ReplyView,
    replies: Seq<ReplyView>,
    pages: Seq<Seq<GiteaCommitQueryObjectView>>,
)
    requires
        stop.commit() is Ok,
        are_commit_pages(replies, pages),
        replies.len() < u64::MAX,
        commit_request(g, sha) is Ok,
        forall|p: u64|
            1 <= p <= replies.len() ==> (#[trigger] commit_page_request(
                g,
                branch,
                Some(stop.commit()->Ok_0.created),
                p,
            )) is Ok,
    ensures
        run(
            commit_steps(g),
            CommitListingView::start(g, branch, Some(sha)),
            seq![stop] + replies,
        ) == match history(pages.flatten(), first_of(sha, pages.flatten())) {
            Ok(commits) => done::<CommitListingView, _>(commits),
            Err(error) => Err(error),
        },
{
    let depth = g.settings.commit_search_depth;
    let since = Some(stop.commit()->Ok_0.created);
    let all = seq![stop] + replies;
    assert(all.drop_first() =~= replies);
    assert(all.first() == stop);
    let state = CommitListingView { branch, sha: Some(sha), stage: CommitStageView::Stop };
    assert(commit_steps(g)(state, stop) == CommitListingView::ask(
        g,
        branch,
        Some(sha),
        since,
        1,
        Seq::empty(),
    ));
    commits_from_page(g, branch, Some(sha), since, 1, Seq::empty(), replies, pages);
    harvest_takes_listed(depth, Some(sha), Seq::empty(), pages.flatten());
    let n = first_of(sha, pages.flatten());
    if history(pages.flatten(), n) is Ok {
        let commits = history(pages.flatten(), n)->Ok_0;
        assert(Seq::<ForgeCommitView>::empty() + commits =~= commits);
    }
}

/// Whether a listed commit tells what the forge tells of a commit, field by field
/// and file by file, and its date.
pub open spec fn tells_of(made: ForgeCommitView, commit: GiteaCommitQueryObjectView) -> bool {
    tells_fields_of(made, commit) && Some(made.timestamp) == rfc3339_seconds(commit.created)
}

/// Whether a listed commit tells what the forge tells of a commit, field by field
/// and file by file; its date apart.
pub open spec fn tells_fields_of(
    made: ForgeCommitView,
    commit: GiteaCommitQueryObjectView,
) -> bool {
    &&& made.id == commit.sha
    &&& made.short_id.len() == if commit.sha.len() < 8 { commit.sha.len() } else { 8 }
    &&& forall|i: int|
        0 <= i < made.short_id.len() ==> (#[trigger] made.short_id[i]) == commit.sha[i]
    &&& made.link == commit.html_url
    &&& made.author_name == commit.commit.author.name
    &&& made.author_email == commit.commit.author.email
    &&& made.merge_commit == (commit.parents.len() >= 2)
    &&& made.message == trimmed(commit.commit.message)
    &&& made.files.len() == commit.files.len()
    &&& forall|i: int|
        0 <= i < commit.files.len() ==> made.files[i] == (#[trigger] commit.files[i]).filename
}

/// Whether the date of each of the first commits can be read.
pub open spec fn are_dated(commits: Seq<GiteaCommitQueryObjectView>, n: int) -> bool {
    forall|i: int|
        0 <= i < n ==> rfc3339_seconds((#[trigger] commits[i]).created) is Some
}

/// A commit of the API and its date are told in full.
pub proof fn commit_is_told_in_full(commit: GiteaCommitQueryObjectView, timestamp: i64)
    ensures
        forge_commit(commit, timestamp).timestamp == timestamp,
        tells_fields_of(forge_commit(commit, timestamp), commit),
{
    let files = forge_commit(commit, timestamp).files;
    assert forall|i: int| 0 <= i < commit.files.len() implies files[i] == (
    #[trigger] commit.files[i]).filename by {}
}

proof fn history_is_told(commits: Seq<GiteaCommitQueryObjectView>, n: int)
    requires
        0 <= n <= commits.len(),
    ensures
        are_dated(commits, n) ==> {
            let told = history(commits, n)->Ok_0;
            &&& history(commits, n) is Ok
            &&& told.len() == n
            &&& forall|i: int| 0 <= i < n ==> tells_of(told[i], #[trigger] commits[i])
        },
        !are_dated(commits, n) ==> history(commits, n) == Err::<Seq<ForgeCommitView>, _>(
            ForgeErrorView::InvalidTimestamp,
        ),
{
    if are_dated(commits, n) {
        let told = history(commits, n)->Ok_0;
        assert forall|i: int| 0 <= i < n implies tells_of(told[i], #[trigger] commits[i]) by {
            commit_is_told_in_full(commits[i], rfc3339_seconds(commits[i].created).unwrap());
        }
    }
}

/// A commit behind those taken is told in full, unless the listing stops before
/// it: at the commit to stop at, or else once it has as many as it may have. A
/// date that cannot be read is an error.
pub proof fn commit_is_taken_or_stops(
    depth: usize,
    taken: Seq<ForgeCommitView>,
    commit: GiteaCommitQueryObjectView,
    stop: Seq<char>,
    date: i64,
)
    ensures
        taken_with(depth, None, taken, commit, Some(date)) == if taken.len() >= depth {
            Ok::<_, ForgeErrorView>((taken, true))
        } else {
            Ok((taken.push(forge_commit(commit, date)), false))
        },
        taken_with(depth, Some(stop), taken, commit, Some(date)) == if commit.sha == stop {
            Ok::<_, ForgeErrorView>((taken, true))
        } else {
            Ok((taken.push(forge_commit(commit, date)), false))
        },
        taken.len() < depth ==> fails(
            taken_with(depth, None, taken, commit, None),
            ForgeErrorView::InvalidTimestamp,
        ),
        commit.sha != stop ==> fails(
            taken_with(depth, Some(stop), taken, commit, None),
            ForgeErrorView::InvalidTimestamp,
        ),
        taken.len() >= depth ==> taken_with(depth, None, taken, commit, None) == Ok::<
            _,
            ForgeErrorView,
        >((taken, true)),
        taken_with(depth, Some(commit.sha), taken, commit, None) == Ok::<_, ForgeErrorView>(
            (taken, true),
        ),
{
}

/// The listing for a first release tells, in their order and in full, of the
/// latest commits of the history, as many as the search depth or as there are. It
/// asks for the pages from the first on, and for no page behind one with commits
/// past the depth.
pub proof fn first_release_is_listed_in_full(
    g: GiteaView,
    branch: Option<Seq<char>>,
    replies: Seq<ReplyView>,
    pages: Seq<Seq<GiteaCommitQueryObjectView>>,
)
    requires
        are_commit_pages(replies, pages),
        replies.len() < u64::MAX,
        forall|p: u64|
            1 <= p <= replies.len() ==> (#[trigger] commit_page_request(
                g,
                branch,
                None,
                p,
            )) is Ok,
    ensures
        ({
            let depth = g.settings.commit_search_depth;
            let all = pages.flatten();
            let n = if all.len() < depth {
                all.len() as int
            } else {
                depth as int
            };
            let at = CommitListingView::start(g, branch, None);
            let end = run(commit_steps(g), at, replies);
            let requests = sent(commit_steps(g), at, replies);
            let k = requests.len();
            &&& !are_dated(all, n) ==> fails(end, ForgeErrorView::InvalidTimestamp)
            &&& are_dated(all, n) ==> {
                &&& end matches Ok(FlowView::Done(commits))
                &&& commits.len() == n
                &&& forall|i: int| 0 <= i < n ==> tells_of(commits[i], #[trigger] all[i])
            }
            &&& 1 <= k <= replies.len()
            &&& forall|i: int|
                0 <= i < k ==> (#[trigger] requests[i]) == commit_page_request(
                    g,
                    branch,
                    None,
                    (1 + i) as u64,
                )->Ok_0
            &&& forall|i: int| 0 <= i < k ==> (#[trigger] first_pages(pages, i)).len() <= depth
            &&& k < replies.len() && are_dated(all, n) ==> first_pages(pages, k as int).len()
                > depth
        }),
{
    let depth = g.settings.commit_search_depth;
    let all = pages.flatten();
    let n = listed(depth, None, all);
    first_release_has_the_latest_commits(g, branch, replies, pages);
    history_is_told(all, n);
    commits_from_page(g, branch, None, None, 1, Seq::empty(), replies, pages);
    let requests = sent(commit_steps(g), CommitListingView::start(g, branch, None), replies);
    let k = requests.len();
    assert forall|i: int| 0 <= i < k implies (#[trigger] first_pages(pages, i)).len()
        <= depth by {
        harvest_takes_listed(depth, None, Seq::empty(), first_pages(pages, i));
    }
    if k < replies.len() && are_dated(all, n) {
        let first = first_pages(pages, k as int);
        harvest_takes_listed(depth, None, Seq::empty(), first);
        flatten_of_parts(pages, k as int);
        history_is_told(first, listed_after(depth, None, 0, first));
        assert(are_dated(first, listed_after(depth, None, 0, first))) by {
            assert forall|i: int| 0 <= i < listed_after(depth, None, 0, first) implies
                rfc3339_seconds((#[trigger] first[i]).created) is Some by {
                assert(first[i] == all[i]);
            }
        }
    }
}

/// A history starts with its first pages.
proof fn flatten_of_parts(pages: Seq<Seq<GiteaCommitQueryObjectView>>, n: int)
    requires
        0 <= n <= pages.len(),
    ensures
        first_pages(pages, n).len() <= pages.flatten().len(),
        forall|i: int|
            0 <= i < first_pages(pages, n).len() ==> (#[trigger] first_pages(pages, n)[i])
                == pages.flatten()[i],
    decreases pages.len(),
{
    if n == 0 {
        assert(pages.take(0).len() == 0);
    } else {
        first_pages_of_parts(pages, n);
        flatten_of_parts(pages.drop_first(), n - 1);
        assert(pages.flatten() == pages.first() + pages.drop_first().flatten());
        let first = first_pages(pages, n);
        assert forall|i: int| 0 <= i < first.len() implies (#[trigger] first[i])
            == pages.flatten()[i] by {
            let m = pages.first().len();
            if i >= m {
                assert(first[i] == first_pages(pages.drop_first(), n - 1)[i - m]);
            }
        }
    }
}

/// The listing since a release tells, in their order and in full, of all commits
/// of the history before the commit of that release, which is left out with those
/// behind it, whatever the search depth is. It asks for the commit of the release
/// first, then for the pages since its date from the first on, and for no page
/// behind the one that has it.
pub proof fn later_release_is_listed_in_full(
    g: GiteaView,
    branch: Option<Seq<char>>,
    sha: Seq<char>,
    stop: ReplyView,
    replies: Seq<ReplyView>,
    pages: Seq<Seq<GiteaCommitQueryObjectView>>,
    n: int,
)
    requires
        !refuses(stop),
        stop.payload is Commit,
        are_commit_pages(replies, pages),
        replies.len() < u64::MAX,
        commit_request(g, sha) is Ok,
        forall|p: u64|
            1 <= p <= replies.len() ==> (#[trigger] commit_page_request(
                g,
                branch,
                Some(stop.payload->Commit_0.created),
                p,
            )) is Ok,
        0 <= n <= pages.flatten().len(),
        forall|i: int| 0 <= i < n ==> (#[trigger] pages.flatten()[i]).sha != sha,
        n < pages.flatten().len() ==> pages.flatten()[n].sha == sha,
    ensures
        ({
            let all = pages.flatten();
            let since = Some(stop.payload->Commit_0.created);
            let at = CommitListingView::start(g, branch, Some(sha));
            let end = run(commit_steps(g), at, seq![stop] + replies);
            let requests = sent(commit_steps(g), at, seq![stop] + replies);
            let k = requests.len() - 1;
            &&& !are_dated(all, n) ==> fails(end, ForgeErrorView::InvalidTimestamp)
            &&& are_dated(all, n) ==> {
                &&& end matches Ok(FlowView::Done(commits))
                &&& commits.len() == n
                &&& forall|i: int| 0 <= i < n ==> tells_of(commits[i], #[trigger] all[i])
            }
            &&& 1 <= k <= replies.len()
            &&& requests[0] == commit_request(g, sha)->Ok_0
            &&& forall|i: int|
                1 <= i <= k ==> (#[trigger] requests[i]) == commit_page_request(
                    g,
                    branch,
                    since,
                    i as u64,
                )->Ok_0
            &&& forall|i: int| 0 <= i < k ==> (#[trigger] first_pages(pages, i)).len() <= n
            &&& k < replies.len() && are_dated(all, n) ==> first_pages(pages, k).len() > n
        }),
{
    let depth = g.settings.commit_search_depth;
    let all = pages.flatten();
    let since = Some(stop.payload->Commit_0.created);
    later_release_has_the_commits_since(g, branch, sha, stop, replies, pages);
    first_of_is_first(sha, all);
    let m = first_of(sha, all);
    assert(m == n) by {
        if m < n {
            assert(all[m].sha != sha);
        }
        if n < m {
            assert(all[n].sha != sha);
        }
    }
    history_is_told(all, n);
    commits_from_page(g, branch, Some(sha), since, 1, Seq::empty(), replies, pages);
    let state = CommitListingView { branch, sha: Some(sha), stage: CommitStageView::Stop };
    let first = commit_request(g, sha)->Ok_0;
    run_steps(commit_steps(g), first, state, stop, replies);
    let behind = sent(
        commit_steps(g),
        CommitListingView::ask(g, branch, Some(sha), since, 1, Seq::empty()),
        replies,
    );
    let requests = sent(
        commit_steps(g),
        CommitListingView::start(g, branch, Some(sha)),
        seq![stop] + replies,
    );
    assert(requests == seq![first] + behind);
    let k = behind.len() as int;
    assert forall|i: int| 1 <= i <= k implies (#[trigger] requests[i]) == commit_page_request(
        g,
        branch,
        since,
        i as u64,
    )->Ok_0 by {
        assert(requests[i] == behind[i - 1]);
    }
    assert forall|i: int| 0 <= i < k implies (#[trigger] first_pages(pages, i)).len() <= n by {
        let part = first_pages(pages, i);
        harvest_takes_listed(depth, Some(sha), Seq::empty(), part);
        first_of_is_first(sha, part);
        flatten_of_parts(pages, i);
        if n < part.len() {
            assert(part[n].sha == sha);
        }
    }
    if k < replies.len() && are_dated(all, n) {
        let part = first_pages(pages, k);
        harvest_takes_listed(depth, Some(sha), Seq::empty(), part);
        first_of_is_first(sha, part);
        flatten_of_parts(pages, k);
        let m = first_of(sha, part);
        assert(m <= n) by {
            if n < m {
                assert(part[n].sha != sha);
                assert(all[n].sha == sha);
            }
        }
        assert forall|i: int| 0 <= i < m implies rfc3339_seconds(
            (#[trigger] part[i]).created,
        ) is Some by {
            assert(part[i] == all[i]);
        }
        if part.len() <= n {
            if m < part.len() {
                assert(all[m].sha != sha);
            }
        }
    }
}

/// A reply that the forge refuses, or that cannot be read as what was asked for,
/// fails the listing, whatever it has listed before.
pub proof fn failed_reply_fails_the_listing(
    g: GiteaView,
    state: CommitListingView,
    reply: ReplyView,
)
    ensures
        refuses(reply) ==> fails(state.step(g, reply), ForgeErrorView::Status(reply.status)),
        !refuses(reply) ==> match reply.payload {
            PayloadView::Commit(_) | PayloadView::Commits(_) => true,
            PayloadView::Unreadable(reason) => fails(
                state.step(g, reply),
                ForgeErrorView::Undecodable(reason),
            ),
            _ => fails(state.step(g, reply), ForgeErrorView::UnexpectedPayload),
        },
{
}

} // verus!

//! What holds of the search for tags.

use vstd::prelude::*;

use crate::bindings::{
    json_u64, regex_compiles, regex_matches, regex_removed, rfc3339_seconds, semver_parts,
};
use crate::error::ForgeErrorView;
use crate::gitea::GiteaView;
use crate::http::{done, run, FlowView, PayloadView, Progress, ReplyView};
use crate::laws::replies::{brings, fails, refuses};
use crate::laws::sequences::filter_of_first;
use crate::tags::{
    dated_tag, scan, version_of, version_tag, ScanView, TagSearchView, TagStageView,
};
use crate::types::{SemVerView, TagView};
use crate::wire::GiteaTagView;

verus! {

/// The step of a search for tags.
pub open spec fn tag_steps(g: GiteaView) -> spec_fn(TagSearchView, ReplyView) -> Progress<
    TagSearchView,
    Seq<TagView>,
> {
    |state: TagSearchView, reply: ReplyView| state.step(g, reply)
}

/// Whether a reply tells the truth on a repository with the given pages of tags,
/// of which those on the given commits lie in the history of the branch.
pub open spec fn is_true(
    pages: Seq<Seq<GiteaTagView>>,
    in_history: spec_fn(Seq<char>) -> bool,
    state: TagSearchView,
    reply: ReplyView,
) -> bool {
    match state.stage {
        TagStageView::Page(page) => {
            &&& 1 <= page <= pages.len()
            &&& brings(reply, PayloadView::Tags(pages[page - 1]))
            &&& (reply.has_more == Some("true"@)) == (page < pages.len())
        },
        TagStageView::Comparison { tag, .. } => {
            &&& !refuses(reply)
            &&& reply.payload is Json
            &&& json_u64(reply.payload->Json_0, "total_commits"@) is Some
            &&& in_history(tag.commit.sha) == (json_u64(
                reply.payload->Json_0,
                "total_commits"@,
            ) == Some(Some(0u64)))
        },
    }
}

/// Whether all replies that a search reads tell the truth.
pub open spec fn are_true(
    g: GiteaView,
    pages: Seq<Seq<GiteaTagView>>,
    in_history: spec_fn(Seq<char>) -> bool,
    at: Progress<TagSearchView, Seq<TagView>>,
    replies: Seq<ReplyView>,
) -> bool
    decreases replies.len(),
{
    match at {
        Ok(FlowView::Send(_, state)) if replies.len() > 0 => {
            &&& is_true(pages, in_history, state, replies.first())
            &&& are_true(
                g,
                pages,
                in_history,
                state.step(g, replies.first()),
                replies.drop_first(),
            )
        },
        _ => true,
    }
}

/// The tags that name a version behind the prefix and lie in the history of the
/// branch, in their order.
pub open spec fn versions(
    pattern: Seq<char>,
    in_history: spec_fn(Seq<char>) -> bool,
    tags: Seq<GiteaTagView>,
) -> Seq<TagView>
    decreases tags.len(),
{
    if tags.len() == 0 {
        Seq::empty()
    } else {
        let later = versions(pattern, in_history, tags.drop_first());
        match version_of(pattern, tags.first().name) {
            Some(semver) if in_history(tags.first().commit.sha) => seq![
                version_tag(tags.first(), semver),
            ] + later,
            _ => later,
        }
    }
}

/// The first tags, as many as may still be looked at.
pub open spec fn within_depth(
    depth: usize,
    examined: usize,
    tags: Seq<GiteaTagView>,
) -> Seq<GiteaTagView> {
    if examined >= depth {
        Seq::empty()
    } else if tags.len() <= depth - examined {
        tags
    } else {
        tags.take(depth - examined)
    }
}

/// What a search is to find in the end.
spec fn promised(
    g: GiteaView,
    pattern: Seq<char>,
    pages: Seq<Seq<GiteaTagView>>,
    in_history: spec_fn(Seq<char>) -> bool,
    at: Progress<TagSearchView, Seq<TagView>>,
) -> Seq<TagView> {
    let depth = g.settings.tag_search_depth;
    match at {
        Ok(FlowView::Done(found)) => found,
        Ok(FlowView::Send(_, state)) => match state.stage {
            TagStageView::Page(page) => state.found + versions(
                pattern,
                in_history,
                within_depth(depth, state.examined, pages.skip(page - 1).flatten()),
            ),
            TagStageView::Comparison { page, tag, semver, later, .. } => {
                let found = if in_history(tag.commit.sha) {
                    state.found.push(version_tag(tag, semver))
                } else {
                    state.found
                };
                found + versions(
                    pattern,
                    in_history,
                    within_depth(
                        depth,
                        state.examined,
                        later + pages.skip(page as int).flatten(),
                    ),
                )
            },
        },
        Err(_) => Seq::empty(),
    }
}

/// Whether the state of a search agrees with the pages it reads.
spec fn agrees(
    pattern: Seq<char>,
    pages: Seq<Seq<GiteaTagView>>,
    at: Progress<TagSearchView, Seq<TagView>>,
) -> bool {
    match at {
        Ok(FlowView::Send(_, state)) => {
            &&& state.pattern == pattern
            &&& match state.stage {
                TagStageView::Page(page) => 1 <= page <= pages.len(),
                TagStageView::Comparison { page, goes_on, .. } => {
                    &&& 1 <= page <= pages.len()
                    &&& goes_on == (page < pages.len())
                },
            }
        },
        _ => true,
    }
}

proof fn within_depth_of_first(depth: usize, examined: usize, tags: Seq<GiteaTagView>)
    requires
        tags.len() > 0,
        examined < depth,
    ensures
        within_depth(depth, examined, tags) == seq![tags.first()] + within_depth(
            depth,
            (examined + 1) as usize,
            tags.drop_first(),
        ),
{
    assert(within_depth(depth, examined, tags) =~= seq![tags.first()] + within_depth(
        depth,
        (examined + 1) as usize,
        tags.drop_first(),
    ));
}

proof fn versions_of_first(
    pattern: Seq<char>,
    in_history: spec_fn(Seq<char>) -> bool,
    tag: GiteaTagView,
    tags: Seq<GiteaTagView>,
)
    ensures
        versions(pattern, in_history, seq![tag] + tags) == match version_of(pattern, tag.name) {
            Some(semver) if in_history(tag.commit.sha) => seq![version_tag(tag, semver)]
                + versions(pattern, in_history, tags),
            _ => versions(pattern, in_history, tags),
        },
{
    assert((seq![tag] + tags).drop_first() =~= tags);
}

/// A look through tags passes over no version.
proof fn scan_skips_no_version(
    depth: usize,
    pattern: Seq<char>,
    in_history: spec_fn(Seq<char>) -> bool,
    examined: usize,
    tags: Seq<GiteaTagView>,
    behind: Seq<GiteaTagView>,
)
    ensures
        match scan(depth, pattern, examined, tags) {
            Err(_) => true,
            Ok(ScanView::End { examined: count, exhausted }) => versions(
                pattern,
                in_history,
                within_depth(depth, examined, tags + behind),
            ) == if exhausted {
                Seq::empty()
            } else {
                versions(pattern, in_history, within_depth(depth, count, behind))
            },
            Ok(ScanView::Version { tag, semver, examined: count, later }) => versions(
                pattern,
                in_history,
                within_depth(depth, examined, tags + behind),
            ) == (if in_history(tag.commit.sha) {
                seq![version_tag(tag, semver)]
            } else {
                Seq::empty()
            }) + versions(pattern, in_history, within_depth(depth, count, later + behind)),
        },
    decreases tags.len(),
{
    let all = tags + behind;
    if tags.len() == 0 {
        assert(all =~= behind);
    } else if examined >= depth {
        assert(versions(pattern, in_history, Seq::empty()) =~= Seq::empty());
    } else if regex_compiles(pattern) {
        let rest = tags.drop_first();
        let next = (examined + 1) as usize;
        assert(all.first() == tags.first());
        assert(all.drop_first() =~= rest + behind);
        within_depth_of_first(depth, examined, all);
        versions_of_first(
            pattern,
            in_history,
            tags.first(),
            within_depth(depth, next, rest + behind),
        );
        match version_of(pattern, tags.first().name) {
            Some(_) => {
                let later = versions(pattern, in_history, within_depth(depth, next, rest + behind));
                assert(Seq::<TagView>::empty() + later =~= later);
            },
            None => {
                scan_skips_no_version(depth, pattern, in_history, next, rest, behind);
            },
        }
    }
}

proof fn proceed_keeps_promise(
    g: GiteaView,
    pattern: Seq<char>,
    branch: Seq<char>,
    pages: Seq<Seq<GiteaTagView>>,
    in_history: spec_fn(Seq<char>) -> bool,
    examined: usize,
    found: Seq<TagView>,
    page: u64,
    goes_on: bool,
    tags: Seq<GiteaTagView>,
)
    requires
        1 <= page <= pages.len(),
        goes_on == (page < pages.len()),
    ensures
        ({
            let at = TagSearchView::proceed(
                g,
                pattern,
                branch,
                examined,
                found,
                page,
                goes_on,
                tags,
            );
            &&& agrees(pattern, pages, at)
            &&& at is Ok ==> promised(g, pattern, pages, in_history, at) == found + versions(
                pattern,
                in_history,
                within_depth(
                    g.settings.tag_search_depth,
                    examined,
                    tags + pages.skip(page as int).flatten(),
                ),
            )
        }),
{
    let depth = g.settings.tag_search_depth;
    let behind = pages.skip(page as int).flatten();
    scan_skips_no_version(depth, pattern, in_history, examined, tags, behind);
    match scan(depth, pattern, examined, tags) {
        Err(_) => {},
        Ok(ScanView::Version { tag, semver, examined: count, later }) => {
            let rest = versions(pattern, in_history, within_depth(depth, count, later + behind));
            let one = seq![version_tag(tag, semver)];
            assert(found.push(version_tag(tag, semver)) + rest =~= found + (one + rest));
            assert(found + rest =~= found + (Seq::<TagView>::empty() + rest));
        },
        Ok(ScanView::End { examined: count, exhausted }) => {
            assert(found + Seq::<TagView>::empty() =~= found);
            if !exhausted && !goes_on {
                assert(pages.skip(page as int) =~= Seq::empty());
                assert(behind =~= Seq::empty());
                assert(within_depth(depth, count, behind) =~= Seq::empty());
            }
        },
    }
}

proof fn run_keeps_promise(
    g: GiteaView,
    pattern: Seq<char>,
    pages: Seq<Seq<GiteaTagView>>,
    in_history: spec_fn(Seq<char>) -> bool,
    at: Progress<TagSearchView, Seq<TagView>>,
    replies: Seq<ReplyView>,
)
    requires
        agrees(pattern, pages, at),
        are_true(g, pages, in_history, at, replies),
    ensures
        run(tag_steps(g), at, replies) matches Ok(FlowView::Done(found)) ==> found == promised(
            g,
            pattern,
            pages,
            in_history,
            at,
        ),
    decreases replies.len(),
{
    match at {
        Ok(FlowView::Send(_, state)) if replies.len() > 0 => {
            let reply = replies.first();
            let next = state.step(g, reply);
            match state.stage {
                TagStageView::Page(page) => {
                    let rest = pages.skip(page - 1);
                    assert(rest.first() == pages[page - 1]);
                    assert(rest.drop_first() =~= pages.skip(page as int));
                    proceed_keeps_promise(
                        g,
                        pattern,
                        state.branch,
                        pages,
                        in_history,
                        state.examined,
                        state.found,
                        page,
                        reply.goes_on(),
                        pages[page - 1],
                    );
                },
                TagStageView::Comparison { page, goes_on, tag, semver, later } => {
                    proceed_keeps_promise(
                        g,
                        pattern,
                        state.branch,
                        pages,
                        in_history,
                        state.examined,
                        if in_history(tag.commit.sha) {
                            state.found.push(version_tag(tag, semver))
                        } else {
                            state.found
                        },
                        page,
                        goes_on,
                        later,
                    );
                },
            }
            assert(agrees(pattern, pages, next));
            run_keeps_promise(g, pattern, pages, in_history, next, replies.drop_first());
        },
        _ => {},
    }
}

/// A search that comes to an end gives, in their order, exactly those of the
/// first tags, up to the search depth, that match the prefix, name a version
/// behind it, and lie in the history of the branch.
pub proof fn search_finds_the_versions(
    g: GiteaView,
    prefix: Seq<char>,
    branch: Seq<char>,
    pages: Seq<Seq<GiteaTagView>>,
    in_history: spec_fn(Seq<char>) -> bool,
    replies: Seq<ReplyView>,
)
    requires
        pages.len() > 0,
        are_true(g, pages, in_history, TagSearchView::start(g, prefix, branch), replies),
    ensures
        run(tag_steps(g), TagSearchView::start(g, prefix, branch), replies) matches Ok(
            FlowView::Done(found),
        ) ==> found == versions(
            "^"@ + prefix,
            in_history,
            within_depth(g.settings.tag_search_depth, 0, pages.flatten()),
        ),
{
    let at = TagSearchView::start(g, prefix, branch);
    run_keeps_promise(g, "^"@ + prefix, pages, in_history, at, replies);
    assert(pages.skip(0) =~= pages);
    let all = versions(
        "^"@ + prefix,
        in_history,
        within_depth(g.settings.tag_search_depth, 0, pages.flatten()),
    );
    assert(Seq::<TagView>::empty() + all =~= all);
}

/// How many replies a search reads at most from here on.
spec fn replies_left(
    pages: Seq<Seq<GiteaTagView>>,
    at: Progress<TagSearchView, Seq<TagView>>,
) -> int {
    match at {
        Ok(FlowView::Send(_, state)) => match state.stage {
            TagStageView::Page(page) => pages.len() - page + 1 + pages.skip(
                page - 1,
            ).flatten().len(),
            TagStageView::Comparison { page, later, .. } => pages.len() - page + 1 + later.len()
                + pages.skip(page as int).flatten().len(),
        },
        _ => 0,
    }
}

/// A look through tags leaves fewer tags behind than it was given.
proof fn scan_goes_forward(
    depth: usize,
    pattern: Seq<char>,
    examined: usize,
    tags: Seq<GiteaTagView>,
)
    requires
        regex_compiles(pattern),
    ensures
        scan(depth, pattern, examined, tags) is Ok,
        scan(depth, pattern, examined, tags)->Ok_0 matches ScanView::Version { later, .. }
            ==> later.len() < tags.len(),
    decreases tags.len(),
{
    if tags.len() > 0 && examined < depth && version_of(pattern, tags.first().name) is None {
        scan_goes_forward(depth, pattern, (examined + 1) as usize, tags.drop_first());
    }
}

/// Whether an operation has not failed, but where a URL did not come about.
pub open spec fn fails_on_urls_only<S, T>(at: Progress<S, T>) -> bool {
    match at {
        Ok(_) => true,
        Err(error) => error is InvalidUrl || error is UrlTooLong,
    }
}

proof fn proceed_goes_forward(
    g: GiteaView,
    pattern: Seq<char>,
    branch: Seq<char>,
    pages: Seq<Seq<GiteaTagView>>,
    examined: usize,
    found: Seq<TagView>,
    page: u64,
    goes_on: bool,
    tags: Seq<GiteaTagView>,
)
    requires
        regex_compiles(pattern),
        1 <= page <= pages.len() < u64::MAX,
        goes_on == (page < pages.len()),
    ensures
        ({
            let at = TagSearchView::proceed(
                g,
                pattern,
                branch,
                examined,
                found,
                page,
                goes_on,
                tags,
            );
            &&& fails_on_urls_only(at)
            &&& agrees(pattern, pages, at)
            &&& replies_left(pages, at) <= pages.len() - page + tags.len() + pages.skip(
                page as int,
            ).flatten().len()
        }),
{
    reveal(GiteaView::tag_page);
    reveal(GiteaView::is_tag_ancestor_of_branch);
    scan_goes_forward(g.settings.tag_search_depth, pattern, examined, tags);
}

proof fn run_comes_to_an_end(
    g: GiteaView,
    pattern: Seq<char>,
    pages: Seq<Seq<GiteaTagView>>,
    in_history: spec_fn(Seq<char>) -> bool,
    at: Progress<TagSearchView, Seq<TagView>>,
    replies: Seq<ReplyView>,
)
    requires
        regex_compiles(pattern),
        pages.len() < u64::MAX,
        fails_on_urls_only(at),
        agrees(pattern, pages, at),
        are_true(g, pages, in_history, at, replies),
        replies_left(pages, at) <= replies.len(),
    ensures
        !(run(tag_steps(g), at, replies) matches Ok(FlowView::Send(_, _))),
        fails_on_urls_only(run(tag_steps(g), at, replies)),
    decreases replies.len(),
{
    match at {
        Ok(FlowView::Send(_, state)) => {
            let reply = replies.first();
            match state.stage {
                TagStageView::Page(page) => {
                    let rest = pages.skip(page - 1);
                    assert(rest.first() == pages[page - 1]);
                    assert(rest.drop_first() =~= pages.skip(page as int));
                    assert(rest.flatten().len() == pages[page - 1].len() + pages.skip(
                        page as int,
                    ).flatten().len());
                    assert(replies.len() > 0);
                    proceed_goes_forward(
                        g,
                        pattern,
                        state.branch,
                        pages,
                        state.examined,
                        state.found,
                        page,
                        reply.goes_on(),
                        pages[page - 1],
                    );
                },
                TagStageView::Comparison { page, goes_on, tag, semver, later } => {
                    proceed_goes_forward(
                        g,
                        pattern,
                        state.branch,
                        pages,
                        state.examined,
                        if in_history(tag.commit.sha) {
                            state.found.push(version_tag(tag, semver))
                        } else {
                            state.found
                        },
                        page,
                        goes_on,
                        later,
                    );
                },
            }
            run_comes_to_an_end(
                g,
                pattern,
                pages,
                in_history,
                state.step(g, reply),
                replies.drop_first(),
            );
        },
        _ => {},
    }
}

/// A search does come to an end: it reads each page, and compares each tag, at
/// most once. Nothing but a URL that does not come about makes it fail.
pub proof fn search_comes_to_an_end(
    g: GiteaView,
    prefix: Seq<char>,
    branch: Seq<char>,
    pages: Seq<Seq<GiteaTagView>>,
    in_history: spec_fn(Seq<char>) -> bool,
    replies: Seq<ReplyView>,
)
    requires
        regex_compiles("^"@ + prefix),
        0 < pages.len() < u64::MAX,
        are_true(g, pages, in_history, TagSearchView::start(g, prefix, branch), replies),
        pages.len() + pages.flatten().len() <= replies.len(),
    ensures
        ({
            let end = run(tag_steps(g), TagSearchView::start(g, prefix, branch), replies);
            &&& !(end matches Ok(FlowView::Send(_, _)))
            &&& fails_on_urls_only(end)
        }),
{
    reveal(GiteaView::tag_page);
    let at = TagSearchView::start(g, prefix, branch);
    assert(pages.skip(0) =~= pages);
    run_comes_to_an_end(g, "^"@ + prefix, pages, in_history, at, replies);
}

/// Whether a tag names a version behind the prefix: the prefix matches its name,
/// and what is left of the name without it is a semantic version.
pub open spec fn names_version(pattern: Seq<char>, tag: GiteaTagView) -> bool {
    regex_matches(pattern, tag.name) && semver_parts(regex_removed(pattern, tag.name)) is Some
}

/// Whether what is found tells of a tag: its name, its commit, the date of that
/// where it can be read, and the very parts of the version that it names.
pub open spec fn tells_of_tag(pattern: Seq<char>, found: TagView, tag: GiteaTagView) -> bool {
    &&& found.name == tag.name
    &&& found.sha == tag.commit.sha
    &&& found.timestamp == rfc3339_seconds(tag.commit.created)
    &&& semver_parts(regex_removed(pattern, tag.name)) == Some(
        (
            found.semver.major,
            found.semver.minor,
            found.semver.patch,
            found.semver.pre,
            found.semver.build,
        ),
    )
}

/// The tags that name a version behind the prefix and lie in the history, in their
/// order.
pub open spec fn versions_in_history(
    pattern: Seq<char>,
    in_history: spec_fn(Seq<char>) -> bool,
    tags: Seq<GiteaTagView>,
) -> Seq<GiteaTagView> {
    tags.filter(|tag: GiteaTagView| names_version(pattern, tag) && in_history(tag.commit.sha))
}

proof fn versions_are_told(
    pattern: Seq<char>,
    in_history: spec_fn(Seq<char>) -> bool,
    tags: Seq<GiteaTagView>,
)
    ensures
        ({
            let found = versions(pattern, in_history, tags);
            let named = versions_in_history(pattern, in_history, tags);
            &&& found.len() == named.len()
            &&& forall|i: int|
                0 <= i < named.len() ==> tells_of_tag(pattern, found[i], #[trigger] named[i])
        }),
    decreases tags.len(),
{
    let keep = |tag: GiteaTagView| names_version(pattern, tag) && in_history(tag.commit.sha);
    if tags.len() == 0 {
        reveal(Seq::filter);
    } else {
        let rest = tags.drop_first();
        versions_are_told(pattern, in_history, rest);
        filter_of_first(tags, keep);
        let found = versions(pattern, in_history, tags);
        let named = versions_in_history(pattern, in_history, tags);
        let later = versions(pattern, in_history, rest);
        let others = versions_in_history(pattern, in_history, rest);
        if keep(tags.first()) {
            assert(named =~= seq![tags.first()] + others);
            assert(found.len() == later.len() + 1);
            assert forall|i: int| 0 <= i < named.len() implies tells_of_tag(
                pattern,
                found[i],
                #[trigger] named[i],
            ) by {
                if i > 0 {
                    assert(named[i] == others[i - 1]);
                    assert(found[i] == later[i - 1]);
                }
            }
        } else {
            assert(named =~= others);
            assert(found == later);
        }
    }
}

/// A search that comes to an end tells, in their order, of exactly those of the
/// first tags, as many as the search depth, that the prefix matches, that are a
/// semantic version without it, and whose commit lies in the history of the
/// branch.
pub proof fn search_tells_of_the_versions(
    g: GiteaView,
    prefix: Seq<char>,
    branch: Seq<char>,
    pages: Seq<Seq<GiteaTagView>>,
    in_history: spec_fn(Seq<char>) -> bool,
    replies: Seq<ReplyView>,
)
    requires
        pages.len() > 0,
        are_true(g, pages, in_history, TagSearchView::start(g, prefix, branch), replies),
    ensures
        ({
            let depth = g.settings.tag_search_depth;
            let all = pages.flatten();
            let looked_at = if all.len() <= depth {
                all
            } else {
                all.take(depth as int)
            };
            let named = versions_in_history("^"@ + prefix, in_history, looked_at);
            run(tag_steps(g), TagSearchView::start(g, prefix, branch), replies) matches Ok(
                FlowView::Done(found),
            ) ==> {
                &&& found.len() == named.len()
                &&& forall|i: int|
                    0 <= i < named.len() ==> tells_of_tag(
                        "^"@ + prefix,
                        found[i],
                        #[trigger] named[i],
                    )
            }
        }),
{
    let depth = g.settings.tag_search_depth;
    let all = pages.flatten();
    let looked_at = if all.len() <= depth {
        all
    } else {
        all.take(depth as int)
    };
    search_finds_the_versions(g, prefix, branch, pages, in_history, replies);
    assert(within_depth(depth, 0, all) =~= looked_at);
    versions_are_told("^"@ + prefix, in_history, looked_at);
}

/// A tag names exactly the version that is left of its name without the prefix.
pub proof fn version_is_what_is_left(pattern: Seq<char>, tag: GiteaTagView)
    ensures
        version_of(pattern, tag.name) is Some <==> names_version(pattern, tag),
        version_of(pattern, tag.name) matches Some(semver) ==> tells_of_tag(
            pattern,
            version_tag(tag, semver),
            tag,
        ),
{
}

/// A tag keeps its name and its commit, and gets the version and the date that it
/// is given.
pub proof fn tag_is_told_in_full(tag: GiteaTagView, semver: SemVerView, timestamp: Option<i64>)
    ensures
        dated_tag(tag, semver, timestamp).name == tag.name,
        dated_tag(tag, semver, timestamp).sha == tag.commit.sha,
        dated_tag(tag, semver, timestamp).semver == semver,
        dated_tag(tag, semver, timestamp).timestamp == timestamp,
{
}

/// Whether the request that a search has sent is the one for what it waits for: a
/// page by its number, or the comparison of a tag with the branch.
pub open spec fn waits_for_its_request(
    g: GiteaView,
    branch: Seq<char>,
    at: Progress<TagSearchView, Seq<TagView>>,
) -> bool {
    at matches Ok(FlowView::Send(request, state)) ==> match state.stage {
        TagStageView::Page(page) => Ok::<_, ForgeErrorView>(request) == g.tag_page(page),
        TagStageView::Comparison { tag, .. } => Ok::<_, ForgeErrorView>(request)
            == g.is_tag_ancestor_of_branch(tag.commit.sha, branch),
    }
}

proof fn run_waits_for_its_requests(
    g: GiteaView,
    branch: Seq<char>,
    at: Progress<TagSearchView, Seq<TagView>>,
    replies: Seq<ReplyView>,
)
    requires
        waits_for_its_request(g, branch, at),
        at matches Ok(FlowView::Send(_, state)) ==> state.branch == branch,
    ensures
        waits_for_its_request(g, branch, run(tag_steps(g), at, replies)),
    decreases replies.len(),
{
    match at {
        Ok(FlowView::Send(_, state)) if replies.len() > 0 => {
            run_waits_for_its_requests(
                g,
                branch,
                state.step(g, replies.first()),
                replies.drop_first(),
            );
        },
        _ => {},
    }
}

/// Whatever the forge replies, each request of a search is for the page, or for
/// the comparison with the branch, whose reply the search then waits for.
pub proof fn every_request_is_waited_for(
    g: GiteaView,
    prefix: Seq<char>,
    branch: Seq<char>,
    replies: Seq<ReplyView>,
)
    ensures
        waits_for_its_request(
            g,
            branch,
            run(tag_steps(g), TagSearchView::start(g, prefix, branch), replies),
        ),
        TagSearchView::start(g, prefix, branch) matches Ok(FlowView::Send(request, _)) ==> Ok::<
            _,
            ForgeErrorView,
        >(request) == g.tag_page(1),
{
    let at = TagSearchView::start(g, prefix, branch);
    run_waits_for_its_requests(g, branch, at, replies);
}

/// A prefix that is no regular expression is an error, before anything is sent;
/// another one starts with the request for the first page.
pub proof fn prefix_must_be_an_expression(g: GiteaView, prefix: Seq<char>, branch: Seq<char>)
    ensures
        !regex_compiles("^"@ + prefix) ==> fails(
            TagSearchView::start(g, prefix, branch),
            ForgeErrorView::InvalidPattern,
        ),
        regex_compiles("^"@ + prefix) ==> match g.tag_page(1) {
            Ok(request) => TagSearchView::start(g, prefix, branch) matches Ok(
                FlowView::Send(sent, state),
            ) && sent == request && state.found.len() == 0 && state.examined == 0,
            Err(error) => fails(TagSearchView::start(g, prefix, branch), error),
        },
{
}

proof fn scan_finds_the_first(
    depth: usize,
    pattern: Seq<char>,
    examined: usize,
    tags: Seq<GiteaTagView>,
    i: int,
)
    requires
        regex_compiles(pattern),
        0 <= i < tags.len(),
        examined + i < depth,
        names_version(pattern, tags[i]),
        forall|j: int| 0 <= j < i ==> !names_version(pattern, #[trigger] tags[j]),
    ensures
        scan(depth, pattern, examined, tags) == Ok::<_, ForgeErrorView>(
            ScanView::Version {
                tag: tags[i],
                semver: version_of(pattern, tags[i].name).unwrap(),
                examined: (examined + i + 1) as usize,
                later: tags.skip(i + 1),
            },
        ),
    decreases i,
{
    let rest = tags.drop_first();
    if i == 0 {
        assert(tags.skip(1) =~= rest);
    } else {
        assert(!names_version(pattern, tags[0]));
        assert(tags.first() == tags[0]);
        assert forall|j: int| 0 <= j < i - 1 implies !names_version(
            pattern,
            #[trigger] rest[j],
        ) by {
            assert(rest[j] == tags[j + 1]);
        }
        assert(rest[i - 1] == tags[i]);
        scan_finds_the_first(depth, pattern, (examined + 1) as usize, rest, i - 1);
        assert(rest.skip(i) =~= tags.skip(i + 1));
    }
}

proof fn scan_finds_none(
    depth: usize,
    pattern: Seq<char>,
    examined: usize,
    tags: Seq<GiteaTagView>,
)
    requires
        regex_compiles(pattern),
        forall|j: int|
            0 <= j < tags.len() && examined + j < depth ==> !names_version(
                pattern,
                #[trigger] tags[j],
            ),
    ensures
        scan(depth, pattern, examined, tags) matches Ok(ScanView::End { examined: count, exhausted })
            && exhausted == (tags.len() > 0 && examined + tags.len() > depth) && (!exhausted
            ==> count == examined + tags.len()),
    decreases tags.len(),
{
    if tags.len() > 0 && examined < depth {
        let rest = tags.drop_first();
        assert(!names_version(pattern, tags[0]));
        assert(tags.first() == tags[0]);
        assert forall|j: int|
            0 <= j < rest.len() && (examined + 1) + j < depth implies !names_version(
            pattern,
            #[trigger] rest[j],
        ) by {
            assert(rest[j] == tags[j + 1]);
        }
        scan_finds_none(depth, pattern, (examined + 1) as usize, rest);
    }
}

/// The search compares the first tag within its depth that names a version, and
/// keeps what it has found and the tags behind that one.
pub proof fn next_version_is_compared(
    g: GiteaView,
    pattern: Seq<char>,
    branch: Seq<char>,
    examined: usize,
    found: Seq<TagView>,
    page: u64,
    goes_on: bool,
    tags: Seq<GiteaTagView>,
    i: int,
)
    requires
        regex_compiles(pattern),
        0 <= i < tags.len(),
        examined + i < g.settings.tag_search_depth,
        names_version(pattern, tags[i]),
        forall|j: int| 0 <= j < i ==> !names_version(pattern, #[trigger] tags[j]),
    ensures
        ({
            let at = TagSearchView::proceed(
                g,
                pattern,
                branch,
                examined,
                found,
                page,
                goes_on,
                tags,
            );
            match g.is_tag_ancestor_of_branch(tags[i].commit.sha, branch) {
                Err(error) => fails(at, error),
                Ok(request) => {
                    &&& at matches Ok(FlowView::Send(sent, state))
                    &&& sent == request
                    &&& state.pattern == pattern
                    &&& state.branch == branch
                    &&& state.found == found
                    &&& state.examined == examined + i + 1
                    &&& state.stage matches TagStageView::Comparison {
                        page: of,
                        goes_on: more,
                        tag,
                        semver,
                        later,
                    }
                    &&& of == page
                    &&& more == goes_on
                    &&& tag == tags[i]
                    &&& later == tags.skip(i + 1)
                    &&& tells_of_tag(pattern, version_tag(tag, semver), tag)
                },
            }
        }),
{
    scan_finds_the_first(g.settings.tag_search_depth, pattern, examined, tags, i);
}

/// Where no tag within the depth names a version, the search is over once the
/// page has tags past the depth or is the last; else it asks for the next page.
pub proof fn page_without_versions_is_passed(
    g: GiteaView,
    pattern: Seq<char>,
    branch: Seq<char>,
    examined: usize,
    found: Seq<TagView>,
    page: u64,
    goes_on: bool,
    tags: Seq<GiteaTagView>,
)
    requires
        regex_compiles(pattern),
        page < u64::MAX,
        forall|j: int|
            0 <= j < tags.len() && examined + j < g.settings.tag_search_depth ==> !names_version(
                pattern,
                #[trigger] tags[j],
            ),
    ensures
        ({
            let at = TagSearchView::proceed(
                g,
                pattern,
                branch,
                examined,
                found,
                page,
                goes_on,
                tags,
            );
            let past = tags.len() > 0 && examined + tags.len() > g.settings.tag_search_depth;
            if past || !goes_on {
                at == done::<TagSearchView, _>(found)
            } else {
                match g.tag_page((page + 1) as u64) {
                    Err(error) => fails(at, error),
                    Ok(request) => {
                        &&& at matches Ok(FlowView::Send(sent, state))
                        &&& sent == request
                        &&& state.pattern == pattern
                        &&& state.branch == branch
                        &&& state.found == found
                        &&& state.examined == examined + tags.len()
                        &&& state.stage == TagStageView::Page((page + 1) as u64)
                    },
                }
            }
        }),
{
    scan_finds_none(g.settings.tag_search_depth, pattern, examined, tags);
}

/// A reply that the forge refuses, or that cannot be read as what was asked for,
/// fails the search, whatever it has found before.
pub proof fn failed_reply_fails_the_search(g: GiteaView, state: TagSearchView, reply: ReplyView)
    ensures
        refuses(reply) ==> fails(state.step(g, reply), ForgeErrorView::Status(reply.status)),
        !refuses(reply) ==> match reply.payload {
            PayloadView::Tags(_) | PayloadView::Json(_) => true,
            PayloadView::Unreadable(reason) => fails(
                state.step(g, reply),
                ForgeErrorView::Undecodable(reason),
            ),
            _ => fails(state.step(g, reply), ForgeErrorView::UnexpectedPayload),
        },
{
}

} // verus!

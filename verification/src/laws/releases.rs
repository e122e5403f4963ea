//! What holds of tags that are being put on commits, and of their releases.

use vstd::prelude::*;

use crate::error::ForgeErrorView;
use crate::gitea::GiteaView;
use crate::http::{
    accepted, done, run, sent, FlowView, Progress, ReplyView, RequestView, CONFLICT, NOT_FOUND,
};
use crate::laws::replies::{fails, refuses};
use crate::laws::runs::{run_ends, run_steps};
use crate::releases::{ReleaseLookupView, TaggingView};
use crate::types::ReleaseByTagResponseView;
use crate::wire::{GiteaReleaseView, GiteaTagView};

verus! {

/// The step of a tag that is being put on a commit.
pub open spec fn tagging_steps(g: GiteaView) -> spec_fn(TaggingView, ReplyView) -> Progress<
    TaggingView,
    (),
> {
    |state: TaggingView, reply: ReplyView| state.step(g, reply)
}

/// The step of a look-up of the release of a tag.
pub open spec fn release_steps(g: GiteaView) -> spec_fn(ReleaseLookupView, ReplyView) -> Progress<
    ReleaseLookupView,
    ReleaseByTagResponseView,
> {
    |state: ReleaseLookupView, reply: ReplyView| state.step(g, reply)
}

/// A tag that the forge takes, or has on that very commit, is put on it; a tag
/// that is on another commit stays there, and is an error that names both
/// commits.
pub proof fn tag_is_put_once(
    g: GiteaView,
    tag_name: Seq<char>,
    sha: Seq<char>,
    created: ReplyView,
    existing: ReplyView,
    tag: GiteaTagView,
)
    requires
        g.create_tag(tag_name, sha) is Ok,
        g.get_tag(tag_name) is Ok,
        created.status == CONFLICT ==> existing.tag() == Ok::<_, ForgeErrorView>(tag),
    ensures
        ({
            let steps = tagging_steps(g);
            let at = TaggingView::start(g, tag_name, sha);
            let replies = seq![created, existing];
            let end = run(steps, at, replies);
            let requests = sent(steps, at, replies);
            let post = g.create_tag(tag_name, sha)->Ok_0;
            if created.status != CONFLICT {
                &&& requests == seq![post]
                &&& end == match accepted(created.status) {
                    Ok(_) => done::<TaggingView, _>(()),
                    Err(error) => Err(error),
                }
            } else {
                &&& requests == seq![post, g.get_tag(tag_name)->Ok_0]
                &&& end == if tag.commit.sha == sha {
                    done::<TaggingView, _>(())
                } else {
                    Err(
                        ForgeErrorView::Forge(
                            "tag "@ + tag_name + " already exists pointing at "@ + tag.commit.sha
                                + " but expected "@ + sha,
                        ),
                    )
                }
            }
        }),
{
    let steps = tagging_steps(g);
    let replies = seq![created, existing];
    let post = g.create_tag(tag_name, sha)->Ok_0;
    let asking = TaggingView { tag_name, sha, exists: false };
    assert(replies =~= seq![created] + seq![existing]);
    run_steps(steps, post, asking, created, seq![existing]);
    if created.status != CONFLICT {
        run_ends(steps, steps(asking, created), seq![existing]);
        assert(seq![post] + Seq::<RequestView>::empty() =~= seq![post]);
    } else {
        let get = g.get_tag(tag_name)->Ok_0;
        let looking = TaggingView { tag_name, sha, exists: true };
        assert(seq![existing] =~= seq![existing] + Seq::<ReplyView>::empty());
        run_steps(steps, get, looking, existing, Seq::empty());
        run_ends(steps, steps(looking, existing), Seq::empty());
        assert(seq![post] + (seq![get] + Seq::<RequestView>::empty()) =~= seq![post, get]);
    }
}

/// The release of a tag has the name and the commit of the tag that the forge
/// tells of, and the notes of the release under that name.
pub proof fn release_is_looked_up(
    g: GiteaView,
    name: Seq<char>,
    found: ReplyView,
    tag: GiteaTagView,
    released: ReplyView,
    release: GiteaReleaseView,
)
    requires
        g.get_tag(name) is Ok,
        found.tag() == Ok::<_, ForgeErrorView>(tag),
        g.get_release(tag.name) is Ok,
        released.release() == Ok::<_, ForgeErrorView>(release),
    ensures
        run(release_steps(g), ReleaseLookupView::start(g, name), seq![found, released]) == done::<
            ReleaseLookupView,
            _,
        >(
            ReleaseByTagResponseView { tag: tag.name, sha: tag.commit.sha, notes: release.body },
        ),
        sent(release_steps(g), ReleaseLookupView::start(g, name), seq![found, released]) == seq![
            g.get_tag(name)->Ok_0,
            g.get_release(tag.name)->Ok_0,
        ],
{
    let steps = release_steps(g);
    let first = g.get_tag(name)->Ok_0;
    let second = g.get_release(tag.name)->Ok_0;
    assert(seq![found, released] =~= seq![found] + seq![released]);
    run_steps(steps, first, ReleaseLookupView::Tag(name), found, seq![released]);
    assert(seq![released] =~= seq![released] + Seq::<ReplyView>::empty());
    let looking = ReleaseLookupView::Release(tag);
    run_steps(steps, second, looking, released, Seq::empty());
    run_ends(steps, steps(looking, released), Seq::empty());
    assert(seq![first] + (seq![second] + Seq::<RequestView>::empty()) =~= seq![first, second]);
}

/// A tag that is not there, and a tag without a release, are errors that say
/// which of the two it is.
pub proof fn missing_release_is_an_error(
    g: GiteaView,
    name: Seq<char>,
    found: ReplyView,
    tag: GiteaTagView,
    released: ReplyView,
)
    requires
        g.get_tag(name) is Ok,
        found.status == NOT_FOUND || {
            &&& found.tag() == Ok::<_, ForgeErrorView>(tag)
            &&& g.get_release(tag.name) is Ok
            &&& released.status == NOT_FOUND
        },
    ensures
        run(release_steps(g), ReleaseLookupView::start(g, name), seq![found, released]) == Err::<
            FlowView<ReleaseLookupView, ReleaseByTagResponseView>,
            _,
        >(
            ForgeErrorView::Forge(
                if found.status == NOT_FOUND {
                    "tag not found: "@ + name
                } else {
                    "no release found for tag: "@ + tag.name
                },
            ),
        ),
{
    let steps = release_steps(g);
    assert(seq![found, released] =~= seq![found] + seq![released]);
    let asking = ReleaseLookupView::Tag(name);
    run_steps(steps, g.get_tag(name)->Ok_0, asking, found, seq![released]);
    if found.status == NOT_FOUND {
        run_ends(steps, steps(asking, found), seq![released]);
    } else {
        assert(seq![released] =~= seq![released] + Seq::<ReplyView>::empty());
        let looking = ReleaseLookupView::Release(tag);
        run_steps(steps, g.get_release(tag.name)->Ok_0, looking, released, Seq::empty());
        run_ends(steps, steps(looking, released), Seq::empty());
    }
}

/// A reply that the forge refuses fails the tagging or the look-up, but where it
/// says that the tag is there already, or what is not there; so does one that is
/// not what was asked for.
pub proof fn failed_reply_fails_the_release(
    g: GiteaView,
    tagging: TaggingView,
    lookup: ReleaseLookupView,
    reply: ReplyView,
)
    ensures
        refuses(reply) && (tagging.exists || reply.status != 409) ==> fails(
            tagging.step(g, reply),
            ForgeErrorView::Status(reply.status),
        ),
        tagging.exists && reply.payload !is Tag ==> tagging.step(g, reply) is Err,
        refuses(reply) && reply.status != 404 ==> fails(
            lookup.step(g, reply),
            ForgeErrorView::Status(reply.status),
        ),
        lookup is Tag && reply.payload !is Tag ==> lookup.step(g, reply) is Err,
        lookup is Release && reply.payload !is Release ==> lookup.step(g, reply) is Err,
{
}

} // verus!

//! What holds of changes of files that are being looked up.

use vstd::prelude::*;
use vstd::utf8::encode_utf8;

use crate::bindings::{base64_text, json_string};
use crate::error::ForgeErrorView;
use crate::files::{with_change, ChangeSetView, ExistingFile};
use crate::gitea::GiteaView;
use crate::http::{done, run, PayloadView, Progress, ReplyView, RequestView};
use crate::laws::replies::{brings, fails, refuses};
use crate::laws::runs::{answered, reads_all, run_steps};
use crate::laws::sequences::filter_of_first;
use crate::types::{FileChangeView, FileUpdateType, GetFileContentRequestView};
use crate::wire::{GiteaFileChangeOperation, GiteaFileChangeView};

verus! {

/// The step of a look-up of the files of changes.
pub open spec fn change_steps(g: GiteaView) -> spec_fn(ChangeSetView, ReplyView) -> Progress<
    ChangeSetView,
    Seq<GiteaFileChangeView>,
> {
    |state: ChangeSetView, reply: ReplyView| state.step(g, reply)
}

/// The request for the file of a change.
pub open spec fn content_request(g: GiteaView, branch: Seq<char>, path: Seq<char>) -> Result<
    RequestView,
    ForgeErrorView,
> {
    g.get_file_content(GetFileContentRequestView { branch: Some(branch), path })
}

/// Whether the replies tell of each file whether it is there: its content and
/// its hash, or that it is not.
pub open spec fn are_files(replies: Seq<ReplyView>, existing: Seq<Option<ExistingFile>>) -> bool
    decreases existing.len(),
{
    if existing.len() == 0 {
        replies.len() == 0
    } else {
        match existing.first() {
            None => {
                &&& replies.len() >= 1
                &&& replies[0].status == 404
                &&& are_files(replies.skip(1), existing.drop_first())
            },
            Some((content, sha)) => {
                &&& replies.len() >= 2
                &&& brings(replies[0], PayloadView::Text(content))
                &&& !refuses(replies[1])
                &&& replies[1].payload is Json
                &&& json_string(replies[1].payload->Json_0, "sha"@) == Some(Some(sha))
                &&& are_files(replies.skip(2), existing.drop_first())
            },
        }
    }
}

/// The changes to files that are there as said, those before them at hand.
pub open spec fn all_changes(
    skip_unchanged: bool,
    before: Seq<GiteaFileChangeView>,
    changes: Seq<FileChangeView>,
    existing: Seq<Option<ExistingFile>>,
) -> Seq<GiteaFileChangeView>
    decreases changes.len(),
{
    if changes.len() == 0 {
        before
    } else {
        all_changes(
            skip_unchanged,
            with_change(skip_unchanged, before, changes.first(), existing.first()),
            changes.drop_first(),
            existing.drop_first(),
        )
    }
}

/// The requests of a look-up: for each change, in its order, that for the content
/// of its file and, where the file is there, that for its hash.
pub open spec fn lookup_requests(
    g: GiteaView,
    branch: Seq<char>,
    changes: Seq<FileChangeView>,
    existing: Seq<Option<ExistingFile>>,
) -> Seq<RequestView>
    decreases changes.len(),
{
    if changes.len() == 0 {
        Seq::empty()
    } else {
        let path = changes.first().path;
        let content = content_request(g, branch, path)->Ok_0;
        let later = lookup_requests(g, branch, changes.drop_first(), existing.drop_first());
        match existing.first() {
            None => seq![content] + later,
            Some(_) => seq![content, g.get_file_sha(path)->Ok_0] + later,
        }
    }
}

/// The look-up takes every change, in its order, to what its file is, and reads
/// all that the forge tells of the files.
pub proof fn changes_are_looked_up(
    g: GiteaView,
    branch: Seq<char>,
    skip_unchanged: bool,
    changes: Seq<FileChangeView>,
    before: Seq<GiteaFileChangeView>,
    existing: Seq<Option<ExistingFile>>,
    replies: Seq<ReplyView>,
)
    requires
        changes.len() == existing.len(),
        are_files(replies, existing),
        forall|i: int|
            0 <= i < changes.len() ==> content_request(
                g,
                branch,
                (#[trigger] changes[i]).path,
            ) is Ok && g.get_file_sha(changes[i].path) is Ok,
    ensures
        run(
            change_steps(g),
            ChangeSetView::ask(g, branch, skip_unchanged, changes, before),
            replies,
        ) == done::<ChangeSetView, _>(all_changes(skip_unchanged, before, changes, existing)),
        reads_all(
            change_steps(g),
            ChangeSetView::ask(g, branch, skip_unchanged, changes, before),
            replies,
        ),
        answered(
            change_steps(g),
            ChangeSetView::ask(g, branch, skip_unchanged, changes, before),
            replies,
        ) == lookup_requests(g, branch, changes, existing),
    decreases changes.len(),
{
    let steps = change_steps(g);
    let at = ChangeSetView::ask(g, branch, skip_unchanged, changes, before);
    if changes.len() > 0 {
        let change = changes[0];
        let state = ChangeSetView {
            branch,
            skip_unchanged,
            change,
            content: None,
            later: changes.drop_first(),
            files: before,
        };
        assert(content_request(g, branch, change.path) is Ok);
        let request = content_request(g, branch, change.path)->Ok_0;
        let files = with_change(skip_unchanged, before, change, existing.first());
        assert forall|i: int| 0 <= i < changes.drop_first().len() implies content_request(
            g,
            branch,
            (#[trigger] changes.drop_first()[i]).path,
        ) is Ok && g.get_file_sha(changes.drop_first()[i].path) is Ok by {
            assert(changes.drop_first()[i] == changes[i + 1]);
        }
        match existing.first() {
            None => {
                let rest = replies.skip(1);
                assert(replies =~= seq![replies[0]] + rest);
                run_steps(steps, request, state, replies[0], rest);
                changes_are_looked_up(
                    g,
                    branch,
                    skip_unchanged,
                    changes.drop_first(),
                    files,
                    existing.drop_first(),
                    rest,
                );
            },
            Some((content, sha)) => {
                let rest = replies.skip(2);
                assert(replies =~= seq![replies[0]] + (seq![replies[1]] + rest));
                run_steps(steps, request, state, replies[0], seq![replies[1]] + rest);
                let known = ChangeSetView { content: Some(content), ..state };
                let hash = g.get_file_sha(change.path)->Ok_0;
                run_steps(steps, hash, known, replies[1], rest);
                changes_are_looked_up(
                    g,
                    branch,
                    skip_unchanged,
                    changes.drop_first(),
                    files,
                    existing.drop_first(),
                    rest,
                );
                let later = lookup_requests(
                    g,
                    branch,
                    changes.drop_first(),
                    existing.drop_first(),
                );
                assert(seq![request] + (seq![hash] + later) =~= seq![request, hash] + later);
            },
        }
    }
}

/// The text that a file is to have: that of the change, in front of what is there
/// where it is to be put there.
pub open spec fn text_after(change: FileChangeView, existing: Option<ExistingFile>) -> Seq<char> {
    if existing is Some && change.update_type == FileUpdateType::Prepend {
        change.content + existing->Some_0.0
    } else {
        change.content
    }
}

/// The text that a file has; one that is not there has none.
pub open spec fn text_before(existing: Option<ExistingFile>) -> Seq<char> {
    if existing is Some {
        existing->Some_0.0
    } else {
        Seq::empty()
    }
}

/// Whether what is sent for a change says what the file is to have: an update of
/// the very hash that the file has where it is there, a creation without a hash
/// where it is not; under the path of the change, with the text that the file is
/// to have.
pub open spec fn is_sent_for(
    sent: GiteaFileChangeView,
    change: FileChangeView,
    existing: Option<ExistingFile>,
) -> bool {
    &&& sent.path == change.path
    &&& sent.content == base64_text(encode_utf8(text_after(change, existing)))
    &&& existing is Some ==> {
        &&& sent.operation == GiteaFileChangeOperation::Update
        &&& sent.sha == Some(existing->Some_0.1)
    }
    &&& existing is None ==> {
        &&& sent.operation == GiteaFileChangeOperation::Create
        &&& sent.sha is None
    }
}

/// Where no change is left out, each change is made to its own file, in its order:
/// it is an update, with the hash of the file, exactly where the file is there.
pub proof fn every_change_is_made(
    before: Seq<GiteaFileChangeView>,
    changes: Seq<FileChangeView>,
    existing: Seq<Option<ExistingFile>>,
)
    requires
        changes.len() == existing.len(),
    ensures
        all_changes(false, before, changes, existing) == before + Seq::new(
            changes.len(),
            |i: int| changes[i].resolved(existing[i]),
        ),
        ({
            let all = all_changes(false, before, changes, existing);
            &&& all.len() == before.len() + changes.len()
            &&& forall|i: int| 0 <= i < before.len() ==> (#[trigger] all[i]) == before[i]
            &&& forall|i: int|
                0 <= i < changes.len() ==> is_sent_for(
                    all[before.len() + i],
                    #[trigger] changes[i],
                    existing[i],
                )
        }),
    decreases changes.len(),
{
    let made = Seq::new(changes.len(), |i: int| changes[i].resolved(existing[i]));
    if changes.len() == 0 {
        assert(before + made =~= before);
    } else {
        let next = with_change(false, before, changes.first(), existing.first());
        assert(next.len() == before.len() + 1);
        assert(is_sent_for(next.last(), changes.first(), existing.first()));
        let later = changes.drop_first();
        let files = existing.drop_first();
        every_change_is_made(next, later, files);
        assert(next + Seq::new(later.len(), |i: int| later[i].resolved(files[i])) =~= before
            + made);
        let all = all_changes(false, before, changes, existing);
        assert forall|i: int| 0 <= i < before.len() implies (#[trigger] all[i]) == before[i] by {
            assert(all[i] == next[i]);
        }
        assert forall|i: int| 0 <= i < changes.len() implies is_sent_for(
            all[before.len() + i],
            #[trigger] changes[i],
            existing[i],
        ) by {
            if i == 0 {
                assert(all[before.len() as int] == next[before.len() as int]);
            } else {
                assert(later[i - 1] == changes[i]);
                assert(is_sent_for(all[next.len() + (i - 1)], later[i - 1], files[i - 1]));
            }
        }
    }
}

/// The changes, each with its file, whose files are to have another text than they
/// have, in their order.
pub open spec fn real_changes(
    changes: Seq<FileChangeView>,
    existing: Seq<Option<ExistingFile>>,
) -> Seq<(FileChangeView, Option<ExistingFile>)> {
    Seq::new(changes.len(), |i: int| (changes[i], existing[i])).filter(
        |pair: (FileChangeView, Option<ExistingFile>)|
            text_after(pair.0, pair.1) != text_before(pair.1),
    )
}

/// Where changes that change nothing are left out, those are left out whose files
/// have, character by character, the text that they are to have, and no others;
/// the rest are made in their order, each to its own file.
pub proof fn only_unchanged_files_are_left_out(
    before: Seq<GiteaFileChangeView>,
    changes: Seq<FileChangeView>,
    existing: Seq<Option<ExistingFile>>,
)
    requires
        changes.len() == existing.len(),
    ensures
        ({
            let all = all_changes(true, before, changes, existing);
            let kept = real_changes(changes, existing);
            &&& all.len() == before.len() + kept.len()
            &&& forall|i: int| 0 <= i < before.len() ==> (#[trigger] all[i]) == before[i]
            &&& forall|i: int|
                0 <= i < kept.len() ==> is_sent_for(
                    all[before.len() + i],
                    (#[trigger] kept[i]).0,
                    kept[i].1,
                )
        }),
    decreases changes.len(),
{
    let pairs = Seq::new(changes.len(), |i: int| (changes[i], existing[i]));
    let keep = |pair: (FileChangeView, Option<ExistingFile>)|
        text_after(pair.0, pair.1) != text_before(pair.1);
    if changes.len() == 0 {
        reveal(Seq::filter);
        assert(pairs.filter(keep).len() == 0);
    } else {
        let change = changes.first();
        let file = existing.first();
        let later = changes.drop_first();
        let files = existing.drop_first();
        let next = with_change(true, before, change, file);
        only_unchanged_files_are_left_out(next, later, files);
        filter_of_first(pairs, keep);
        assert(pairs.drop_first() =~= Seq::new(later.len(), |i: int| (later[i], files[i])));
        assert(change.new_content(file) =~= text_after(change, file));
        assert(text_before(file) =~= match file {
            Some((content, _)) => content,
            None => Seq::empty(),
        });
        let kept = real_changes(changes, existing);
        let rest = real_changes(later, files);
        let all = all_changes(true, before, changes, existing);
        if keep((change, file)) {
            assert(next.len() == before.len() + 1);
            assert(is_sent_for(next.last(), change, file));
            assert(kept =~= seq![(change, file)] + rest);
            assert forall|i: int| 0 <= i < before.len() implies (#[trigger] all[i])
                == before[i] by {
                assert(all[i] == next[i]);
            }
            assert forall|i: int| 0 <= i < kept.len() implies is_sent_for(
                all[before.len() + i],
                (#[trigger] kept[i]).0,
                kept[i].1,
            ) by {
                if i == 0 {
                    assert(all[before.len() as int] == next[before.len() as int]);
                } else {
                    assert(kept[i] == rest[i - 1]);
                    assert(is_sent_for(all[next.len() + (i - 1)], rest[i - 1].0, rest[i - 1].1));
                }
            }
        } else {
            assert(next == before);
            assert(kept =~= rest);
        }
    }
}

/// Where changes that change nothing are left out, nothing is left exactly where
/// every file has the content that it is to have.
pub proof fn unchanged_files_are_left_out(
    changes: Seq<FileChangeView>,
    existing: Seq<Option<ExistingFile>>,
)
    requires
        changes.len() == existing.len(),
    ensures
        (all_changes(true, Seq::empty(), changes, existing).len() == 0) <==> (forall|i: int|
            0 <= i < changes.len() ==> (#[trigger] changes[i]).changes_nothing(existing[i])),
        (all_changes(true, Seq::empty(), changes, existing).len() == 0) <==> (forall|i: int|
            0 <= i < changes.len() ==> text_after(#[trigger] changes[i], existing[i])
                == text_before(existing[i])),
{
    let pairs = Seq::new(changes.len(), |i: int| (changes[i], existing[i]));
    let keep = |pair: (FileChangeView, Option<ExistingFile>)|
        text_after(pair.0, pair.1) != text_before(pair.1);
    only_unchanged_files_are_left_out(Seq::empty(), changes, existing);
    let kept = real_changes(changes, existing);
    assert forall|i: int| 0 <= i < changes.len() implies (#[trigger] changes[i]).changes_nothing(
        existing[i],
    ) == (text_after(changes[i], existing[i]) == text_before(existing[i])) by {
        assert(changes[i].new_content(existing[i]) =~= text_after(changes[i], existing[i]));
    }
    if kept.len() > 0 {
        assert(kept.contains(kept[0]));
        pairs.lemma_filter_contains_rev(keep, kept[0]);
        pairs.lemma_filter_pred(keep, 0);
        let i = pairs.index_of(kept[0]);
        assert(pairs[i] == kept[0]);
        assert(text_after(changes[i], existing[i]) != text_before(existing[i]));
    } else {
        assert forall|i: int| 0 <= i < changes.len() implies text_after(
            #[trigger] changes[i],
            existing[i],
        ) == text_before(existing[i]) by {
            assert(pairs[i] == (changes[i], existing[i]));
            if keep(pairs[i]) {
                pairs.lemma_filter_contains(keep, i);
            }
        }
    }
}

/// A reply that the forge refuses fails the look-up, but for a file that is not
/// there; so does one that is no text, or no hash.
pub proof fn failed_reply_fails_the_look_up(g: GiteaView, state: ChangeSetView, reply: ReplyView)
    ensures
        refuses(reply) && (reply.status != 404 || state.content is Some) ==> fails(
            state.step(g, reply),
            ForgeErrorView::Status(reply.status),
        ),
        !refuses(reply) && reply.payload is Unreadable ==> fails(
            state.step(g, reply),
            ForgeErrorView::Undecodable(reply.payload->Unreadable_0),
        ),
        !refuses(reply) && state.content is None && reply.payload !is Text ==> state.step(
            g,
            reply,
        ) is Err,
        !refuses(reply) && state.content is Some && reply.payload !is Json ==> state.step(
            g,
            reply,
        ) is Err,
{
}

} // verus!

//! What is written to disk.

use crate::constant::ConstV;
use crate::constant_container::EntryV;
use crate::edit::rewritten;
use crate::effects::{
    after_event, after_taking_over, agrees, awaited, files_of, follows, goes_on, going_on,
    law_modified, law_plan, modified, plan, rank, within, EffectAction, EffectEvent, EffectsV,
    FileChangesV, Stage,
};
use crate::errors::{ChangesKindRepr, MakeChangesErrorRepr};
use crate::parser::contained;
use crate::syntax::{file_items, parsed_source};
use vstd::prelude::*;

verus! {

/// The constants that are to be written are the modified ones, in order.
pub proof fn law_modified_exact(entries: Seq<EntryV>)
    ensures
        modified(entries) == entries.filter(|e: EntryV| e.modified).map_values(
            |e: EntryV| e.constant,
        ),
    decreases entries.len(),
{
    reveal(Seq::filter);
    let keep = |e: EntryV| e.modified;
    let give = |e: EntryV| e.constant;
    if entries.len() > 0 {
        law_modified_exact(entries.drop_last());
    }
    assert(modified(entries) =~= entries.filter(keep).map_values(give));
}

/// The changes to a file are those of the constants in it, in order.
pub proof fn law_changes_of_file(entries: Seq<EntryV>, path: Seq<char>)
    ensures
        within(modified(entries), path) == entries.filter(
            |e: EntryV| e.modified && e.constant.source == path,
        ).map_values(|e: EntryV| e.constant),
    decreases entries.len(),
{
    reveal(Seq::filter);
    let keep = |e: EntryV| e.modified && e.constant.source == path;
    let give = |e: EntryV| e.constant;
    if entries.len() > 0 {
        let shorter = entries.drop_last();
        law_changes_of_file(shorter, path);
        if entries.last().modified {
            assert(modified(entries).drop_last() =~= modified(shorter));
        }
    }
    assert(within(modified(entries), path) =~= entries.filter(keep).map_values(give));
}

/// Whether, up to and with the constant at a position, there is one in the first
/// file and none in the second.
pub open spec fn comes_first(
    changes: Seq<ConstV>,
    first: Seq<char>,
    second: Seq<char>,
    k: int,
) -> bool {
    &&& 0 <= k < changes.len()
    &&& changes[k].source == first
    &&& forall|j: int| 0 <= j <= k ==> (#[trigger] changes[j]).source != second
}

/// Whether a constant in the first file comes before any in the second.
pub open spec fn precedes(changes: Seq<ConstV>, first: Seq<char>, second: Seq<char>) -> bool {
    exists|k: int| comes_first(changes, first, second, k)
}

/// The files that are written are those that constants are in, each once, in the
/// order in which they first come up.
pub proof fn law_files_exact(changes: Seq<ConstV>)
    ensures
        forall|path: Seq<char>| #[trigger]
            files_of(changes).contains(path) <==> exists|k: int|
                0 <= k < changes.len() && (#[trigger] changes[k]).source == path,
        forall|g: int, h: int|
            0 <= g < h < files_of(changes).len() ==> #[trigger] files_of(changes)[g]
                != #[trigger] files_of(changes)[h],
        forall|g: int, h: int|
            0 <= g < h < files_of(changes).len() ==> precedes(
                changes,
                #[trigger] files_of(changes)[g],
                #[trigger] files_of(changes)[h],
            ),
    decreases changes.len(),
{
    if changes.len() > 0 {
        let shorter = changes.drop_last();
        let before = files_of(shorter);
        let now = files_of(changes);
        let last = changes.len() - 1;
        law_files_exact(shorter);
        assert(forall|k: int| 0 <= k < shorter.len() ==> #[trigger] shorter[k] == changes[k]);
        assert(changes[last] == changes.last());
        assert forall|path: Seq<char>| #[trigger] now.contains(path) <==> exists|k: int|
            0 <= k < changes.len() && (#[trigger] changes[k]).source == path by {
            if now.contains(path) {
                let g = now.index_of(path);
                if g < before.len() {
                    assert(before[g] == path);
                    assert(before.contains(path));
                    let k = choose|k: int|
                        0 <= k < shorter.len() && (#[trigger] shorter[k]).source == path;
                    assert(changes[k].source == path);
                } else {
                    assert(changes[last].source == path);
                }
            }
            if exists|k: int| 0 <= k < changes.len() && (#[trigger] changes[k]).source == path {
                let k = choose|k: int|
                    0 <= k < changes.len() && (#[trigger] changes[k]).source == path;
                if k < last {
                    assert(shorter[k].source == path);
                    assert(before.contains(path));
                    assert(now[before.index_of(path)] == path);
                } else if before.contains(path) {
                    assert(now[before.index_of(path)] == path);
                } else {
                    assert(now[now.len() - 1] == path);
                }
            }
        }
        assert forall|g: int, h: int| 0 <= g < h < now.len() implies #[trigger] now[g]
            != #[trigger] now[h] by {
            if h == before.len() && now[g] == now[h] {
                assert(before[g] == now[g]);
            }
        }
        assert forall|g: int, h: int| 0 <= g < h < now.len() implies precedes(
            changes,
            #[trigger] now[g],
            #[trigger] now[h],
        ) by {
            assert(before[g] == now[g]);
            if h < before.len() {
                assert(before[h] == now[h]);
                assert(precedes(shorter, before[g], before[h]));
                let k = choose|k: int| comes_first(shorter, before[g], before[h], k);
                assert forall|j: int| 0 <= j <= k implies (#[trigger] changes[j]).source
                    != now[h] by {
                    assert(shorter[j] == changes[j]);
                }
                assert(comes_first(changes, now[g], now[h], k));
            } else {
                assert(before.contains(before[g]));
                let k = choose|k: int|
                    0 <= k < shorter.len() && (#[trigger] shorter[k]).source == before[g];
                assert forall|j: int| 0 <= j <= k implies (#[trigger] changes[j]).source
                    != now[h] by {
                    if changes[j].source == now[h] {
                        assert(shorter[j].source == now[h]);
                        assert(before.contains(now[h]));
                    }
                }
                assert(comes_first(changes, now[g], now[h], k));
            }
        }
    }
}

/// What is to be written: each file that a modified constant is in, once, with all
/// the modified constants that are in it, in order. No other file is touched.
pub proof fn law_plan_exact(entries: Seq<EntryV>)
    ensures
        forall|k: int|
            0 <= k < entries.len() && (#[trigger] entries[k]).modified ==> exists|g: int|
                0 <= g < plan(modified(entries)).len() && (#[trigger] plan(
                    modified(entries),
                )[g]).path == entries[k].constant.source,
        forall|g: int|
            0 <= g < plan(modified(entries)).len() ==> (#[trigger] plan(
                modified(entries),
            )[g]).changes.len() > 0,
        forall|g: int|
            0 <= g < plan(modified(entries)).len() ==> ({
                let file = #[trigger] plan(modified(entries))[g];
                file.changes == entries.filter(
                    |e: EntryV| e.modified && e.constant.source == file.path,
                ).map_values(|e: EntryV| e.constant)
            }),
        forall|g: int, h: int|
            0 <= g < h < plan(modified(entries)).len() ==> (#[trigger] plan(
                modified(entries),
            )[g]).path != (#[trigger] plan(modified(entries))[h]).path,
{
    let changes = modified(entries);
    let files = files_of(changes);
    law_files_exact(changes);
    law_modified(entries);
    law_plan(changes);
    assert forall|k: int| 0 <= k < entries.len() && (
    #[trigger] entries[k]).modified implies exists|g: int|
        0 <= g < plan(changes).len() && (#[trigger] plan(changes)[g]).path
            == entries[k].constant.source by {
        let m = changes.index_of(entries[k].constant);
        assert(changes[m] == entries[k].constant);
        let g = files.index_of(entries[k].constant.source);
        assert(plan(changes)[g].path == entries[k].constant.source);
    }
    assert forall|g: int| 0 <= g < plan(changes).len() implies (
    #[trigger] plan(changes)[g]).changes.len() > 0 by {
        assert(files.contains(files[g]));
        let k = choose|k: int| 0 <= k < changes.len() && (#[trigger] changes[k]).source == files[g];
        assert(within(changes, changes[k].source).contains(changes[k]));
    }
    assert forall|g: int| 0 <= g < plan(changes).len() implies ({
        let file = #[trigger] plan(changes)[g];
        file.changes == entries.filter(
            |e: EntryV| e.modified && e.constant.source == file.path,
        ).map_values(|e: EntryV| e.constant)
    }) by {
        law_changes_of_file(entries, plan(changes)[g].path);
    }
}

/// A task waits for how a file was read, or how it was written, as long as one is
/// at hand, and can break down meanwhile. Once it is finished it waits for nothing.
pub proof fn law_awaited(event: EffectEvent)
    ensures
        awaited(Stage::Fetching, event) <==> !(event is Saved || event is SaveFailed),
        awaited(Stage::Saving, event) <==> !(event is Fetched || event is FetchFailed),
        !awaited(Stage::Idle, event),
        !awaited(Stage::Finished, event),
{
}

/// Whether the task goes through the events without a failure.
pub open spec fn smooth(
    states: Seq<EffectsV>,
    events: Seq<EffectEvent>,
    actions: Seq<EffectAction>,
) -> bool {
    &&& states.len() == events.len() + 1
    &&& actions.len() == events.len()
    &&& forall|i: int|
        0 <= i < events.len() ==> {
            &&& awaited(states[i].stage, #[trigger] events[i])
            &&& states[i + 1] == after_event(states[i], events[i])
            &&& follows(states[i], events[i], actions[i])
            &&& events[i] is Saved || events[i] is Fetched && parsed_source(
                events[i]->Fetched_0@,
            ) is Some
        }
}

/// The task that has begun on files.
pub open spec fn begun(files: Seq<FileChangesV>) -> EffectsV {
    let idle = EffectsV { files, current: 0, stage: Stage::Idle };
    EffectsV { stage: going_on(idle), ..idle }
}

proof fn lemma_smooth(
    files: Seq<FileChangesV>,
    states: Seq<EffectsV>,
    events: Seq<EffectEvent>,
    actions: Seq<EffectAction>,
    i: int,
)
    requires
        smooth(states, events, actions),
        states[0] == begun(files),
        0 <= i <= events.len(),
    ensures
        i <= 2 * files.len(),
        states[i].files == files,
        states[i].current == i / 2,
        states[i].stage == (if i == 2 * files.len() {
            Stage::Finished
        } else if i % 2 == 0 {
            Stage::Fetching
        } else {
            Stage::Saving
        }),
    decreases i,
{
    if i > 0 {
        lemma_smooth(files, states, events, actions, i - 1);
        law_awaited(events[i - 1]);
        assert(states[i - 1 + 1] == after_event(states[i - 1], events[i - 1]));
    }
}

/// Where nothing fails, all files are written, one after the other: each is read,
/// and what was read is written with the changes to that file, before the next is
/// read. Only then is the task done.
pub proof fn law_all_files_written(
    files: Seq<FileChangesV>,
    states: Seq<EffectsV>,
    events: Seq<EffectEvent>,
    actions: Seq<EffectAction>,
)
    requires
        smooth(states, events, actions),
        states[0] == begun(files),
    ensures
        events.len() <= 2 * files.len(),
        forall|i: int|
            0 <= i < events.len() && i % 2 == 0 ==> {
                &&& events[i] is Fetched
                &&& (#[trigger] actions[i]) is Save
                &&& actions[i]->Save_0@ == files[i / 2].path
                &&& rewritten(
                    parsed_source(events[i]->Fetched_0@)->0,
                    file_items(actions[i]->Save_1),
                    files[i / 2].changes,
                )
            },
        forall|i: int|
            0 <= i < events.len() && i % 2 == 1 && i / 2 + 1 < files.len() ==> (
            #[trigger] actions[i]) is Fetch && actions[i]->Fetch_0@ == files[i / 2 + 1].path,
        forall|i: int|
            0 <= i < events.len() ==> (((#[trigger] actions[i]) is Done) <==> i == 2 * files.len()
                - 1),
        events.len() == 2 * files.len() && files.len() > 0 ==> actions.last()
            == EffectAction::Done(Ok(())),
{
    assert forall|i: int| 0 <= i < events.len() implies i < 2 * files.len() && states[i].files
        == files && states[i].current == i / 2 && states[i].stage == (if i % 2 == 0 {
        Stage::Fetching
    } else {
        Stage::Saving
    }) && follows(states[i], events[i], #[trigger] actions[i]) && awaited(
        states[i].stage,
        events[i],
    ) && (events[i] is Saved || events[i] is Fetched && parsed_source(
        events[i]->Fetched_0@,
    ) is Some) by {
        lemma_smooth(files, states, events, actions, i);
        lemma_smooth(files, states, events, actions, i + 1);
    }
    lemma_smooth(files, states, events, actions, events.len() as int);
}

/// A task begins with the first file, and is done at once where there is none.
pub proof fn law_effects_begin(files: Seq<FileChangesV>, action: EffectAction)
    requires
        goes_on(EffectsV { files, current: 0, stage: Stage::Idle }, action),
    ensures
        files.len() == 0 ==> action == EffectAction::Done(Ok(())) && begun(files).stage
            == Stage::Finished,
        files.len() > 0 ==> action is Fetch && action->Fetch_0@ == files[0].path && begun(
            files,
        ).stage == Stage::Fetching && begun(files).current == 0,
        begun(files).files == files,
{
}

/// With each event that a task waits for, as many files have been written as
/// before, or one more where that one was saved. It ends well only when the last
/// of the files was.
pub proof fn law_one_file_at_a_time(s: EffectsV, event: EffectEvent, action: EffectAction)
    requires
        s.wf(),
        awaited(s.stage, event),
        follows(s, event, action),
    ensures
        after_event(s, event).files == s.files,
        after_event(s, event).current == s.current + (if event is Saved {
            1int
        } else {
            0
        }),
        action == EffectAction::Done(Ok(())) ==> event is Saved && s.current + 1 == s.files.len(),
        action is Done <==> after_event(s, event).stage == Stage::Finished,
{
}

/// A failure ends the task with an error that names the file at hand and holds the
/// message.
pub proof fn law_failures_told(s: EffectsV, event: EffectEvent, action: EffectAction)
    requires
        s.wf(),
        awaited(s.stage, event),
        follows(s, event, action),
        !(event is Saved),
        event is Fetched ==> parsed_source(event->Fetched_0@) is None,
    ensures
        after_event(s, event).stage == Stage::Finished,
        action is Done,
        action->Done_0 is Err,
        match (event, action->Done_0->Err_0.repr()) {
            (EffectEvent::Fetched(_), MakeChangesErrorRepr::Parse(path)) => path@
                == s.files[s.current].path,
            (EffectEvent::FetchFailed(message), MakeChangesErrorRepr::IoBound(why)) => {
                &&& why.op() == ChangesKindRepr::FetchOp
                &&& why.path_text() == s.files[s.current].path
                &&& why.message() == message@
            },
            (EffectEvent::SaveFailed(message), MakeChangesErrorRepr::IoBound(why)) => {
                &&& why.op() == ChangesKindRepr::SaveOp
                &&& why.path_text() == s.files[s.current].path
                &&& why.message() == message@
            },
            (EffectEvent::TaskFailed(message), MakeChangesErrorRepr::Other(text)) => text@
                == message@,
            _ => false,
        },
{
}

/// Whether these are the positions of the constants that are in a file, in order.
pub open spec fn positions_in(entries: Seq<EntryV>, path: Seq<char>, at: Seq<int>) -> bool {
    &&& forall|j: int|
        0 <= j < at.len() ==> 0 <= #[trigger] at[j] < entries.len()
            && entries[at[j]].constant.source == path
    &&& forall|i: int, j: int| 0 <= i < j < at.len() ==> #[trigger] at[i] < #[trigger] at[j]
    &&& forall|k: int|
        0 <= k < entries.len() && (#[trigger] entries[k]).constant.source == path ==> at.contains(
            k,
        )
}

proof fn lemma_rank_of(entries: Seq<EntryV>, path: Seq<char>, at: Seq<int>, n: int, j: int)
    requires
        positions_in(entries, path, at),
        0 <= n <= entries.len(),
        0 <= j <= at.len(),
        forall|i: int| 0 <= i < j ==> #[trigger] at[i] < n,
        forall|i: int| j <= i < at.len() ==> n <= #[trigger] at[i],
    ensures
        rank(entries, path, n) == j,
    decreases n,
{
    if n == 0 {
        if j > 0 {
            assert(at[0] < 0);
        }
    } else {
        let k = n - 1;
        if entries[k].constant.source == path {
            assert(at.contains(k));
            let i = at.index_of(k);
            assert(at[i] == k);
            assert(i == j - 1) by {
                if i < j - 1 {
                    assert(at[i] < at[j - 1]);
                } else if i >= j {
                    assert(n <= at[i]);
                }
            }
            assert forall|x: int| 0 <= x < j - 1 implies #[trigger] at[x] < k by {
                assert(at[x] < at[i]);
            }
            lemma_rank_of(entries, path, at, k, j - 1);
        } else {
            assert forall|x: int| 0 <= x < j implies #[trigger] at[x] < k by {
                assert(entries[at[x]].constant.source == path);
            }
            lemma_rank_of(entries, path, at, k, j);
        }
    }
}

/// The contents of a written file are taken over if they hold the constants that
/// memory has of that file, by name and in order. Each then starts where it was
/// found, and is modified if the file does not say of it what memory does. Nothing
/// else about it changes, nor anything about other constants.
pub proof fn law_taken_over(
    entries: Seq<EntryV>,
    path: Seq<char>,
    contents: Seq<char>,
    at: Seq<int>,
)
    requires
        positions_in(entries, path, at),
    ensures
        after_taking_over(entries, path, contents) is Some <==> contained(contents, path) is Some
            && contained(contents, path)->0.len() == at.len() && forall|j: int|
            0 <= j < at.len() ==> entries[#[trigger] at[j]].constant.ident == contained(
                contents,
                path,
            )->0[j].ident,
        after_taking_over(entries, path, contents) is Some ==> {
            let found = contained(contents, path)->0;
            let after = after_taking_over(entries, path, contents)->0;
            &&& after.len() == entries.len()
            &&& forall|k: int|
                0 <= k < entries.len() && (#[trigger] entries[k]).constant.source != path
                    ==> after[k] == entries[k]
            &&& forall|j: int|
                0 <= j < at.len() ==> after[#[trigger] at[j]] == (EntryV {
                    constant: ConstV {
                        ident: entries[at[j]].constant.ident,
                        deprecated: entries[at[j]].constant.deprecated,
                        span: found[j].span,
                        source: path,
                    },
                    modified: entries[at[j]].constant.deprecated != found[j].deprecated,
                })
        },
{
    lemma_rank_of(entries, path, at, entries.len() as int, at.len() as int);
    assert forall|j: int| 0 <= j < at.len() implies rank(entries, path, #[trigger] at[j]) == j by {
        lemma_rank_of(entries, path, at, at[j], j);
    }
    if contained(contents, path) is Some {
        let found = contained(contents, path)->0;
        if found.len() == at.len() && forall|j: int|
            0 <= j < at.len() ==> entries[#[trigger] at[j]].constant.ident == found[j].ident {
            assert forall|k: int|
                0 <= k < entries.len() && (#[trigger] entries[k]).constant.source
                    == path implies entries[k].constant.ident == found[rank(
                entries,
                path,
                k,
            )].ident by {
                let j = at.index_of(k);
                assert(at[j] == k);
            }
        }
        if agrees(entries, path, found) {
            assert forall|j: int| 0 <= j < at.len() implies entries[
            #[trigger] at[j]].constant.ident == found[j].ident by {
                assert(entries[at[j]].constant.source == path);
            }
        }
    }
}

} // verus!

//! Writes the changes back to disk, file by file.

use crate::constant::{Const, ConstV, LineColumn};
use crate::constant_container::{ConstContainer, EntryV};
use crate::edit::{edit_source, lemma_verdict_own, rewritten, verdict, views};
use crate::errors::{
    ChangesKind, ChangesKindRepr, IoBoundChanges, MakeChangesError, MakeChangesErrorRepr,
};
use crate::parser::{contained, parse_constants, ConstContainerBuilder, SourceFile};
use crate::syntax::{file_items, parsed_source};
use crate::text::same_text;
use vstd::prelude::*;

verus! {

/// The constants that are modified, in order.
pub open spec fn modified(entries: Seq<EntryV>) -> Seq<ConstV>
    decreases entries.len(),
{
    if entries.len() == 0 {
        Seq::empty()
    } else {
        let before = modified(entries.drop_last());
        if entries.last().modified {
            before.push(entries.last().constant)
        } else {
            before
        }
    }
}

/// The files that the constants are in, each once, in the order in which they
/// first come up.
pub open spec fn files_of(changes: Seq<ConstV>) -> Seq<Seq<char>>
    decreases changes.len(),
{
    if changes.len() == 0 {
        Seq::empty()
    } else {
        let before = files_of(changes.drop_last());
        if before.contains(changes.last().source) {
            before
        } else {
            before.push(changes.last().source)
        }
    }
}

/// Those of the constants that are in a file, in order.
pub open spec fn within(changes: Seq<ConstV>, path: Seq<char>) -> Seq<ConstV>
    decreases changes.len(),
{
    if changes.len() == 0 {
        Seq::empty()
    } else {
        let before = within(changes.drop_last(), path);
        if changes.last().source == path {
            before.push(changes.last())
        } else {
            before
        }
    }
}

/// The changes to one file.
#[derive(Debug)]
pub struct FileChanges {
    path: String,
    changes: Vec<Const>,
}

/// What [`FileChanges`] are.
#[verifier::ext_equal]
pub struct FileChangesV {
    pub path: Seq<char>,
    pub changes: Seq<ConstV>,
}

impl View for FileChanges {
    type V = FileChangesV;

    closed spec fn view(&self) -> FileChangesV {
        FileChangesV { path: self.path@, changes: views(self.changes@) }
    }
}

/// The changes to each of the files.
pub open spec fn plan(changes: Seq<ConstV>) -> Seq<FileChangesV> {
    files_of(changes).map_values(
        |path: Seq<char>| FileChangesV { path, changes: within(changes, path) },
    )
}

/// Of a file that no constant is in there are no constants.
proof fn lemma_within_none(changes: Seq<ConstV>, path: Seq<char>)
    requires
        !files_of(changes).contains(path),
    ensures
        within(changes, path) == Seq::<ConstV>::empty(),
    decreases changes.len(),
{
    if changes.len() > 0 {
        let before = files_of(changes.drop_last());
        let now = files_of(changes);
        if before.contains(path) {
            let g = before.index_of(path);
            assert(now[g] == path);
        }
        if changes.last().source == path {
            if !before.contains(path) {
                assert(now[now.len() - 1] == path);
            }
        }
        lemma_within_none(changes.drop_last(), path);
    }
}

/// Each file comes up once, and each of the constants is among those of its file.
pub proof fn law_plan(changes: Seq<ConstV>)
    ensures
        forall|g: int, h: int|
            0 <= g < h < plan(changes).len() ==> (#[trigger] plan(changes)[g]).path != (
            #[trigger] plan(changes)[h]).path,
        forall|k: int|
            0 <= k < changes.len() ==> files_of(changes).contains((#[trigger] changes[k]).source)
                && within(changes, changes[k].source).contains(changes[k]),
        forall|g: int, k: int|
            0 <= g < plan(changes).len() && 0 <= k < plan(changes)[g].changes.len() ==> (
            #[trigger] plan(changes)[g].changes[k]).source == plan(changes)[g].path,
    decreases changes.len(),
{
    assert forall|g: int, k: int|
        0 <= g < plan(changes).len() && 0 <= k < plan(changes)[g].changes.len() implies (
    #[trigger] plan(changes)[g].changes[k]).source == plan(changes)[g].path by {
        lemma_within_source(changes, plan(changes)[g].path);
    }
    if changes.len() > 0 {
        let shorter = changes.drop_last();
        law_plan(shorter);
        let before = files_of(shorter);
        let now = files_of(changes);
        assert forall|k: int| 0 <= k < changes.len() implies now.contains(
            (#[trigger] changes[k]).source,
        ) && within(changes, changes[k].source).contains(changes[k]) by {
            let path = changes[k].source;
            let all = within(changes, path);
            if k < shorter.len() {
                assert(shorter[k] == changes[k]);
                let some = within(shorter, path);
                let m = some.index_of(changes[k]);
                assert(all[m] == changes[k]);
                let g = before.index_of(path);
                assert(now[g] == path);
            } else {
                assert(all[all.len() - 1] == changes[k]);
                if !before.contains(path) {
                    assert(now[now.len() - 1] == path);
                }
            }
        }
        assert forall|g: int, h: int| 0 <= g < h < now.len() implies (
        #[trigger] plan(changes)[g]).path != (#[trigger] plan(changes)[h]).path by {
            assert(now[g] != now[h]) by {
                if h < before.len() {
                    assert(plan(shorter)[g].path == before[g]);
                    assert(plan(shorter)[h].path == before[h]);
                } else if now[g] == now[h] {
                    assert(before[g] == now[g]);
                    assert(before.contains(changes.last().source));
                }
            }
        }
    }
}

proof fn lemma_within_source(changes: Seq<ConstV>, path: Seq<char>)
    ensures
        forall|k: int|
            0 <= k < within(changes, path).len() ==> (#[trigger] within(changes, path)[k]).source
                == path,
    decreases changes.len(),
{
    if changes.len() > 0 {
        lemma_within_source(changes.drop_last(), path);
        let before = within(changes.drop_last(), path);
        let all = within(changes, path);
        assert forall|k: int| 0 <= k < all.len() implies (#[trigger] all[k]).source == path by {
            if k < before.len() {
                assert(all[k] == before[k]);
            }
        }
    }
}

/// What the groups are.
pub open spec fn group_views(groups: Seq<FileChanges>) -> Seq<FileChangesV> {
    groups.map_values(|g: FileChanges| g@)
}

/// Puts another constant with those of its file.
fn add_change(groups: &mut Vec<FileChanges>, constant: &Const, Ghost(changes): Ghost<Seq<ConstV>>)
    requires
        group_views(old(groups)@) == plan(changes),
    ensures
        group_views(final(groups)@) == plan(changes.push(constant@)),
{
    let ghost all = changes.push(constant@);
    let ghost files = files_of(changes);
    proof {
        assert(all.drop_last() =~= changes);
        law_plan(changes);
        assert(group_views(groups@).len() == plan(changes).len());
    }
    let mut g: usize = 0;
    while g < groups.len()
        invariant
            g <= groups@.len(),
            groups@ == old(groups)@,
            groups@.len() == files.len(),
            group_views(groups@) == plan(changes),
            files == files_of(changes),
            all == changes.push(constant@),
            all.drop_last() == changes,
            forall|a: int, b: int|
                0 <= a < b < plan(changes).len() ==> (#[trigger] plan(changes)[a]).path != (
                #[trigger] plan(changes)[b]).path,
            forall|h: int| 0 <= h < g ==> #[trigger] files[h] != constant@.source,
        decreases groups@.len() - g,
    {
        assert(group_views(groups@)[g as int] == groups@[g as int]@);
        assert(plan(changes)[g as int].path == files[g as int]);
        if same_text(groups[g].path.as_str(), constant.path()) {
            let ghost before = groups@;
            let group: &mut FileChanges = &mut groups[g];
            group.changes.push(constant.clone());
            proof {
                assert(files.contains(constant@.source)) by {
                    assert(files[g as int] == constant@.source);
                }
                assert(files_of(all) == files);
                assert forall|h: int| 0 <= h < files.len() implies #[trigger] group_views(
                    groups@,
                )[h] == plan(all)[h] by {
                    assert(group_views(before)[h] == plan(changes)[h]);
                    if h == g {
                        assert(views(groups@[h].changes@) =~= views(before[h].changes@).push(
                            constant@,
                        ));
                    } else {
                        assert(plan(changes)[h].path == files[h]);
                        assert(plan(changes)[g as int].path == files[g as int]);
                        assert(files[h] != files[g as int]);
                    }
                }
                assert(group_views(groups@) =~= plan(all));
            }
            return ;
        }
        g += 1;
    }
    let mut added: Vec<Const> = Vec::new();
    added.push(constant.clone());
    let group = FileChanges { path: constant.path().to_owned(), changes: added };
    proof {
        assert(!files.contains(constant@.source)) by {
            if files.contains(constant@.source) {
                let h = files.index_of(constant@.source);
                assert(files[h] == constant@.source);
            }
        }
        lemma_within_none(changes, constant@.source);
        assert(views(added@) =~= within(all, constant@.source));
    }
    let ghost before = groups@;
    groups.push(group);
    proof {
        assert forall|h: int| 0 <= h < files.len() + 1 implies #[trigger] group_views(groups@)[h]
            == plan(all)[h] by {
            if h < files.len() {
                assert(group_views(before)[h] == plan(changes)[h]);
                assert(files[h] != constant@.source);
                assert(files_of(all)[h] == files[h]);
            } else {
                assert(files_of(all)[h] == constant@.source);
            }
        }
        assert(group_views(groups@) =~= plan(all));
    }
}

/// What the running task waits for.
#[derive(Debug, Clone, Copy, PartialEq, Eq, Structural)]
pub enum Stage {
    /// It has not begun.
    Idle,
    /// The contents of a file.
    Fetching,
    /// A file to be written.
    Saving,
    Finished,
}

/// The task of writing all changes to disk: for each of the files that modified
/// constants are in, its contents are read, rewritten, and written.
#[derive(Debug)]
pub struct Effects {
    files: Vec<FileChanges>,
    current: usize,
    stage: Stage,
}

/// What [`Effects`] are.
#[verifier::ext_equal]
pub struct EffectsV {
    pub files: Seq<FileChangesV>,
    /// How many of the files have been written.
    pub current: int,
    pub stage: Stage,
}

impl View for Effects {
    type V = EffectsV;

    closed spec fn view(&self) -> EffectsV {
        EffectsV {
            files: group_views(self.files@),
            current: self.current as int,
            stage: self.stage,
        }
    }
}

impl EffectsV {
    /// Whether a file is at hand while one is waited for.
    pub open spec fn wf(self) -> bool {
        &&& 0 <= self.current <= self.files.len()
        &&& self.stage == Stage::Fetching || self.stage == Stage::Saving ==> self.current
            < self.files.len()
    }

    /// The path of the file at hand.
    pub open spec fn path(self) -> Seq<char> {
        self.files[self.current].path
    }

    /// The changes to the file at hand.
    pub open spec fn changes(self) -> Seq<ConstV> {
        self.files[self.current].changes
    }
}

/// What is to be done next.
pub enum EffectAction {
    /// The contents of the file are to be read.
    Fetch(String),
    /// The file is to be formatted and written.
    Save(String, syn::File),
    /// There is nothing left to be done.
    Done(Result<(), MakeChangesError>),
}

/// How what was to be done turned out. Failures come with their messages.
#[derive(Debug)]
pub enum EffectEvent {
    Fetched(String),
    FetchFailed(String),
    Saved,
    SaveFailed(String),
    /// The task broke down.
    TaskFailed(String),
}

/// Whether an event is one that a stage waits for.
pub open spec fn awaited(stage: Stage, event: EffectEvent) -> bool {
    match event {
        EffectEvent::Fetched(_) | EffectEvent::FetchFailed(_) => stage == Stage::Fetching,
        EffectEvent::Saved | EffectEvent::SaveFailed(_) => stage == Stage::Saving,
        EffectEvent::TaskFailed(_) => stage == Stage::Fetching || stage == Stage::Saving,
    }
}

/// Whether the action ends the task with an error.
pub open spec fn failed(action: EffectAction) -> bool {
    action is Done && action->Done_0 is Err
}

/// The error that the action ends the task with.
pub open spec fn failure(action: EffectAction) -> MakeChangesErrorRepr {
    action->Done_0->Err_0.repr()
}

/// Whether the action ends the task because a file could not be read, or written.
pub open spec fn failed_io(
    action: EffectAction,
    op: ChangesKindRepr,
    path: Seq<char>,
    message: Seq<char>,
) -> bool {
    &&& failed(action)
    &&& failure(action) is IoBound
    &&& failure(action)->IoBound_0.op() == op
    &&& failure(action)->IoBound_0.path_text() == path
    &&& failure(action)->IoBound_0.message() == message
}

/// Whether the action is to read the file at hand, if one is left, and nothing
/// otherwise.
pub open spec fn goes_on(s: EffectsV, action: EffectAction) -> bool {
    if s.current < s.files.len() {
        action is Fetch && action->Fetch_0@ == s.path()
    } else {
        action == EffectAction::Done(Ok(()))
    }
}

/// The stage that a task is in which goes on.
pub open spec fn going_on(s: EffectsV) -> Stage {
    if s.current < s.files.len() {
        Stage::Fetching
    } else {
        Stage::Finished
    }
}

/// Whether the action is what follows from the event: what was read is rewritten
/// and to be written, after which the next file is read, and the first failure
/// ends the task.
pub open spec fn follows(s: EffectsV, event: EffectEvent, action: EffectAction) -> bool {
    match event {
        EffectEvent::Fetched(contents) => match parsed_source(contents@) {
            Some(items) => {
                &&& action is Save
                &&& action->Save_0@ == s.path()
                &&& rewritten(items, file_items(action->Save_1), s.changes())
            },
            None => {
                &&& failed(action)
                &&& failure(action) is Parse
                &&& failure(action)->Parse_0@ == s.path()
            },
        },
        EffectEvent::FetchFailed(message) => failed_io(
            action,
            ChangesKindRepr::FetchOp,
            s.path(),
            message@,
        ),
        EffectEvent::Saved => goes_on(EffectsV { current: s.current + 1, ..s }, action),
        EffectEvent::SaveFailed(message) => failed_io(
            action,
            ChangesKindRepr::SaveOp,
            s.path(),
            message@,
        ),
        EffectEvent::TaskFailed(message) => {
            &&& failed(action)
            &&& failure(action) is Other
            &&& failure(action)->Other_0@ == message@
        },
    }
}

/// The task after an event.
pub open spec fn after_event(s: EffectsV, event: EffectEvent) -> EffectsV {
    match event {
        EffectEvent::Fetched(contents) => EffectsV {
            stage: if parsed_source(contents@) is Some {
                Stage::Saving
            } else {
                Stage::Finished
            },
            ..s
        },
        EffectEvent::Saved => {
            let next = EffectsV { current: s.current + 1, ..s };
            EffectsV { stage: going_on(next), ..next }
        },
        _ => EffectsV { stage: Stage::Finished, ..s },
    }
}

impl ConstContainer {
    /// Propagates all changes to disk that are currently in memory: the task that
    /// this returns only touches files in which the deprecation status of some
    /// constant has been modified from the time it was loaded into memory.
    pub fn effect_changes(&self) -> (r: Effects)
        ensures
            r@ == (EffectsV {
                files: plan(modified(self@)),
                current: 0,
                stage: Stage::Idle,
            }),
            r@.wf(),
    {
        let mut files: Vec<FileChanges> = Vec::new();
        let ghost entries = self@;
        let mut k: usize = 0;
        assert(group_views(files@) =~= plan(modified(entries.take(0))));
        while k < self.len()
            invariant
                k <= entries.len(),
                entries == self@,
                group_views(files@) == plan(modified(entries.take(k as int))),
            decreases entries.len() - k,
        {
            let ghost before = modified(entries.take(k as int));
            assert(entries.take(k + 1).drop_last() =~= entries.take(k as int));
            if self.is_modified(k) {
                add_change(&mut files, self.get(k), Ghost(before));
            }
            k += 1;
        }
        assert(entries.take(entries.len() as int) =~= entries);
        Effects { files, current: 0, stage: Stage::Idle }
    }
}

impl Effects {
    fn go_on(&mut self) -> (r: EffectAction)
        requires
            0 <= old(self)@.current <= old(self)@.files.len(),
        ensures
            final(self)@ == (EffectsV { stage: going_on(old(self)@), ..old(self)@ }),
            goes_on(old(self)@, r),
    {
        if self.current < self.files.len() {
            self.stage = Stage::Fetching;
            assert(group_views(self.files@)[self.current as int] == self.files@[
            self.current as int]@);
            EffectAction::Fetch(self.files[self.current].path.clone())
        } else {
            self.stage = Stage::Finished;
            EffectAction::Done(Ok(()))
        }
    }

    fn fail(&mut self, repr: MakeChangesErrorRepr) -> (r: EffectAction)
        ensures
            final(self)@ == (EffectsV { stage: Stage::Finished, ..old(self)@ }),
            failed(r),
            failure(r) == repr,
    {
        self.stage = Stage::Finished;
        EffectAction::Done(Err(MakeChangesError::new(repr)))
    }

    /// Begins with the first of the files.
    pub fn begin(&mut self) -> (r: EffectAction)
        requires
            old(self)@.wf(),
            old(self)@.stage == Stage::Idle,
        ensures
            final(self)@ == (EffectsV { stage: going_on(old(self)@), ..old(self)@ }),
            final(self)@.wf(),
            goes_on(old(self)@, r),
    {
        self.go_on()
    }

    /// Goes on after what was to be done is done.
    pub fn step(&mut self, event: EffectEvent) -> (r: EffectAction)
        requires
            old(self)@.wf(),
            awaited(old(self)@.stage, event),
        ensures
            final(self)@ == after_event(old(self)@, event),
            final(self)@.wf(),
            follows(old(self)@, event, r),
    {
        assert(group_views(self.files@)[self.current as int] == self.files@[self.current as int]@);
        match event {
            EffectEvent::Fetched(contents) => {
                let path: String = self.files[self.current].path.clone();
                match edit_source(contents.as_str(), &self.files[self.current].changes) {
                    Some(file) => {
                        self.stage = Stage::Saving;
                        EffectAction::Save(path, file)
                    },
                    None => self.fail(MakeChangesErrorRepr::Parse(path)),
                }
            },
            EffectEvent::FetchFailed(message) => {
                let path: String = self.files[self.current].path.clone();
                self.fail(
                    MakeChangesErrorRepr::IoBound(
                        IoBoundChanges::new(path, message, ChangesKind::fetch()),
                    ),
                )
            },
            EffectEvent::Saved => {
                assert(self.current < self.files.len());
                self.current += 1;
                self.go_on()
            },
            EffectEvent::SaveFailed(message) => {
                let path: String = self.files[self.current].path.clone();
                self.fail(
                    MakeChangesErrorRepr::IoBound(
                        IoBoundChanges::new(path, message, ChangesKind::save()),
                    ),
                )
            },
            EffectEvent::TaskFailed(message) => self.fail(MakeChangesErrorRepr::Other(message)),
        }
    }

    /// What the task waits for.
    pub fn stage(&self) -> (r: Stage)
        ensures
            r == self@.stage,
    {
        self.stage
    }
}

/// Where nothing is modified, no file is touched.
pub proof fn law_nothing_to_effect(entries: Seq<EntryV>)
    requires
        forall|k: int| 0 <= k < entries.len() ==> !(#[trigger] entries[k]).modified,
    ensures
        plan(modified(entries)) == Seq::<FileChangesV>::empty(),
    decreases entries.len(),
{
    if entries.len() > 0 {
        let shorter = entries.drop_last();
        assert forall|k: int| 0 <= k < shorter.len() implies !(#[trigger] shorter[k]).modified by {
            assert(shorter[k] == entries[k]);
        }
        law_nothing_to_effect(shorter);
        assert(entries.last() == entries[entries.len() - 1]);
    } else {
        assert(plan(modified(entries)) =~= Seq::empty());
    }
}

/// A constant is among the changes if it is modified, and not otherwise.
pub proof fn law_modified(entries: Seq<EntryV>)
    ensures
        forall|k: int|
            0 <= k < entries.len() && (#[trigger] entries[k]).modified ==> modified(
                entries,
            ).contains(entries[k].constant),
        forall|m: int|
            0 <= m < modified(entries).len() ==> entries.contains(
                EntryV { constant: #[trigger] modified(entries)[m], modified: true },
            ),
    decreases entries.len(),
{
    if entries.len() > 0 {
        let shorter = entries.drop_last();
        let before = modified(shorter);
        let all = modified(entries);
        law_modified(shorter);
        assert forall|k: int| 0 <= k < entries.len() && (
        #[trigger] entries[k]).modified implies all.contains(entries[k].constant) by {
            if k < shorter.len() {
                assert(shorter[k] == entries[k]);
                let m = before.index_of(entries[k].constant);
                assert(all[m] == entries[k].constant);
            } else {
                assert(all[all.len() - 1] == entries[k].constant);
            }
        }
        assert forall|m: int| 0 <= m < all.len() implies entries.contains(
            EntryV { constant: #[trigger] all[m], modified: true },
        ) by {
            if m < before.len() {
                assert(all[m] == before[m]);
                let k = shorter.index_of(EntryV { constant: before[m], modified: true });
                assert(entries[k] == shorter[k]);
            } else {
                assert(entries[entries.len() - 1] == (EntryV { constant: all[m], modified: true }));
            }
        }
    }
}

/// The task comes to an end: with each event it is nearer to it.
pub proof fn law_effects_end(s: EffectsV, event: EffectEvent)
    requires
        s.wf(),
        awaited(s.stage, event),
    ensures
        remaining(after_event(s, event)) < remaining(s),
{
}

/// How many events a task waits for at most.
pub open spec fn remaining(s: EffectsV) -> int {
    match s.stage {
        Stage::Idle => 2 * (s.files.len() as int) + 1,
        Stage::Fetching => 2 * (s.files.len() - s.current),
        Stage::Saving => 2 * (s.files.len() - s.current) - 1,
        Stage::Finished => 0,
    }
}

/// What is to become of a constant in its file is what has become of it in memory,
/// if it is modified, and nothing otherwise. No two constants of a file start at
/// the same place under the same name.
pub proof fn law_verdict_of_constant(entries: Seq<EntryV>, k: int)
    requires
        0 <= k < entries.len(),
        forall|j: int|
            0 <= j < entries.len() && j != k ==> (#[trigger] entries[j]).constant.ident
                != entries[k].constant.ident || entries[j].constant.span
                != entries[k].constant.span || entries[j].constant.source
                != entries[k].constant.source,
    ensures
        verdict(
            within(modified(entries), entries[k].constant.source),
            entries[k].constant.ident,
            entries[k].constant.span,
        ) == (if entries[k].modified {
            Some(entries[k].constant.deprecated)
        } else {
            None
        }),
{
    let c = entries[k].constant;
    let all = modified(entries);
    let here = within(all, c.source);
    law_modified(entries);
    law_plan(all);
    lemma_within_source(all, c.source);
    lemma_within_among(all, c.source);
    lemma_verdict_own(here, c.ident, c.span);
    assert forall|m: int|
        0 <= m < here.len() && (#[trigger] here[m]).ident == c.ident && here[m].span
            == c.span implies here[m] == c && entries[k].modified by {
        let p = all.index_of(here[m]);
        assert(all.contains(here[m]));
        assert(entries.contains(EntryV { constant: all[p], modified: true }));
        let j = entries.index_of(EntryV { constant: all[p], modified: true });
        assert(entries[j].constant == here[m]);
        assert(here[m].source == c.source);
    }
    if entries[k].modified {
        assert(all.contains(c));
        let p = all.index_of(c);
        assert(within(all, all[p].source).contains(all[p]));
        let m = here.index_of(c);
        assert(here[m] == c);
    }
}

proof fn lemma_within_among(changes: Seq<ConstV>, path: Seq<char>)
    ensures
        forall|m: int|
            0 <= m < within(changes, path).len() ==> changes.contains(
                #[trigger] within(changes, path)[m],
            ),
    decreases changes.len(),
{
    if changes.len() > 0 {
        let shorter = changes.drop_last();
        let before = within(shorter, path);
        let all = within(changes, path);
        lemma_within_among(shorter, path);
        assert forall|m: int| 0 <= m < all.len() implies changes.contains(#[trigger] all[m]) by {
            if m < before.len() {
                assert(all[m] == before[m]);
                let p = shorter.index_of(before[m]);
                assert(changes[p] == before[m]);
            } else {
                assert(changes[changes.len() - 1] == all[m]);
            }
        }
    }
}

/// How many of the first constants are in a file.
pub open spec fn rank(entries: Seq<EntryV>, path: Seq<char>, upto: int) -> int
    decreases upto,
{
    if upto <= 0 {
        0
    } else {
        rank(entries, path, upto - 1) + (if entries[upto - 1].constant.source == path {
            1int
        } else {
            0
        })
    }
}

/// Whether the constants that are in a file are those that were found there, by
/// their identifiers and in order.
pub open spec fn agrees(entries: Seq<EntryV>, path: Seq<char>, found: Seq<ConstV>) -> bool {
    &&& rank(entries, path, entries.len() as int) == found.len()
    &&& forall|k: int|
        0 <= k < entries.len() && (#[trigger] entries[k]).constant.source == path
            ==> entries[k].constant.ident == found[rank(entries, path, k)].ident
}

/// The constants after those in a file were found there anew: they start where
/// they were found, and are modified if the file does not say of them what memory
/// does.
pub open spec fn taken_over(entries: Seq<EntryV>, path: Seq<char>, found: Seq<ConstV>) -> Seq<
    EntryV,
> {
    Seq::new(
        entries.len(),
        |k: int|
            if entries[k].constant.source == path {
                EntryV {
                    constant: ConstV {
                        span: found[rank(entries, path, k)].span,
                        ..entries[k].constant
                    },
                    modified: entries[k].constant.deprecated != found[rank(
                        entries,
                        path,
                        k,
                    )].deprecated,
                }
            } else {
                entries[k]
            },
    )
}

/// The constants of a container after the contents of a file were taken over,
/// which is not done where the file does not hold the same constants.
pub open spec fn after_taking_over(
    entries: Seq<EntryV>,
    path: Seq<char>,
    contents: Seq<char>,
) -> Option<Seq<EntryV>> {
    match contained(contents, path) {
        Some(found) => if agrees(entries, path, found) {
            Some(taken_over(entries, path, found))
        } else {
            None
        },
        None => None,
    }
}

proof fn lemma_rank(entries: Seq<EntryV>, path: Seq<char>, k: int, n: int)
    requires
        0 <= k <= n,
    ensures
        0 <= rank(entries, path, k) <= rank(entries, path, n),
        k < n && entries[k].constant.source == path ==> rank(entries, path, k) < rank(
            entries,
            path,
            n,
        ),
        rank(entries, path, n) <= n,
    decreases n,
{
    if n > 0 {
        if k < n {
            lemma_rank(entries, path, k, n - 1);
        } else {
            lemma_rank(entries, path, k - 1, n - 1);
        }
    }
}

impl ConstContainer {
    /// Whether the constants that are in a file are those that were found there.
    fn matches(&self, path: &str, found: &ConstContainer) -> (r: bool)
        ensures
            r == agrees(self@, path@, found@.map_values(|e: EntryV| e.constant)),
    {
        let ghost entries = self@;
        let ghost all = found@.map_values(|e: EntryV| e.constant);
        let mut j: usize = 0;
        let mut k: usize = 0;
        while k < self.len()
            invariant
                k <= entries.len(),
                entries == self@,
                all == found@.map_values(|e: EntryV| e.constant),
                j == rank(entries, path@, k as int),
                j <= all.len(),
                forall|q: int|
                    0 <= q < k && (#[trigger] entries[q]).constant.source == path@
                        ==> entries[q].constant.ident == all[rank(entries, path@, q)].ident,
            decreases entries.len() - k,
        {
            proof {
                lemma_rank(entries, path@, k + 1, entries.len() as int);
            }
            if same_text(self.get(k).path(), path) {
                if j >= found.len() {
                    return false;
                }
                assert(all[j as int] == found@[j as int].constant);
                if !same_text(self.get(k).ident(), found.get(j).ident()) {
                    assert(entries[k as int].constant.ident != all[rank(
                        entries,
                        path@,
                        k as int,
                    )].ident);
                    return false;
                }
                j += 1;
            }
            k += 1;
        }
        j == found.len()
    }

    /// Takes over the contents of a file that was written: the constants that are
    /// in it start where they are found there, and are modified only if the file
    /// does not say of them what memory does. Reports whether it does hold these
    /// constants; if not, nothing is changed.
    pub fn take_over(&mut self, path: &str, contents: &str) -> (r: bool)
        ensures
            final(self).known() == old(self).known(),
            match after_taking_over(old(self)@, path@, contents@) {
                Some(entries) => r && final(self)@ == entries,
                None => !r && final(self)@ == old(self)@,
            },
    {
        let parsed: Option<ConstContainerBuilder> = match SourceFile::parse(contents, path) {
            Some(file) => parse_constants(&file),
            None => None,
        };
        let found: ConstContainer = match parsed {
            Some(found) => found.finish(),
            None => return false,
        };
        let ghost all = contained(contents@, path@)->0;
        let ghost entries = self@;
        assert(found@.map_values(|e: EntryV| e.constant) =~= all);
        if !self.matches(path, &found) {
            return false;
        }
        let ghost done = taken_over(entries, path@, all);
        let mut j: usize = 0;
        let mut k: usize = 0;
        while k < self.len()
            invariant
                k <= entries.len(),
                self@.len() == entries.len(),
                self.known() == old(self).known(),
                found@.map_values(|e: EntryV| e.constant) == all,
                agrees(entries, path@, all),
                done == taken_over(entries, path@, all),
                j == rank(entries, path@, k as int),
                j <= all.len(),
                forall|q: int| 0 <= q < k ==> #[trigger] self@[q] == done[q],
                forall|q: int| k <= q < entries.len() ==> #[trigger] self@[q] == entries[q],
            decreases entries.len() - k,
        {
            proof {
                lemma_rank(entries, path@, k as int, entries.len() as int);
                lemma_rank(entries, path@, k + 1, entries.len() as int);
            }
            assert(self@[k as int] == entries[k as int]);
            if same_text(self.get(k).path(), path) {
                assert(all[j as int] == found@[j as int].constant);
                let now: &Const = found.get(j);
                let span: LineColumn = now.span();
                let on_disk: bool = now.is_deprecated();
                self.settle(k, span, on_disk);
                j += 1;
            }
            k += 1;
        }
        assert(self@ =~= done);
        true
    }
}

/// After the contents of a written file were taken over, a second effect leaves
/// that file alone, if it says what memory does, and does the same to all other
/// files as before.
pub proof fn law_second_effect(entries: Seq<EntryV>, path: Seq<char>, found: Seq<ConstV>)
    requires
        agrees(entries, path, found),
        forall|k: int|
            0 <= k < entries.len() && (#[trigger] entries[k]).constant.source == path
                ==> entries[k].constant.deprecated == found[rank(entries, path, k)].deprecated,
    ensures
        within(modified(taken_over(entries, path, found)), path) == Seq::<ConstV>::empty(),
        forall|other: Seq<char>|
            other != path ==> #[trigger] within(
                modified(taken_over(entries, path, found)),
                other,
            ) == within(modified(entries), other),
{
    let after = taken_over(entries, path, found);
    lemma_left_alone(entries, after, path, entries.len() as int);
    assert(entries.take(entries.len() as int) =~= entries);
    assert(after.take(entries.len() as int) =~= after);
}

proof fn lemma_left_alone(entries: Seq<EntryV>, after: Seq<EntryV>, path: Seq<char>, n: int)
    requires
        0 <= n <= entries.len(),
        after.len() == entries.len(),
        forall|k: int|
            0 <= k < entries.len() ==> (#[trigger] after[k]).constant.source
                == entries[k].constant.source,
        forall|k: int|
            0 <= k < entries.len() ==> if entries[k].constant.source == path {
                !(#[trigger] after[k]).modified
            } else {
                after[k] == entries[k]
            },
    ensures
        within(modified(after.take(n)), path) == Seq::<ConstV>::empty(),
        forall|other: Seq<char>|
            other != path ==> #[trigger] within(modified(after.take(n)), other) == within(
                modified(entries.take(n)),
                other,
            ),
    decreases n,
{
    if n > 0 {
        lemma_left_alone(entries, after, path, n - 1);
        let a = after.take(n);
        let e = entries.take(n);
        assert(a.drop_last() =~= after.take(n - 1));
        assert(e.drop_last() =~= entries.take(n - 1));
        assert(a.last() == after[n - 1]);
        assert(e.last() == entries[n - 1]);
        let before = modified(entries.take(n - 1));
        let same = modified(after.take(n - 1));
        assert forall|other: Seq<char>| other != path implies #[trigger] within(modified(a), other)
            == within(modified(e), other) by {
            assert(within(same, other) == within(before, other));
            assert(same.push(a.last().constant).drop_last() =~= same);
            assert(before.push(e.last().constant).drop_last() =~= before);
        }
        assert(same.push(a.last().constant).drop_last() =~= same);
    }
}

} // verus!

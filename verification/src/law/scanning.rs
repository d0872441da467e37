//! How the repository is found, and what is read of it.

use crate::constant::ConstV;
use crate::constant_container::EntryV;
use crate::errors::ScanFilesError;
use crate::file_scanner::{
    file_answers, first_line, json_line, lemma_line_end, libc_manifest, line_length,
    printed_metadata, source_files, workspace_packages, CommandOutput, FileAction, FileEvent,
    FileScanV, FileStage, PackageV, SourceFileV,
};
use crate::parser::contained;
use crate::scanner::{
    answers, expected, package_names, sources, ScanAction, ScanEvent, ScanStage, ScanV, WalkEntry,
};
use crate::syntax::parsed_source;
use vstd::prelude::*;
use vstd::utf8::{decode_utf8, valid_utf8};

verus! {

/// The source files are the entries that are files and end in `rs`, in order. What
/// could not be looked at is passed over.
pub proof fn law_sources(entries: Seq<Option<WalkEntry>>)
    ensures
        sources(entries) == entries.filter_map(
            |entry: Option<WalkEntry>|
                match entry {
                    Some(e) => if e.is_file && e.extension is Some && e.extension->0@ == "rs"@ {
                        Some(e.path@)
                    } else {
                        None
                    },
                    None => None,
                },
        ),
    decreases entries.len(),
{
    let pick = |entry: Option<WalkEntry>|
        match entry {
            Some(e) => if e.is_file && e.extension is Some && e.extension->0@ == "rs"@ {
                Some(e.path@)
            } else {
                None
            },
            None => None,
        };
    if entries.len() > 0 {
        law_sources(entries.drop_last());
    }
    assert(sources(entries) =~= entries.filter_map(pick));
}

/// A path that exists is looked into for its package, and one that does not is
/// cloned to from upstream. The repository is then walked from its sources on.
pub proof fn law_scan_route(s: ScanV, event: ScanEvent, after: ScanV, action: ScanAction)
    requires
        s.wf(),
        expected(s.stage, event),
        answers(s, event, after, action),
    ensures
        match event {
            ScanEvent::Canonical(path) => {
                &&& s.stage == ScanStage::Resolving && after.stage == ScanStage::Checking
                &&& action is QueryMetadata && action->QueryMetadata_0@ == path@
            },
            ScanEvent::Missing => {
                &&& s.stage == ScanStage::Resolving && after.stage == ScanStage::Cloning
                &&& action is Clone && action->url@ == "https://github.com/rust-lang/libc.git"@
                    && action->Clone_path@ == s.path
            },
            ScanEvent::Metadata(output) => {
                &&& s.stage == ScanStage::Checking
                &&& action is Discover ==> action->Discover_0@ == s.path && after.stage
                    == ScanStage::Discovering && output is Ok && valid_utf8(output->Ok_0@)
                    && package_names(decode_utf8(output->Ok_0@)).contains("libc"@)
                &&& !(action is Discover) ==> action is Done && action->Done_0 is Err
                    && after.stage == ScanStage::Finished
                &&& output is Err ==> action is Done && action->Done_0 is Err
                    && action->Done_0->Err_0.repr() == ScanFilesError::IoBound(output->Err_0)
            },
            ScanEvent::Discovered(outcome) => {
                &&& s.stage == ScanStage::Discovering
                &&& outcome is Found ==> action is Walk && action->root@ == s.path && action->dir@
                    == "src"@ && after.stage == ScanStage::Walking
                &&& !(outcome is Found) ==> action is Done && action->Done_0 is Err && after.stage
                    == ScanStage::Finished
            },
            ScanEvent::Cloned(outcome) => {
                &&& s.stage == ScanStage::Cloning
                &&& outcome is Cloned ==> action is Walk && action->root@ == s.path && action->dir@
                    == "src"@ && after.stage == ScanStage::Walking
                &&& !(outcome is Cloned) ==> action is Done && action->Done_0 is Err
                    && after.stage == ScanStage::Finished
            },
            ScanEvent::ResolveFailed(message) | ScanEvent::ReadFailed(message) => {
                &&& action is Done && action->Done_0 is Err && after.stage == ScanStage::Finished
                &&& action->Done_0->Err_0.repr() == ScanFilesError::IoBound(message)
            },
            ScanEvent::WalkFailed(message) => {
                &&& action is Done && action->Done_0 is Err && after.stage == ScanStage::Finished
                &&& action->Done_0->Err_0.repr() == ScanFilesError::Other(message)
            },
            ScanEvent::Walked(_) => s.stage == ScanStage::Walking,
            ScanEvent::Contents(_) => s.stage == ScanStage::Reading,
        },
        after.path == s.path,
        !(event is Walked) ==> after.files == s.files,
        !(event is Walked || event is Contents) ==> after.current == s.current && after.found
            == s.found,
{
    reveal_strlit("https://github.com/rust-lang/libc.git");
}

/// Whether the scan reads one file after the other, and all of them are well-formed.
pub open spec fn reads_through(
    states: Seq<ScanV>,
    events: Seq<ScanEvent>,
    actions: Seq<ScanAction>,
) -> bool {
    &&& states.len() == events.len() + 1
    &&& actions.len() == events.len()
    &&& forall|i: int|
        0 <= i < events.len() ==> {
            &&& (#[trigger] events[i]) is Contents
            &&& states[i].wf() && states[i].stage == ScanStage::Reading
            &&& contained(events[i]->Contents_0@, states[i].files[states[i].current]) is Some
            &&& answers(states[i], events[i], states[i + 1], actions[i])
        }
}

/// The constants of the first files that were read, file by file.
pub open spec fn of_files(files: Seq<Seq<char>>, events: Seq<ScanEvent>, n: int) -> Seq<ConstV> {
    Seq::new(
        n as nat,
        |i: int| contained(events[i]->Contents_0@, files[i])->0,
    ).flatten_alt()
}

proof fn lemma_reads_through(
    files: Seq<Seq<char>>,
    states: Seq<ScanV>,
    events: Seq<ScanEvent>,
    actions: Seq<ScanAction>,
    i: int,
)
    requires
        reads_through(states, events, actions),
        states[0].files == files,
        states[0].current == 0,
        states[0].found.len() == 0,
        0 <= i < events.len(),
    ensures
        i < files.len(),
        states[i].files == files,
        states[i].current == i,
        states[i].found == of_files(files, events, i),
    decreases i,
{
    if i == 0 {
        assert(of_files(files, events, 0) =~= Seq::empty());
        assert(states[0].found =~= Seq::empty());
        assert(events[0] is Contents);
    } else {
        lemma_reads_through(files, states, events, actions, i - 1);
        assert(events[i - 1] is Contents);
        assert(events[i] is Contents);
        assert(answers(states[i - 1], events[i - 1], states[i - 1 + 1], actions[i - 1]));
        lemma_of_files(files, events, i);
    }
}

proof fn lemma_of_files(files: Seq<Seq<char>>, events: Seq<ScanEvent>, n: int)
    requires
        n > 0,
    ensures
        of_files(files, events, n) == of_files(files, events, n - 1) + contained(
            events[n - 1]->Contents_0@,
            files[n - 1],
        )->0,
{
    let give = |i: int| contained(events[i]->Contents_0@, files[i])->0;
    let all = Seq::new(n as nat, give);
    assert(all.drop_last() =~= Seq::new((n - 1) as nat, give));
    assert(all.last() == contained(events[n - 1]->Contents_0@, files[n - 1])->0);
}

/// Where nothing fails, every source file is read, once and in order, and in the end
/// the constants of all of them are handed over, file by file. None of them counts
/// as modified.
pub proof fn law_all_files_read(
    files: Seq<Seq<char>>,
    states: Seq<ScanV>,
    events: Seq<ScanEvent>,
    actions: Seq<ScanAction>,
)
    requires
        reads_through(states, events, actions),
        states[0].files == files,
        states[0].current == 0,
        states[0].found.len() == 0,
    ensures
        events.len() <= files.len() || events.len() == 0,
        forall|i: int|
            0 <= i < events.len() && i + 1 < files.len() ==> (#[trigger] actions[i]) is Read
                && actions[i]->Read_0@ == files[i + 1],
        events.len() > 0 && events.len() == files.len() ==> {
            let last = actions[events.len() - 1];
            &&& last is Done
            &&& last->Done_0 is Ok
            &&& last->Done_0->Ok_0@.len() == of_files(files, events, files.len() as int).len()
            &&& forall|k: int|
                0 <= k < last->Done_0->Ok_0@.len() ==> (#[trigger] last->Done_0->Ok_0@[k]) == (
                EntryV {
                    constant: of_files(files, events, files.len() as int)[k],
                    modified: false,
                })
        },
{
    assert forall|i: int| 0 <= i < events.len() implies i < files.len() && states[i].files == files
        && states[i].current == i && states[i].found == of_files(files, events, i) && answers(
        states[i],
        events[i],
        states[i + 1],
        #[trigger] actions[i],
    ) && events[i] is Contents && contained(events[i]->Contents_0@, files[i]) is Some by {
        lemma_reads_through(files, states, events, actions, i);
        assert(events[i] is Contents);
    }
    if events.len() > 0 && events.len() == files.len() {
        let i = events.len() - 1;
        assert(answers(states[i], events[i], states[i + 1], actions[i]));
        lemma_of_files(files, events, files.len() as int);
    }
}

/// Once the tree is walked the first source file is read, if there is one, and
/// otherwise there are no constants.
pub proof fn law_walked(s: ScanV, event: ScanEvent, after: ScanV, action: ScanAction)
    requires
        event is Walked,
        s.found.len() == 0,
        answers(s, event, after, action),
    ensures
        after.files == sources(event->Walked_0@),
        after.current == 0,
        after.found.len() == 0,
        after.files.len() > 0 ==> after.stage == ScanStage::Reading && action is Read
            && action->Read_0@ == after.files[0],
        after.files.len() == 0 ==> after.stage == ScanStage::Finished && action is Done
            && action->Done_0 is Ok && action->Done_0->Ok_0@.len() == 0,
{
}

/// A file that is malformed ends the scan with an error that names it.
pub proof fn law_malformed_file_told(s: ScanV, event: ScanEvent, after: ScanV, action: ScanAction)
    requires
        s.wf(),
        event is Contents,
        contained(event->Contents_0@, s.files[s.current]) is None,
        answers(s, event, after, action),
    ensures
        after.stage == ScanStage::Finished,
        action is Done,
        action->Done_0 is Err,
        action->Done_0->Err_0.repr() is ParseError,
        action->Done_0->Err_0.repr()->ParseError_0@ == s.files[s.current],
{
}

/// Whether a line starts at a position of the bytes.
pub open spec fn line_starts(bytes: Seq<u8>, p: int) -> bool {
    0 <= p < bytes.len() && (p == 0 || bytes[p - 1] == 0x0a)
}

/// Whether the bytes between two positions are a line that starts with a brace, and
/// no line before it does. The line goes up to a line feed, with or without a
/// carriage return before that, or to the end.
pub open spec fn is_json_line(bytes: Seq<u8>, p: int, q: int) -> bool {
    &&& line_starts(bytes, p)
    &&& bytes[p] == 0x7b
    &&& forall|o: int| 0 <= o < p && line_starts(bytes, o) ==> #[trigger] bytes[o] != 0x7b
    &&& p < q <= bytes.len()
    &&& forall|i: int| p <= i < q ==> #[trigger] bytes[i] != 0x0a
    &&& q < bytes.len() ==> bytes[q] == 0x0a || bytes[q] == 0x0d && q + 1 < bytes.len() && bytes[q
        + 1] == 0x0a
    &&& q < bytes.len() && bytes[q] == 0x0a ==> bytes[q - 1] != 0x0d
}

proof fn lemma_line_bytes(bytes: Seq<u8>)
    ensures
        forall|i: int| 0 <= i < line_length(bytes) ==> #[trigger] bytes[i] != 0x0a,
    decreases bytes.len(),
{
    lemma_line_end(bytes);
    if bytes.len() > 0 && bytes[0] != 0x0a {
        let rest = bytes.skip(1);
        lemma_line_bytes(rest);
        assert forall|i: int| 0 <= i < line_length(bytes) implies #[trigger] bytes[i] != 0x0a by {
            if i > 0 {
                assert(rest[i - 1] == bytes[i]);
            }
        }
    }
}

proof fn lemma_json_from(bytes: Seq<u8>, from: int)
    requires
        0 <= from <= bytes.len(),
        from == 0 || bytes[from - 1] == 0x0a,
        forall|o: int| 0 <= o < from && line_starts(bytes, o) ==> #[trigger] bytes[o] != 0x7b,
    ensures
        match json_line(bytes.skip(from)) {
            Some(line) => exists|p: int, q: int| #[trigger]
                is_json_line(bytes, p, q) && line == bytes.subrange(p, q),
            None => forall|p: int| line_starts(bytes, p) ==> #[trigger] bytes[p] != 0x7b,
        },
    decreases bytes.len() - from,
{
    let rest = bytes.skip(from);
    let n = line_length(rest) as int;
    lemma_line_end(rest);
    lemma_line_bytes(rest);
    if rest.len() == 0 {
    } else if rest[0] == 0x7b {
        let q = from + first_line(rest).len();
        assert(first_line(rest) =~= bytes.subrange(from, q));
        assert forall|i: int| from <= i < q implies #[trigger] bytes[i] != 0x0a by {
            assert(rest[i - from] == bytes[i]);
        }
        assert(n > 0) by {
            assert(rest[0] != 0x0a);
        }
        if n < rest.len() {
            assert(rest[n] == bytes[from + n]);
            assert(rest[n - 1] == bytes[from + n - 1]);
        }
        assert(is_json_line(bytes, from, q));
    } else {
        assert forall|o: int| from < o <= from + n && o < bytes.len() implies !line_starts(
            bytes,
            o,
        ) by {
            assert(rest[o - 1 - from] == bytes[o - 1]);
        }
        if n < rest.len() {
            assert(rest.skip(n + 1) =~= bytes.skip(from + n + 1));
            assert(rest[n] == bytes[from + n]);
            assert forall|o: int|
                0 <= o < from + n + 1 && line_starts(bytes, o) implies #[trigger] bytes[o]
                != 0x7b by {
                if o == from {
                    assert(rest[0] == bytes[from]);
                }
            }
            lemma_json_from(bytes, from + n + 1);
        } else {
            assert forall|p: int| line_starts(bytes, p) implies #[trigger] bytes[p] != 0x7b by {
                if p == from {
                    assert(rest[0] == bytes[from]);
                }
            }
        }
    }
}

/// Metadata are the first line that starts with a brace, whatever comes before it.
/// There are none if no line does.
pub proof fn law_json_line(bytes: Seq<u8>)
    ensures
        match json_line(bytes) {
            Some(line) => exists|p: int, q: int| #[trigger]
                is_json_line(bytes, p, q) && line == bytes.subrange(p, q),
            None => forall|p: int| line_starts(bytes, p) ==> #[trigger] bytes[p] != 0x7b,
        },
{
    lemma_json_from(bytes, 0);
    assert(bytes.skip(0) =~= bytes);
}

/// What a command printed counts only if it succeeded and printed valid UTF-8.
pub proof fn law_printed(output: Result<CommandOutput, String>)
    ensures
        output is Err ==> printed_metadata(output) is None,
        output is Ok && !output->Ok_0.success ==> printed_metadata(output) is None,
        output is Ok && !valid_utf8(output->Ok_0.stdout@) ==> printed_metadata(output) is None,
        output is Ok && output->Ok_0.success && valid_utf8(output->Ok_0.stdout@)
            ==> printed_metadata(output) == json_line(output->Ok_0.stdout@),
{
}

/// The manifest is that of the first package by the name of `libc`, if there is one.
pub proof fn law_libc_manifest(list: Seq<PackageV>)
    ensures
        match libc_manifest(list) {
            Some(manifest) => exists|i: int|
                0 <= i < list.len() && (#[trigger] list[i]).name == "libc"@ && list[i].manifest
                    == manifest && forall|j: int|
                    0 <= j < i ==> (#[trigger] list[j]).name != "libc"@,
            None => forall|i: int| 0 <= i < list.len() ==> (#[trigger] list[i]).name != "libc"@,
        },
    decreases list.len(),
{
    if list.len() > 0 {
        let rest = list.skip(1);
        if list[0].name == "libc"@ {
            assert(libc_manifest(list) == Some(list[0].manifest));
        } else {
            law_libc_manifest(rest);
            match libc_manifest(rest) {
                Some(manifest) => {
                    let i = choose|i: int|
                        0 <= i < rest.len() && (#[trigger] rest[i]).name == "libc"@
                            && rest[i].manifest == manifest && forall|j: int|
                            0 <= j < i ==> (#[trigger] rest[j]).name != "libc"@;
                    assert(list[i + 1] == rest[i]);
                    assert forall|j: int| 0 <= j < i + 1 implies (#[trigger] list[j]).name
                        != "libc"@ by {
                        if j > 0 {
                            assert(rest[j - 1] == list[j]);
                        }
                    }
                },
                None => {
                    assert forall|i: int| 0 <= i < list.len() implies (#[trigger] list[i]).name
                        != "libc"@ by {
                        if i > 0 {
                            assert(rest[i - 1] == list[i]);
                        }
                    }
                },
            }
        }
    }
}

/// The directory that is walked for source files is that of the `libc` package of the
/// workspace. Without metadata, or without that package, the scan ends with an error
/// that names the path.
pub proof fn law_package_found(s: FileScanV, event: FileEvent, after: FileScanV, action: FileAction)
    requires
        event is Metadata,
        file_answers(s, event, after, action),
    ensures
        ({
            let printed = printed_metadata(event->Metadata_0);
            let manifest = libc_manifest(workspace_packages(decode_utf8(printed->0)));
            &&& action is Walk ==> printed is Some && manifest == Some(action->manifest@)
                && after.stage == FileStage::Walking
            &&& !(action is Walk) ==> action is Done && action->Done_0 is Err && after.stage
                == FileStage::Finished
            &&& printed is None ==> action is Done && action->Done_0 is Err
                && action->Done_0->Err_0 is WorkspaceScanning
                && action->Done_0->Err_0->WorkspaceScanning_0@ == s.path
            &&& printed is Some && manifest is None ==> !(action is Walk)
            &&& after.path == s.path
        }),
{
}

/// Whether the scan for files reads one after the other, and all of them parse.
pub open spec fn files_read_through(
    states: Seq<FileScanV>,
    events: Seq<FileEvent>,
    actions: Seq<FileAction>,
) -> bool {
    &&& states.len() == events.len() + 1
    &&& actions.len() == events.len()
    &&& forall|i: int|
        0 <= i < events.len() ==> {
            &&& (#[trigger] events[i]) is Contents
            &&& states[i].wf() && states[i].stage == FileStage::Reading
            &&& parsed_source(events[i]->Contents_0@) is Some
            &&& file_answers(states[i], events[i], states[i + 1], actions[i])
        }
}

proof fn lemma_files_read_through(
    files: Seq<Seq<char>>,
    states: Seq<FileScanV>,
    events: Seq<FileEvent>,
    actions: Seq<FileAction>,
    i: int,
)
    requires
        files_read_through(states, events, actions),
        states[0].files == files,
        states[0].current == 0,
        states[0].found.len() == 0,
        0 <= i < events.len(),
    ensures
        i < files.len(),
        states[i].files == files,
        states[i].current == i,
        states[i].found == Seq::new(
            i as nat,
            |j: int|
                SourceFileV {
                    source: files[j],
                    items: parsed_source(events[j]->Contents_0@)->0,
                },
        ),
    decreases i,
{
    let give = |j: int|
        SourceFileV { source: files[j], items: parsed_source(events[j]->Contents_0@)->0 };
    assert(events[i] is Contents);
    if i == 0 {
        assert(states[0].found =~= Seq::new(0, give));
    } else {
        lemma_files_read_through(files, states, events, actions, i - 1);
        assert(events[i - 1] is Contents);
        assert(file_answers(states[i - 1], events[i - 1], states[i - 1 + 1], actions[i - 1]));
        assert(Seq::new((i - 1) as nat, give).push(give(i - 1)) =~= Seq::new(i as nat, give));
    }
}

/// Where nothing fails, every source file of the package is read, once and in order,
/// and in the end all of them are handed over, each with its path and as it parsed.
pub proof fn law_all_source_files_read(
    files: Seq<Seq<char>>,
    states: Seq<FileScanV>,
    events: Seq<FileEvent>,
    actions: Seq<FileAction>,
)
    requires
        files_read_through(states, events, actions),
        states[0].files == files,
        states[0].current == 0,
        states[0].found.len() == 0,
    ensures
        events.len() <= files.len() || events.len() == 0,
        forall|i: int|
            0 <= i < events.len() && i + 1 < files.len() ==> (#[trigger] actions[i]) is Read
                && actions[i]->Read_0@ == files[i + 1],
        events.len() > 0 && events.len() == files.len() ==> {
            let last = actions[events.len() - 1];
            &&& last is Done
            &&& last->Done_0 is Ok
            &&& last->Done_0->Ok_0@.len() == files.len()
            &&& forall|k: int|
                0 <= k < files.len() ==> (#[trigger] last->Done_0->Ok_0@[k]).source() == files[k]
                    && Some(last->Done_0->Ok_0@[k].items()) == parsed_source(
                    events[k]->Contents_0@,
                )
        },
{
    assert forall|i: int| 0 <= i < events.len() implies i < files.len() && states[i].files == files
        && states[i].current == i && file_answers(
        states[i],
        events[i],
        states[i + 1],
        #[trigger] actions[i],
    ) && events[i] is Contents && parsed_source(events[i]->Contents_0@) is Some by {
        lemma_files_read_through(files, states, events, actions, i);
        assert(events[i] is Contents);
    }
    if events.len() > 0 && events.len() == files.len() {
        let i = events.len() - 1;
        lemma_files_read_through(files, states, events, actions, i);
        let give = |j: int|
            SourceFileV { source: files[j], items: parsed_source(events[j]->Contents_0@)->0 };
        let last = actions[i];
        assert(file_answers(states[i], events[i], states[i + 1], actions[i]));
        let all = last->Done_0->Ok_0@;
        assert(source_files(all) == Seq::new(i as nat, give).push(give(i)));
        assert(source_files(all).len() == all.len());
        assert forall|k: int| 0 <= k < files.len() implies (#[trigger] all[k]).source() == files[k]
            && Some(all[k].items()) == parsed_source(events[k]->Contents_0@) by {
            assert(source_files(all)[k] == give(k));
            assert(source_files(all)[k] == (SourceFileV {
                source: all[k].source(),
                items: all[k].items(),
            }));
            assert(events[k] is Contents);
        }
    }
}

/// How the scan for files goes on, and that each failure ends it: a path that exists
/// is looked for a repository, one that does not is cloned to, and then entered.
pub proof fn law_file_scan_route(
    s: FileScanV,
    event: FileEvent,
    after: FileScanV,
    action: FileAction,
)
    requires
        s.wf(),
        file_answers(s, event, after, action),
    ensures
        match event {
            FileEvent::Exists(yes) => if yes {
                action is Discover && action->Discover_0@ == s.path && after.stage
                    == FileStage::Discovering
            } else {
                action is Clone && action->Clone_path@ == s.path && action->url@
                    == "https://github.com/rust-lang/libc.git"@ && after.stage
                    == FileStage::Cloning
            },
            FileEvent::Discovered(outcome) => if outcome is Found {
                action is Enter && action->Enter_0@ == s.path && after.stage == FileStage::Entering
            } else {
                action is Done && action->Done_0 is Err && after.stage == FileStage::Finished
            },
            FileEvent::Cloned(outcome) => if outcome is Cloned {
                action is Enter && action->Enter_0@ == s.path && after.stage == FileStage::Entering
            } else {
                action is Done && action->Done_0 is Err && after.stage == FileStage::Finished
            },
            FileEvent::Entered => action is QueryMetadata && after.stage == FileStage::Listing,
            FileEvent::ProbeFailed(_) | FileEvent::EnterFailed(_) => action is Done
                && action->Done_0 is Err && after.stage == FileStage::Finished,
            FileEvent::ReadFailed(_) => action is Done && action->Done_0 is Err
                && action->Done_0->Err_0 is ParseError && action->Done_0->Err_0->ParseError_0@
                == s.files[s.current] && after.stage == FileStage::Finished,
            FileEvent::Contents(text) => parsed_source(text@) is None ==> action is Done
                && action->Done_0 is Err && action->Done_0->Err_0 is ParseError
                && action->Done_0->Err_0->ParseError_0@ == s.files[s.current] && after.stage
                == FileStage::Finished,
            FileEvent::Walked(entries) => {
                &&& after.files == sources(entries@) && after.current == 0
                &&& after.files.len() > 0 ==> action is Read && action->Read_0@ == after.files[0]
                    && after.stage == FileStage::Reading && after.found == s.found
            },
            FileEvent::Metadata(_) => true,
        },
        after.path == s.path,
{
    reveal_strlit("https://github.com/rust-lang/libc.git");
}

} // verus!

//! Finds the repository and the source files of its `libc` package.

use crate::errors::{
    CloneErrorKind, CloneRepoError, DiscoverRepoError, RepoErrorRepr, ScanFilesError,
};
use crate::parser::SourceFile;
use crate::repo::{
    clone_repo, discover_kind, discover_repo, fetch_kind, prepare_kind, CloneOutcome,
    DiscoverOutcome, LIBC_REPO,
};
use crate::scanner::{fetch_details, sources, texts, utf8_text, WalkEntry};
use crate::syntax::{parsed_source, ItemV};
use crate::text::same_text;
use vstd::prelude::*;
use vstd::utf8::{
    decode_utf8, encode_utf8_decode_utf8, encode_utf8_valid_utf8,
    is_char_boundary_iff_not_is_continuation_byte, is_char_boundary_start_end_of_seq, valid_utf8,
    valid_utf8_split,
};

verus! {

/// A package: its name, and the path of its manifest.
#[derive(Debug)]
pub struct Package {
    pub name: String,
    pub manifest: String,
}

/// What a [`Package`] is.
#[verifier::ext_equal]
pub struct PackageV {
    pub name: Seq<char>,
    pub manifest: Seq<char>,
}

impl View for Package {
    type V = PackageV;

    open spec fn view(&self) -> PackageV {
        PackageV { name: self.name@, manifest: self.manifest@ }
    }
}

/// What the packages are.
pub open spec fn packages(list: Seq<Package>) -> Seq<PackageV> {
    list.map_values(|p: Package| p@)
}

/// The packages of the workspace that the output of `cargo metadata` describes.
pub uninterp spec fn workspace_packages(text: Seq<char>) -> Seq<PackageV>;

/// `cargo_metadata::MetadataCommand::parse`: of what it parsed the names and
/// manifests of `cargo_metadata::Metadata::workspace_packages`, which depend on
/// nothing but the text. Nothing is said of when the text is refused: how large a
/// number may be depends on the machine.
#[verifier::external_body]
fn list_packages(text: &str) -> (r: Result<Vec<Package>, String>)
    ensures
        match r {
            Ok(list) => packages(list@) == workspace_packages(text@),
            Err(_) => true,
        },
{
    match cargo_metadata::MetadataCommand::parse(text) {
        Ok(metadata) => Ok(metadata
            .workspace_packages()
            .into_iter()
            .map(|p| Package { name: p.name.to_string(), manifest: p.manifest_path.to_string() })
            .collect()),
        Err(err) => Err(err.to_string()),
    }
}

/// What a command left behind: whether it succeeded, and what it printed.
#[derive(Debug)]
pub struct CommandOutput {
    pub success: bool,
    pub stdout: Vec<u8>,
}

/// How long the first line of the bytes is, without the line feed.
pub open spec fn line_length(bytes: Seq<u8>) -> nat
    decreases bytes.len(),
{
    if bytes.len() == 0 || bytes[0] == 0x0a {
        0
    } else {
        1 + line_length(bytes.skip(1))
    }
}

/// The first line of the bytes, without what ends it: a line feed, or a carriage
/// return and a line feed.
pub open spec fn first_line(bytes: Seq<u8>) -> Seq<u8> {
    let n = line_length(bytes) as int;
    if 0 < n < bytes.len() && bytes[n - 1] == 0x0d {
        bytes.take(n - 1)
    } else {
        bytes.take(n)
    }
}

/// The first of the lines that starts with a brace.
pub open spec fn json_line(bytes: Seq<u8>) -> Option<Seq<u8>>
    decreases bytes.len(),
{
    if bytes.len() == 0 {
        None
    } else if bytes[0] == 0x7b {
        Some(first_line(bytes))
    } else if line_length(bytes) < bytes.len() {
        json_line(bytes.skip(line_length(bytes) as int + 1))
    } else {
        None
    }
}

proof fn lemma_line_length(bytes: Seq<u8>, n: int)
    requires
        0 <= n <= bytes.len(),
        forall|i: int| 0 <= i < n ==> #[trigger] bytes[i] != 0x0a,
        n < bytes.len() ==> bytes[n] == 0x0a,
    ensures
        line_length(bytes) == n,
    decreases n,
{
    if n > 0 {
        let rest = bytes.skip(1);
        assert forall|i: int| 0 <= i < n - 1 implies #[trigger] rest[i] != 0x0a by {
            assert(rest[i] == bytes[i + 1]);
        }
        lemma_line_length(rest, n - 1);
        assert(bytes[0] != 0x0a);
    }
}

/// Whether the bytes between two positions start with a brace, and end with all
/// bytes or in front of what ends a line.
spec fn cut_out(bytes: Seq<u8>, p: int, q: int) -> bool {
    &&& 0 <= p <= q <= bytes.len()
    &&& p < bytes.len()
    &&& bytes[p] == 0x7b
    &&& q < bytes.len() ==> bytes[q] == 0x0a || bytes[q] == 0x0d
}

pub proof fn lemma_line_end(bytes: Seq<u8>)
    ensures
        0 <= line_length(bytes) <= bytes.len(),
        line_length(bytes) < bytes.len() ==> bytes[line_length(bytes) as int] == 0x0a,
    decreases bytes.len(),
{
    if bytes.len() > 0 && bytes[0] != 0x0a {
        lemma_line_end(bytes.skip(1));
    }
}

proof fn lemma_json_cut(bytes: Seq<u8>, from: int)
    requires
        0 <= from <= bytes.len(),
        json_line(bytes.skip(from)) is Some,
    ensures
        exists|p: int, q: int| #[trigger]
            cut_out(bytes, p, q) && json_line(bytes.skip(from)) == Some(bytes.subrange(p, q)),
    decreases bytes.len() - from,
{
    let rest = bytes.skip(from);
    let n = line_length(rest) as int;
    lemma_line_end(rest);
    if rest[0] == 0x7b {
        let q = from + first_line(rest).len();
        assert(first_line(rest) =~= bytes.subrange(from, q));
        assert(cut_out(bytes, from, q));
    } else {
        assert(rest.skip(n + 1) =~= bytes.skip(from + n + 1));
        lemma_json_cut(bytes, from + n + 1);
    }
}

/// The metadata are valid UTF-8 where all that was printed is.
proof fn lemma_json_valid(bytes: Seq<u8>)
    requires
        valid_utf8(bytes),
        json_line(bytes) is Some,
    ensures
        valid_utf8(json_line(bytes)->0),
{
    assert(bytes.skip(0) =~= bytes);
    lemma_json_cut(bytes, 0);
    let (p, q) = choose|p: int, q: int| #[trigger]
        cut_out(bytes, p, q) && json_line(bytes) == Some(bytes.subrange(p, q));
    is_char_boundary_iff_not_is_continuation_byte(bytes, p);
    valid_utf8_split(bytes, p);
    let rest = bytes.subrange(p, bytes.len() as int);
    if q < bytes.len() {
        assert(rest[q - p] == bytes[q]);
        is_char_boundary_iff_not_is_continuation_byte(rest, q - p);
    } else {
        is_char_boundary_start_end_of_seq(rest);
    }
    valid_utf8_split(rest, q - p);
    assert(rest.subrange(0, q - p) =~= bytes.subrange(p, q));
}

/// The first of the lines that starts with a brace. Other lines may come before
/// the metadata.
pub fn find_json(bytes: &Vec<u8>) -> (r: Option<Vec<u8>>)
    ensures
        match r {
            Some(line) => json_line(bytes@) == Some(line@),
            None => json_line(bytes@) is None,
        },
{
    let mut from: usize = 0;
    assert(bytes@.skip(0) =~= bytes@);
    while from < bytes.len()
        invariant
            from <= bytes@.len(),
            json_line(bytes@) == json_line(bytes@.skip(from as int)),
        decreases bytes@.len() - from,
    {
        let ghost rest = bytes@.skip(from as int);
        let mut end: usize = from;
        while end < bytes.len() && bytes[end] != 0x0a
            invariant
                from <= end <= bytes@.len(),
                rest == bytes@.skip(from as int),
                forall|i: int| 0 <= i < end - from ==> #[trigger] rest[i] != 0x0a,
            decreases bytes@.len() - end,
        {
            assert(rest[end - from] == bytes@[end as int]);
            end += 1;
        }
        proof {
            lemma_line_length(rest, end - from);
        }
        if bytes[from] == 0x7b {
            let stop: usize = if end < bytes.len() && bytes[end - 1] == 0x0d {
                end - 1
            } else {
                end
            };
            let line: &[u8] = vstd::slice::slice_subrange(bytes.as_slice(), from, stop);
            let r: Vec<u8> = vstd::slice::slice_to_vec(line);
            assert(r@ =~= first_line(rest));
            return Some(r);
        }
        if end == bytes.len() {
            return None;
        }
        assert(rest.skip(end - from + 1) =~= bytes@.skip(end + 1));
        from = end + 1;
    }
    None
}

/// The manifest of the first `libc` package.
pub open spec fn libc_manifest(list: Seq<PackageV>) -> Option<Seq<char>>
    decreases list.len(),
{
    if list.len() == 0 {
        None
    } else if list[0].name == "libc"@ {
        Some(list[0].manifest)
    } else {
        libc_manifest(list.skip(1))
    }
}

/// The manifest of the first `libc` package.
pub fn find_libc(list: &Vec<Package>) -> (r: Option<String>)
    ensures
        match r {
            Some(manifest) => libc_manifest(packages(list@)) == Some(manifest@),
            None => libc_manifest(packages(list@)) is None,
        },
{
    let ghost all = packages(list@);
    let mut i: usize = 0;
    assert(all.skip(0) =~= all);
    while i < list.len()
        invariant
            i <= list@.len(),
            all == packages(list@),
            libc_manifest(all) == libc_manifest(all.skip(i as int)),
        decreases list@.len() - i,
    {
        assert(all.skip(i as int)[0] == list@[i as int]@);
        assert(all.skip(i as int).skip(1) =~= all.skip(i + 1));
        if same_text(list[i].name.as_str(), "libc") {
            return Some(list[i].manifest.clone());
        }
        i += 1;
    }
    None
}

/// What the scan waits for.
#[derive(Debug, Clone, Copy, PartialEq, Eq, Structural)]
pub enum FileStage {
    /// It has not begun.
    Idle,
    /// Whether the path exists.
    Probing,
    Discovering,
    Cloning,
    /// The path to become the current directory.
    Entering,
    /// What packages there are.
    Listing,
    /// The entries of the directory tree.
    Walking,
    /// The contents of a file.
    Reading,
    Finished,
}

/// What is to be done next.
pub enum FileAction {
    /// It is to be found out whether the path exists.
    TryExists(String),
    /// The repository at the path, or upwards from it, is to be opened.
    Discover(String),
    /// A repository is to be cloned to the path.
    Clone { url: &'static str, path: String },
    /// The path is to become the current directory.
    Enter(String),
    /// The metadata of the workspace in the current directory are to be printed.
    QueryMetadata,
    /// The tree of the directory that the manifest is in is to be walked, by file
    /// name and with the contents of directories first.
    Walk { manifest: String },
    /// A file is to be read.
    Read(String),
    /// There is nothing left to be done.
    Done(Result<Vec<SourceFile>, ScanFilesError>),
}

/// How what was to be done turned out. Failures come with their messages.
#[derive(Debug)]
pub enum FileEvent {
    Exists(bool),
    ProbeFailed(String),
    Discovered(DiscoverOutcome),
    Cloned(CloneOutcome),
    Entered,
    EnterFailed(String),
    /// What came of printing the metadata, if that could be run at all.
    Metadata(Result<CommandOutput, String>),
    Walked(Vec<Option<WalkEntry>>),
    Contents(String),
    ReadFailed(String),
}

/// A running scan for source files.
pub struct FileScan {
    path: String,
    stage: FileStage,
    files: Vec<String>,
    current: usize,
    found: Vec<SourceFile>,
}

/// What a [`SourceFile`] is.
#[verifier::ext_equal]
pub struct SourceFileV {
    pub source: Seq<char>,
    pub items: Seq<ItemV>,
}

/// What the source files are.
pub open spec fn source_files(found: Seq<SourceFile>) -> Seq<SourceFileV> {
    found.map_values(|f: SourceFile| SourceFileV { source: f.source(), items: f.items() })
}

/// What a [`FileScan`] is.
#[verifier::ext_equal]
pub struct FileScanV {
    pub path: Seq<char>,
    pub stage: FileStage,
    /// The paths of the source files.
    pub files: Seq<Seq<char>>,
    /// How many of them have been read.
    pub current: int,
    /// The files that were parsed so far.
    pub found: Seq<SourceFileV>,
}

impl View for FileScan {
    type V = FileScanV;

    closed spec fn view(&self) -> FileScanV {
        FileScanV {
            path: self.path@,
            stage: self.stage,
            files: texts(self.files@),
            current: self.current as int,
            found: source_files(self.found@),
        }
    }
}

impl FileScanV {
    /// Whether a file is at hand while one is read.
    pub open spec fn wf(self) -> bool {
        &&& 0 <= self.current <= self.files.len()
        &&& self.stage == FileStage::Reading ==> self.current < self.files.len()
    }

    /// The scan in another stage.
    pub open spec fn at(self, stage: FileStage) -> FileScanV {
        FileScanV { stage, ..self }
    }

    /// The scan after it went on to the next file, or handed over all that it
    /// found.
    pub open spec fn reading(self) -> FileScanV {
        if self.current < self.files.len() {
            self.at(FileStage::Reading)
        } else {
            FileScanV { found: Seq::empty(), ..self.at(FileStage::Finished) }
        }
    }
}

/// Whether an event is one that a stage waits for.
pub open spec fn file_expected(stage: FileStage, event: FileEvent) -> bool {
    match event {
        FileEvent::Exists(_) | FileEvent::ProbeFailed(_) => stage == FileStage::Probing,
        FileEvent::Discovered(_) => stage == FileStage::Discovering,
        FileEvent::Cloned(_) => stage == FileStage::Cloning,
        FileEvent::Entered | FileEvent::EnterFailed(_) => stage == FileStage::Entering,
        FileEvent::Metadata(_) => stage == FileStage::Listing,
        FileEvent::Walked(_) => stage == FileStage::Walking,
        FileEvent::Contents(_) | FileEvent::ReadFailed(_) => stage == FileStage::Reading,
    }
}

/// Whether the action ends the scan with an error.
pub open spec fn file_failed(action: FileAction) -> bool {
    action is Done && action->Done_0 is Err
}

/// The error that the action ends the scan with.
pub open spec fn file_failure(action: FileAction) -> ScanFilesError {
    action->Done_0->Err_0
}

/// Whether the error is what comes of a failure to look for the repository.
pub open spec fn discover_failure(
    outcome: DiscoverOutcome,
    path: Seq<char>,
    err: RepoErrorRepr,
) -> bool {
    match (outcome, err) {
        (DiscoverOutcome::Failed(why), RepoErrorRepr::Discover { path: at, kind }) => at@ == path
            && kind == discover_kind(why),
        (DiscoverOutcome::TaskFailed(message), RepoErrorRepr::Other(text)) => text == message,
        _ => false,
    }
}

/// Whether the error is what comes of a failure to clone.
pub open spec fn uncloned_repo(
    outcome: CloneOutcome,
    path: Seq<char>,
    err: RepoErrorRepr,
) -> bool {
    match (outcome, err) {
        (CloneOutcome::PrepareFailed(why), RepoErrorRepr::Clone { path: at, kind }) => at@ == path
            && kind == prepare_kind(why),
        (CloneOutcome::FetchFailed(why), RepoErrorRepr::Clone { path: at, kind }) => at@ == path
            && kind == fetch_kind(why),
        (CloneOutcome::CheckoutFailed(why), RepoErrorRepr::Clone { path: at, kind }) => at@ == path
            && kind == CloneErrorKind::Other(why),
        (CloneOutcome::TaskFailed(message), RepoErrorRepr::Other(text)) => text == message,
        _ => false,
    }
}

/// Whether the action is to read the file at hand, if one is left, and to hand
/// over all the files otherwise.
pub open spec fn file_reads_on(s: FileScanV, action: FileAction) -> bool {
    if s.current < s.files.len() {
        action is Read && action->Read_0@ == s.files[s.current]
    } else {
        &&& action is Done
        &&& action->Done_0 is Ok
        &&& source_files(action->Done_0->Ok_0@) == s.found
    }
}

/// Whether the action enters the repository at a path.
pub open spec fn enters(s: FileScanV, after: FileScanV, action: FileAction) -> bool {
    &&& after == s.at(FileStage::Entering)
    &&& action is Enter
    &&& action->Enter_0@ == s.path
}

/// Whether the action ends the scan because the repository cannot be had.
pub open spec fn no_repo(s: FileScanV, after: FileScanV, action: FileAction) -> bool {
    &&& after == s.at(FileStage::Finished)
    &&& file_failed(action)
    &&& file_failure(action) is RepoError
}

/// The metadata that a command printed: of valid UTF-8 the first line that starts
/// with a brace, if the command succeeded.
pub open spec fn printed_metadata(output: Result<CommandOutput, String>) -> Option<Seq<u8>> {
    match output {
        Ok(output) => if output.success && valid_utf8(output.stdout@) {
            json_line(output.stdout@)
        } else {
            None
        },
        Err(_) => None,
    }
}

/// Whether the action follows from what `cargo metadata` printed: the directory of
/// the `libc` package is to be walked. Without that package, or without metadata
/// to be made out, the scan ends.
pub open spec fn lists(
    s: FileScanV,
    output: Result<CommandOutput, String>,
    after: FileScanV,
    action: FileAction,
) -> bool {
    let printed = printed_metadata(output);
    let manifest = libc_manifest(workspace_packages(decode_utf8(printed->0)));
    if action is Walk {
        &&& after == s.at(FileStage::Walking)
        &&& printed is Some
        &&& manifest == Some(action->manifest@)
    } else {
        &&& after == s.at(FileStage::Finished)
        &&& file_failed(action)
        &&& match file_failure(action) {
            ScanFilesError::NoLibc(path) => path@ == s.path && printed is Some && manifest is None,
            ScanFilesError::WorkspaceScanning(path) => path@ == s.path,
            _ => false,
        }
    }
}

/// Whether the action is what follows from the event, and `after` is the scan then.
///
/// A path that exists is to be in a repository, and any other path is cloned to.
/// There, the files of the `libc` package are read one after the other. The first
/// that cannot be read or parsed ends the scan, as does any other failure.
pub open spec fn file_answers(
    s: FileScanV,
    event: FileEvent,
    after: FileScanV,
    action: FileAction,
) -> bool {
    match event {
        FileEvent::Exists(true) => {
            &&& after == s.at(FileStage::Discovering)
            &&& action is Discover
            &&& action->Discover_0@ == s.path
        },
        FileEvent::Exists(false) => {
            &&& after == s.at(FileStage::Cloning)
            &&& match action {
                FileAction::Clone { url, path } => url@ == LIBC_REPO@ && path@ == s.path,
                _ => false,
            }
        },
        FileEvent::ProbeFailed(message) => {
            &&& after == s.at(FileStage::Finished)
            &&& action == FileAction::Done(Err(ScanFilesError::IoBound(message)))
        },
        FileEvent::Discovered(outcome) => if outcome is Found {
            enters(s, after, action)
        } else {
            &&& no_repo(s, after, action)
            &&& discover_failure(outcome, s.path, file_failure(action)->RepoError_0)
        },
        FileEvent::Cloned(outcome) => if outcome is Cloned {
            enters(s, after, action)
        } else {
            &&& no_repo(s, after, action)
            &&& uncloned_repo(outcome, s.path, file_failure(action)->RepoError_0)
        },
        FileEvent::Entered => {
            &&& after == s.at(FileStage::Listing)
            &&& action is QueryMetadata
        },
        FileEvent::EnterFailed(message) => {
            &&& after == s.at(FileStage::Finished)
            &&& action == FileAction::Done(Err(ScanFilesError::PwdSetting(message)))
        },
        FileEvent::Metadata(output) => lists(s, output, after, action),
        FileEvent::Walked(entries) => {
            let next = FileScanV { files: sources(entries@), current: 0, ..s };
            after == next.reading() && file_reads_on(next, action)
        },
        FileEvent::Contents(contents) => match parsed_source(contents@) {
            Some(items) => {
                let file = SourceFileV { source: s.files[s.current], items };
                let next = FileScanV { current: s.current + 1, found: s.found.push(file), ..s };
                after == next.reading() && file_reads_on(next, action)
            },
            None => unparsed(s, after, action),
        },
        FileEvent::ReadFailed(_) => unparsed(s, after, action),
    }
}

/// Whether the action ends the scan because the file at hand cannot be parsed.
pub open spec fn unparsed(s: FileScanV, after: FileScanV, action: FileAction) -> bool {
    &&& after == s.at(FileStage::Finished)
    &&& file_failed(action)
    &&& file_failure(action) is ParseError
    &&& file_failure(action)->ParseError_0@ == s.files[s.current]
}

/// The text of the metadata that a command printed.
fn printed_text(output: Result<CommandOutput, String>) -> (r: Option<String>)
    ensures
        match r {
            Some(text) => {
                &&& printed_metadata(output) is Some
                &&& text@ == decode_utf8(printed_metadata(output)->0)
            },
            None => printed_metadata(output) is None,
        },
{
    let output: CommandOutput = match output {
        Ok(output) => output,
        Err(_) => return None,
    };
    if !output.success {
        return None;
    }
    let line: Option<Vec<u8>> = find_json(&output.stdout);
    match utf8_text(output.stdout) {
        Ok(text) => {
            proof {
                encode_utf8_valid_utf8(text@);
            }
        },
        Err(_) => return None,
    }
    proof {
        if valid_utf8(output.stdout@) && json_line(output.stdout@) is Some {
            lemma_json_valid(output.stdout@);
        }
    }
    match line {
        Some(line) => match utf8_text(line) {
            Ok(text) => {
                proof {
                    encode_utf8_decode_utf8(text@);
                }
                Some(text)
            },
            Err(_) => None,
        },
        None => None,
    }
}

impl FileScan {
    fn finish(&mut self, err: ScanFilesError) -> (r: FileAction)
        ensures
            final(self)@ == old(self)@.at(FileStage::Finished),
            r == FileAction::Done(Err(err)),
    {
        self.stage = FileStage::Finished;
        FileAction::Done(Err(err))
    }

    fn enter(&mut self) -> (r: FileAction)
        ensures
            enters(old(self)@, final(self)@, r),
    {
        self.stage = FileStage::Entering;
        FileAction::Enter(self.path.clone())
    }

    fn discovered(&mut self, outcome: DiscoverOutcome) -> (r: FileAction)
        ensures
            if outcome is Found {
                enters(old(self)@, final(self)@, r)
            } else {
                &&& no_repo(old(self)@, final(self)@, r)
                &&& discover_failure(outcome, old(self)@.path, file_failure(r)->RepoError_0)
            },
    {
        match discover_repo(self.path.as_str(), outcome) {
            Ok(()) => self.enter(),
            Err(DiscoverRepoError::Error(err)) => self.finish(ScanFilesError::RepoError(err)),
            Err(DiscoverRepoError::Task(message)) => self.finish(
                ScanFilesError::RepoError(RepoErrorRepr::Other(message)),
            ),
        }
    }

    fn cloned(&mut self, outcome: CloneOutcome) -> (r: FileAction)
        ensures
            if outcome is Cloned {
                enters(old(self)@, final(self)@, r)
            } else {
                &&& no_repo(old(self)@, final(self)@, r)
                &&& uncloned_repo(outcome, old(self)@.path, file_failure(r)->RepoError_0)
            },
    {
        match clone_repo(self.path.as_str(), outcome) {
            Ok(()) => self.enter(),
            Err(CloneRepoError::Error(err)) => self.finish(ScanFilesError::RepoError(err)),
            Err(CloneRepoError::Task(message)) => self.finish(
                ScanFilesError::RepoError(RepoErrorRepr::Other(message)),
            ),
        }
    }

    /// Goes on once it is known what packages there are: to the files of `libc`,
    /// which has to be one of them.
    pub fn listed(&mut self, list: &Vec<Package>) -> (r: FileAction)
        ensures
            match libc_manifest(packages(list@)) {
                Some(manifest) => {
                    &&& final(self)@ == old(self)@.at(FileStage::Walking)
                    &&& r is Walk
                    &&& r->manifest@ == manifest
                },
                None => {
                    &&& final(self)@ == old(self)@.at(FileStage::Finished)
                    &&& file_failed(r)
                    &&& file_failure(r) is NoLibc
                    &&& file_failure(r)->NoLibc_0@ == old(self)@.path
                },
            },
    {
        match find_libc(list) {
            Some(manifest) => {
                self.stage = FileStage::Walking;
                FileAction::Walk { manifest }
            },
            None => {
                let path: String = self.path.clone();
                self.finish(ScanFilesError::NoLibc(path))
            },
        }
    }

    fn described(&mut self, output: Result<CommandOutput, String>) -> (r: FileAction)
        ensures
            lists(old(self)@, output, final(self)@, r),
    {
        let path: String = self.path.clone();
        let text: String = match printed_text(output) {
            Some(text) => text,
            None => return self.finish(ScanFilesError::WorkspaceScanning(path)),
        };
        match list_packages(text.as_str()) {
            Ok(list) => self.listed(&list),
            Err(_) => self.finish(ScanFilesError::WorkspaceScanning(path)),
        }
    }

    fn read_on(&mut self) -> (r: FileAction)
        requires
            0 <= old(self)@.current <= old(self)@.files.len(),
        ensures
            final(self)@ == old(self)@.reading(),
            file_reads_on(old(self)@, r),
    {
        if self.current < self.files.len() {
            self.stage = FileStage::Reading;
            assert(texts(self.files@)[self.current as int] == self.files@[self.current as int]@);
            FileAction::Read(self.files[self.current].clone())
        } else {
            self.stage = FileStage::Finished;
            let mut found: Vec<SourceFile> = Vec::new();
            std::mem::swap(&mut found, &mut self.found);
            assert(source_files(self.found@) =~= Seq::empty());
            FileAction::Done(Ok(found))
        }
    }

    /// Takes in the file at hand, if it could be read.
    fn parse(&mut self, contents: Option<String>) -> (r: FileAction)
        requires
            old(self)@.wf(),
            old(self)@.stage == FileStage::Reading,
        ensures
            match contents {
                Some(text) => file_answers(
                    old(self)@,
                    FileEvent::Contents(text),
                    final(self)@,
                    r,
                ),
                None => unparsed(old(self)@, final(self)@, r),
            },
            final(self)@.wf(),
    {
        assert(texts(self.files@)[self.current as int] == self.files@[self.current as int]@);
        assert(self.current < self.files.len());
        let path: String = self.files[self.current].clone();
        let parsed: Option<SourceFile> = match contents {
            Some(text) => SourceFile::parse(text.as_str(), path.as_str()),
            None => None,
        };
        match parsed {
            Some(file) => {
                self.found.push(file);
                self.current += 1;
                assert(source_files(self.found@) =~= source_files(old(self).found@).push(
                    SourceFileV { source: file.source(), items: file.items() },
                ));
                self.read_on()
            },
            None => self.finish(ScanFilesError::ParseError(path)),
        }
    }

    /// Begins with the path.
    pub fn begin(&mut self) -> (r: FileAction)
        requires
            old(self)@.wf(),
            old(self)@.stage == FileStage::Idle,
        ensures
            final(self)@ == old(self)@.at(FileStage::Probing),
            final(self)@.wf(),
            r is TryExists,
            r->TryExists_0@ == old(self)@.path,
    {
        self.stage = FileStage::Probing;
        FileAction::TryExists(self.path.clone())
    }

    /// What the scan waits for.
    pub fn stage(&self) -> (r: FileStage)
        ensures
            r == self@.stage,
    {
        self.stage
    }

    /// Goes on after what was to be done is done.
    pub fn step(&mut self, event: FileEvent) -> (r: FileAction)
        requires
            old(self)@.wf(),
            file_expected(old(self)@.stage, event),
        ensures
            final(self)@.wf(),
            file_answers(old(self)@, event, final(self)@, r),
    {
        match event {
            FileEvent::Exists(yes) => {
                if yes {
                    self.stage = FileStage::Discovering;
                    FileAction::Discover(self.path.clone())
                } else {
                    self.stage = FileStage::Cloning;
                    FileAction::Clone { url: LIBC_REPO, path: self.path.clone() }
                }
            },
            FileEvent::ProbeFailed(message) => self.finish(ScanFilesError::IoBound(message)),
            FileEvent::Discovered(outcome) => self.discovered(outcome),
            FileEvent::Cloned(outcome) => self.cloned(outcome),
            FileEvent::Entered => {
                self.stage = FileStage::Listing;
                FileAction::QueryMetadata
            },
            FileEvent::EnterFailed(message) => self.finish(ScanFilesError::PwdSetting(message)),
            FileEvent::Metadata(output) => self.described(output),
            FileEvent::Walked(entries) => {
                self.files = fetch_details(&entries);
                self.current = 0;
                self.read_on()
            },
            FileEvent::Contents(contents) => self.parse(Some(contents)),
            FileEvent::ReadFailed(_) => self.parse(None),
        }
    }
}

/// The first files, as they were parsed.
pub open spec fn parsed_files(
    files: Seq<Seq<char>>,
    contents: Seq<Seq<char>>,
    upto: int,
) -> Seq<SourceFileV> {
    Seq::new(
        upto as nat,
        |i: int| SourceFileV { source: files[i], items: parsed_source(contents[i])->0 },
    )
}

/// A scan that has read the first of the files has parsed each of them, and hands
/// over all files in the end, in the order in which they were walked.
pub proof fn law_files_gathered(
    s: FileScanV,
    contents: Seq<Seq<char>>,
    event: FileEvent,
    after: FileScanV,
    action: FileAction,
)
    requires
        s.wf(),
        s.stage == FileStage::Reading,
        s.found == parsed_files(s.files, contents, s.current),
        event is Contents,
        event->Contents_0@ == contents[s.current],
        parsed_source(contents[s.current]) is Some,
        file_answers(s, event, after, action),
    ensures
        after.stage == FileStage::Reading ==> after.found == parsed_files(
            s.files,
            contents,
            after.current,
        ),
        after.stage != FileStage::Reading ==> {
            &&& action is Done
            &&& action->Done_0 is Ok
            &&& source_files(action->Done_0->Ok_0@) == parsed_files(
                s.files,
                contents,
                s.files.len() as int,
            )
        },
{
    let file = SourceFileV {
        source: s.files[s.current],
        items: parsed_source(contents[s.current])->0,
    };
    assert(parsed_files(s.files, contents, s.current).push(file) =~= parsed_files(
        s.files,
        contents,
        s.current + 1,
    ));
}

/// Scans the codebase in the provided path for the source files of its `libc`
/// package, cloning it from upstream if the path does not exist.
pub fn scan_files(libc_path: &str) -> (r: FileScan)
    ensures
        r@ == (FileScanV {
            path: libc_path@,
            stage: FileStage::Idle,
            files: Seq::empty(),
            current: 0,
            found: Seq::empty(),
        }),
        r@.wf(),
{
    let r = FileScan {
        path: libc_path.to_owned(),
        stage: FileStage::Idle,
        files: Vec::new(),
        current: 0,
        found: Vec::new(),
    };
    assert(r@.files =~= Seq::empty());
    assert(r@.found =~= Seq::empty());
    r
}

} // verus!

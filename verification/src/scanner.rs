//! Finds the repository and the constants in it.

use crate::constant::ConstV;
use crate::constant_container::{ConstContainer, EntryV};
use crate::errors::{
    CloneErrorKind, CloneRepoError, DiscoverRepoError, FetchParseError, ScanError, ScanFilesError,
};
use crate::parser::{contained, parse_constants, ConstContainerBuilder, SourceFile};
use crate::repo::{
    clone_repo, discover_kind, discover_repo, fetch_kind, prepare_kind, uncloned, undiscovered,
    CloneOutcome, DiscoverOutcome, LIBC_REPO,
};
use crate::text::same_text;
use vstd::prelude::*;
use vstd::utf8::{
    decode_utf8, encode_utf8, encode_utf8_decode_utf8, encode_utf8_valid_utf8, valid_utf8,
};

verus! {

/// `String::from_utf8`: the text that the bytes are the UTF-8 form of, if they
/// are valid UTF-8. Nothing is said of the message that comes otherwise.
#[verifier::external_body]
pub(crate) fn utf8_text(bytes: Vec<u8>) -> (r: Result<String, String>)
    ensures
        match r {
            Ok(text) => encode_utf8(text@) == bytes@,
            Err(_) => !valid_utf8(bytes@),
        },
{
    String::from_utf8(bytes).map_err(|err| err.to_string())
}

/// The names of all packages that the output of `cargo metadata` lists.
pub uninterp spec fn package_names(text: Seq<char>) -> Seq<Seq<char>>;

/// `cargo_metadata::MetadataCommand::parse`: of what it parsed the names of all
/// packages, which depend on nothing but the text, and the name of
/// `cargo_metadata::Metadata::root_package`, which is one of them. Nothing is said
/// of which one: the root may be found by comparing paths, and how these compare
/// depends on the machine. Nor is anything said of when the text is refused: how
/// large a number may be depends on the machine too.
#[verifier::external_body]
fn root_package(text: &str) -> (r: Result<(Vec<String>, Option<String>), String>)
    ensures
        match r {
            Ok((names, root)) => {
                &&& texts(names@) == package_names(text@)
                &&& root is Some ==> package_names(text@).contains(root->0@)
            },
            Err(_) => true,
        },
{
    match cargo_metadata::MetadataCommand::parse(text) {
        Ok(metadata) => Ok((
            metadata.packages.iter().map(|package| package.name.to_string()).collect(),
            metadata.root_package().map(|package| package.name.to_string()),
        )),
        Err(err) => Err(err.to_string()),
    }
}

/// Whether the root package is the one that is looked for.
pub fn check_package(name: Option<String>) -> (r: Result<(), ScanError>)
    ensures
        match name {
            Some(name) => if name@ == "libc"@ {
                r is Ok
            } else {
                r is Err && r->Err_0.repr() is NotLibcRepo
            },
            None => r is Err && r->Err_0.repr() is Other && r->Err_0.repr()->Other_0@
                == "repo does not contain `libc` crate as root pkg"@,
        },
{
    match name {
        Some(name) => {
            if same_text(name.as_str(), "libc") {
                Ok(())
            } else {
                Err(ScanError::new(ScanFilesError::NotLibcRepo))
            }
        },
        None => Err(
            ScanError::new(
                ScanFilesError::Other("repo does not contain `libc` crate as root pkg".to_owned()),
            ),
        ),
    }
}

/// Whether the output of `cargo metadata` is text that lists the `libc` crate.
pub open spec fn lists_libc(output: Seq<u8>) -> bool {
    valid_utf8(output) && package_names(decode_utf8(output)).contains("libc"@)
}

/// Whether the output of `cargo metadata` is text that lists some other package.
pub open spec fn lists_other(output: Seq<u8>) -> bool {
    valid_utf8(output) && exists|name: Seq<char>| #[trigger]
        package_names(decode_utf8(output)).contains(name) && name != "libc"@
}

/// Whether the output of `cargo metadata` bears out what was made of it. Which
/// package is the root is for the metadata to say.
pub open spec fn borne_out(output: Result<Vec<u8>, String>, found: Result<(), ScanError>) -> bool {
    match (output, found) {
        (Err(message), Ok(())) => false,
        (Err(message), Err(err)) => err.repr() == ScanFilesError::IoBound(message),
        (Ok(bytes), Ok(())) => lists_libc(bytes@),
        (Ok(bytes), Err(err)) => match err.repr() {
            ScanFilesError::NotLibcRepo => lists_other(bytes@),
            ScanFilesError::Other(_) => true,
            _ => false,
        },
    }
}

/// Whether the output of `cargo metadata`, or the failure to run it, speaks of the
/// `libc` crate.
pub fn ensure_libc(output: Result<Vec<u8>, String>) -> (r: Result<(), ScanError>)
    ensures
        borne_out(output, r),
{
    match output {
        Err(message) => Err(ScanError::new(ScanFilesError::IoBound(message))),
        Ok(bytes) => match utf8_text(bytes) {
            Err(message) => Err(ScanError::new(ScanFilesError::Other(message))),
            Ok(text) => {
                proof {
                    encode_utf8_valid_utf8(text@);
                    encode_utf8_decode_utf8(text@);
                }
                match root_package(text.as_str()) {
                    Err(message) => Err(ScanError::new(ScanFilesError::Other(message))),
                    Ok((_, name)) => check_package(name),
                }
            },
        },
    }
}

/// An entry of a directory tree.
#[derive(Debug)]
pub struct WalkEntry {
    pub path: String,
    pub is_file: bool,
    pub extension: Option<String>,
}

/// Whether the entry is a source file.
pub open spec fn is_source(entry: WalkEntry) -> bool {
    entry.is_file && match entry.extension {
        Some(extension) => extension@ == "rs"@,
        None => false,
    }
}

/// The paths of the source files among the entries, in order. Entries that could
/// not be looked at are passed over.
pub open spec fn sources(entries: Seq<Option<WalkEntry>>) -> Seq<Seq<char>>
    decreases entries.len(),
{
    if entries.len() == 0 {
        Seq::empty()
    } else {
        let before = sources(entries.drop_last());
        match entries.last() {
            Some(entry) => if is_source(entry) {
                before.push(entry.path@)
            } else {
                before
            },
            None => before,
        }
    }
}

/// What the paths are.
pub open spec fn texts(paths: Seq<String>) -> Seq<Seq<char>> {
    paths.map_values(|path: String| path@)
}

/// The paths of the source files among the entries.
pub fn fetch_details(entries: &Vec<Option<WalkEntry>>) -> (r: Vec<String>)
    ensures
        texts(r@) == sources(entries@),
{
    let mut paths: Vec<String> = Vec::new();
    let mut i: usize = 0;
    assert(texts(paths@) =~= sources(entries@.take(0)));
    while i < entries.len()
        invariant
            i <= entries@.len(),
            texts(paths@) == sources(entries@.take(i as int)),
        decreases entries@.len() - i,
    {
        let ghost before = texts(paths@);
        assert(entries@.take(i + 1).drop_last() =~= entries@.take(i as int));
        if let Some(entry) = &entries[i] {
            let fits: bool = match &entry.extension {
                Some(extension) => same_text(extension.as_str(), "rs"),
                None => false,
            };
            if entry.is_file && fits {
                paths.push(entry.path.clone());
                assert(texts(paths@) =~= before.push(entry.path@));
            }
        }
        i += 1;
    }
    assert(entries@.take(entries@.len() as int) =~= entries@);
    paths
}

/// What the scan waits for.
#[derive(Debug, Clone, Copy, PartialEq, Eq, Structural)]
pub enum ScanStage {
    /// It has not begun.
    Idle,
    /// The canonical form of the path.
    Resolving,
    /// What package the path holds.
    Checking,
    Discovering,
    Cloning,
    /// The entries of the directory tree.
    Walking,
    /// The contents of a file.
    Reading,
    Finished,
}

/// What is to be done next.
pub enum ScanAction {
    /// The path is to be made canonical.
    Canonicalize(String),
    /// The metadata of the package at the path are to be printed.
    QueryMetadata(String),
    /// The repository at the path, or upwards from it, is to be opened.
    Discover(String),
    /// A repository is to be cloned to the path.
    Clone { url: &'static str, path: String },
    /// The tree of a directory below the path is to be walked, by file name and
    /// with the contents of directories first.
    Walk { root: String, dir: &'static str },
    /// A file is to be read.
    Read(String),
    /// There is nothing left to be done.
    Done(Result<ConstContainer, ScanError>),
}

/// How what was to be done turned out. Failures come with their messages.
#[derive(Debug)]
pub enum ScanEvent {
    Canonical(String),
    /// The path does not exist.
    Missing,
    /// The path exists, but has no canonical form that can be had.
    ResolveFailed(String),
    Metadata(Result<Vec<u8>, String>),
    Discovered(DiscoverOutcome),
    Cloned(CloneOutcome),
    Walked(Vec<Option<WalkEntry>>),
    /// The task that walked the tree broke down.
    WalkFailed(String),
    Contents(String),
    ReadFailed(String),
}

/// A running scan.
#[derive(Debug)]
pub struct Scan {
    path: String,
    stage: ScanStage,
    files: Vec<String>,
    current: usize,
    found: ConstContainerBuilder,
}

/// What a [`Scan`] is.
#[verifier::ext_equal]
pub struct ScanV {
    pub path: Seq<char>,
    pub stage: ScanStage,
    /// The source files.
    pub files: Seq<Seq<char>>,
    /// How many of them have been read.
    pub current: int,
    /// The constants that were found so far.
    pub found: Seq<ConstV>,
}

impl View for Scan {
    type V = ScanV;

    closed spec fn view(&self) -> ScanV {
        ScanV {
            path: self.path@,
            stage: self.stage,
            files: texts(self.files@),
            current: self.current as int,
            found: self.found@,
        }
    }
}

impl ScanV {
    /// Whether a file is at hand while one is read.
    pub open spec fn wf(self) -> bool {
        &&& 0 <= self.current <= self.files.len()
        &&& self.stage == ScanStage::Reading ==> self.current < self.files.len()
    }

    /// The scan in another stage.
    pub open spec fn at(self, stage: ScanStage) -> ScanV {
        ScanV { stage, ..self }
    }

    /// The scan after it went on to the next file, or handed over all that it
    /// found.
    pub open spec fn reading(self) -> ScanV {
        if self.current < self.files.len() {
            self.at(ScanStage::Reading)
        } else {
            ScanV { found: Seq::empty(), ..self.at(ScanStage::Finished) }
        }
    }
}

/// Whether an event is one that a stage waits for.
pub open spec fn expected(stage: ScanStage, event: ScanEvent) -> bool {
    match event {
        ScanEvent::Canonical(_) | ScanEvent::Missing | ScanEvent::ResolveFailed(_) => stage
            == ScanStage::Resolving,
        ScanEvent::Metadata(_) => stage == ScanStage::Checking,
        ScanEvent::Discovered(_) => stage == ScanStage::Discovering,
        ScanEvent::Cloned(_) => stage == ScanStage::Cloning,
        ScanEvent::Walked(_) | ScanEvent::WalkFailed(_) => stage == ScanStage::Walking,
        ScanEvent::Contents(_) | ScanEvent::ReadFailed(_) => stage == ScanStage::Reading,
    }
}

/// Whether the action ends the scan with an error.
pub open spec fn scan_failed(action: ScanAction) -> bool {
    action is Done && action->Done_0 is Err
}

/// The error that the action ends the scan with.
pub open spec fn scan_failure(action: ScanAction) -> ScanFilesError {
    action->Done_0->Err_0.repr()
}

/// Whether the action is to look for the repository at a path.
pub open spec fn discovers(path: Seq<char>, action: ScanAction) -> bool {
    action is Discover && action->Discover_0@ == path
}

/// Whether the action is to clone the repository to a path.
pub open spec fn clones(path: Seq<char>, action: ScanAction) -> bool {
    match action {
        ScanAction::Clone { url, path: at } => url@ == LIBC_REPO@ && at@ == path,
        _ => false,
    }
}

/// Whether the action is to walk the sources of the repository at a path.
pub open spec fn walks(path: Seq<char>, action: ScanAction) -> bool {
    match action {
        ScanAction::Walk { root, dir } => root@ == path && dir@ == "src"@,
        _ => false,
    }
}

/// Whether the action is to read the file at hand, if one is left, and to hand
/// over all the constants otherwise.
pub open spec fn reads_on(s: ScanV, action: ScanAction) -> bool {
    if s.current < s.files.len() {
        action is Read && action->Read_0@ == s.files[s.current]
    } else {
        &&& action is Done
        &&& action->Done_0 is Ok
        &&& action->Done_0->Ok_0@ == s.found.map_values(
            |c: ConstV| EntryV { constant: c, modified: false },
        )
        &&& action->Done_0->Ok_0.known() == Set::<Seq<char>>::empty()
    }
}

impl Scan {
    fn finish(&mut self, err: ScanError) -> (r: ScanAction)
        ensures
            final(self)@ == old(self)@.at(ScanStage::Finished),
            r == ScanAction::Done(Err(err)),
    {
        self.stage = ScanStage::Finished;
        ScanAction::Done(Err(err))
    }

    /// Goes on once it is known whether the path holds the `libc` crate: if so,
    /// the repository is to be there, and otherwise the scan ends.
    pub fn checked(&mut self, found: Result<(), ScanError>) -> (r: ScanAction)
        ensures
            match found {
                Ok(()) => {
                    &&& final(self)@ == old(self)@.at(ScanStage::Discovering)
                    &&& discovers(old(self)@.path, r)
                },
                Err(err) => {
                    &&& final(self)@ == old(self)@.at(ScanStage::Finished)
                    &&& r == ScanAction::Done(Err(err))
                },
            },
    {
        match found {
            Ok(()) => {
                self.stage = ScanStage::Discovering;
                ScanAction::Discover(self.path.clone())
            },
            Err(err) => self.finish(err),
        }
    }

    fn walk(&mut self) -> (r: ScanAction)
        ensures
            final(self)@ == old(self)@.at(ScanStage::Walking),
            walks(old(self)@.path, r),
    {
        self.stage = ScanStage::Walking;
        ScanAction::Walk { root: self.path.clone(), dir: "src" }
    }

    fn read_on(&mut self) -> (r: ScanAction)
        requires
            0 <= old(self)@.current <= old(self)@.files.len(),
        ensures
            final(self)@ == old(self)@.reading(),
            reads_on(old(self)@, r),
    {
        if self.current < self.files.len() {
            self.stage = ScanStage::Reading;
            assert(texts(self.files@)[self.current as int] == self.files@[self.current as int]@);
            ScanAction::Read(self.files[self.current].clone())
        } else {
            self.stage = ScanStage::Finished;
            let mut found = ConstContainerBuilder::new();
            std::mem::swap(&mut found, &mut self.found);
            ScanAction::Done(Ok(found.finish()))
        }
    }

    /// Begins with the path.
    pub fn begin(&mut self) -> (r: ScanAction)
        requires
            old(self)@.wf(),
            old(self)@.stage == ScanStage::Idle,
        ensures
            final(self)@ == old(self)@.at(ScanStage::Resolving),
            final(self)@.wf(),
            r is Canonicalize,
            r->Canonicalize_0@ == old(self)@.path,
    {
        self.stage = ScanStage::Resolving;
        ScanAction::Canonicalize(self.path.clone())
    }

    /// What the scan waits for.
    pub fn stage(&self) -> (r: ScanStage)
        ensures
            r == self@.stage,
    {
        self.stage
    }

    fn discovered(&mut self, outcome: DiscoverOutcome) -> (r: ScanAction)
        ensures
            match outcome {
                DiscoverOutcome::Found => {
                    &&& final(self)@ == old(self)@.at(ScanStage::Walking)
                    &&& walks(old(self)@.path, r)
                },
                DiscoverOutcome::Failed(err) => {
                    &&& final(self)@ == old(self)@.at(ScanStage::Finished)
                    &&& scan_failed(r)
                    &&& scan_failure(r) is RepoError
                    &&& undiscovered(
                        DiscoverRepoError::Error(scan_failure(r)->RepoError_0),
                        old(self)@.path,
                        discover_kind(err),
                    )
                },
                DiscoverOutcome::TaskFailed(message) => {
                    &&& final(self)@ == old(self)@.at(ScanStage::Finished)
                    &&& scan_failed(r)
                    &&& scan_failure(r) == ScanFilesError::Other(message)
                },
            },
    {
        match discover_repo(self.path.as_str(), outcome) {
            Ok(()) => self.walk(),
            Err(err) => self.finish(ScanError::from_discover(err)),
        }
    }

    fn cloned(&mut self, outcome: CloneOutcome) -> (r: ScanAction)
        ensures
            outcome is Cloned ==> {
                &&& final(self)@ == old(self)@.at(ScanStage::Walking)
                &&& walks(old(self)@.path, r)
            },
            !(outcome is Cloned) ==> {
                &&& final(self)@ == old(self)@.at(ScanStage::Finished)
                &&& scan_failed(r)
                &&& clone_failure(outcome, old(self)@.path, scan_failure(r))
            },
    {
        match clone_repo(self.path.as_str(), outcome) {
            Ok(()) => self.walk(),
            Err(err) => self.finish(ScanError::from_clone(err)),
        }
    }

    /// Takes in the constants of the file at hand.
    fn parse(&mut self, contents: String) -> (r: ScanAction)
        requires
            old(self)@.wf(),
            old(self)@.stage == ScanStage::Reading,
        ensures
            match contained(contents@, old(self)@.files[old(self)@.current]) {
                Some(found) => {
                    let next = ScanV {
                        current: old(self)@.current + 1,
                        found: old(self)@.found + found,
                        ..old(self)@
                    };
                    &&& final(self)@ == next.reading()
                    &&& reads_on(next, r)
                },
                None => {
                    &&& final(self)@ == old(self)@.at(ScanStage::Finished)
                    &&& scan_failed(r)
                    &&& scan_failure(r) is ParseError
                    &&& scan_failure(r)->ParseError_0@ == old(self)@.files[old(self)@.current]
                },
            },
            final(self)@.wf(),
    {
        assert(texts(self.files@)[self.current as int] == self.files@[self.current as int]@);
        assert(self.current < self.files.len());
        let path: String = self.files[self.current].clone();
        let parsed: Option<ConstContainerBuilder> = match SourceFile::parse(
            contents.as_str(),
            path.as_str(),
        ) {
            Some(file) => parse_constants(&file),
            None => None,
        };
        match parsed {
            Some(found) => {
                self.found.extend(found);
                self.current += 1;
                self.read_on()
            },
            None => self.finish(
                ScanError::from_fetch_parse(FetchParseError::ParsingFailed(path)),
            ),
        }
    }
}

/// Whether the error is what comes of a failure to clone.
pub open spec fn clone_failure(
    outcome: CloneOutcome,
    path: Seq<char>,
    err: ScanFilesError,
) -> bool {
    match outcome {
        CloneOutcome::Cloned => false,
        CloneOutcome::PrepareFailed(why) => err is RepoError && uncloned(
            CloneRepoError::Error(err->RepoError_0),
            path,
            prepare_kind(why),
        ),
        CloneOutcome::FetchFailed(why) => err is RepoError && uncloned(
            CloneRepoError::Error(err->RepoError_0),
            path,
            fetch_kind(why),
        ),
        CloneOutcome::CheckoutFailed(message) => err is RepoError && uncloned(
            CloneRepoError::Error(err->RepoError_0),
            path,
            CloneErrorKind::Other(message),
        ),
        CloneOutcome::TaskFailed(message) => err == ScanFilesError::Other(message),
    }
}

/// Whether the action is what follows from the event, and `after` is the scan then.
///
/// A path that exists has to hold the `libc` crate, and to be in a repository. Only
/// a path that does not exist is cloned to. The sources are read one after the
/// other, and the first failure ends the scan.
pub open spec fn answers(s: ScanV, event: ScanEvent, after: ScanV, action: ScanAction) -> bool {
    match event {
        ScanEvent::Canonical(path) => {
            &&& after == s.at(ScanStage::Checking)
            &&& action is QueryMetadata
            &&& action->QueryMetadata_0@ == path@
        },
        ScanEvent::Missing => after == s.at(ScanStage::Cloning) && clones(s.path, action),
        ScanEvent::ResolveFailed(message) => {
            &&& after == s.at(ScanStage::Finished)
            &&& scan_failed(action)
            &&& scan_failure(action) == ScanFilesError::IoBound(message)
        },
        ScanEvent::Metadata(output) => if action is Discover {
            &&& after == s.at(ScanStage::Discovering)
            &&& discovers(s.path, action)
            &&& borne_out(output, Ok(()))
        } else {
            &&& after == s.at(ScanStage::Finished)
            &&& scan_failed(action)
            &&& borne_out(output, Err(action->Done_0->Err_0))
        },
        ScanEvent::Discovered(outcome) => match outcome {
            DiscoverOutcome::Found => after == s.at(ScanStage::Walking) && walks(s.path, action),
            DiscoverOutcome::Failed(err) => {
                &&& after == s.at(ScanStage::Finished)
                &&& scan_failed(action)
                &&& scan_failure(action) is RepoError
                &&& undiscovered(
                    DiscoverRepoError::Error(scan_failure(action)->RepoError_0),
                    s.path,
                    discover_kind(err),
                )
            },
            DiscoverOutcome::TaskFailed(message) => {
                &&& after == s.at(ScanStage::Finished)
                &&& scan_failed(action)
                &&& scan_failure(action) == ScanFilesError::Other(message)
            },
        },
        ScanEvent::Cloned(outcome) => if outcome is Cloned {
            after == s.at(ScanStage::Walking) && walks(s.path, action)
        } else {
            &&& after == s.at(ScanStage::Finished)
            &&& scan_failed(action)
            &&& clone_failure(outcome, s.path, scan_failure(action))
        },
        ScanEvent::Walked(entries) => {
            let next = ScanV { files: sources(entries@), current: 0, ..s };
            after == next.reading() && reads_on(next, action)
        },
        ScanEvent::WalkFailed(message) => {
            &&& after == s.at(ScanStage::Finished)
            &&& scan_failed(action)
            &&& scan_failure(action) == ScanFilesError::Other(message)
        },
        ScanEvent::Contents(contents) => match contained(contents@, s.files[s.current]) {
            Some(found) => {
                let next = ScanV { current: s.current + 1, found: s.found + found, ..s };
                after == next.reading() && reads_on(next, action)
            },
            None => {
                &&& after == s.at(ScanStage::Finished)
                &&& scan_failed(action)
                &&& scan_failure(action) is ParseError
                &&& scan_failure(action)->ParseError_0@ == s.files[s.current]
            },
        },
        ScanEvent::ReadFailed(message) => {
            &&& after == s.at(ScanStage::Finished)
            &&& scan_failed(action)
            &&& scan_failure(action) == ScanFilesError::IoBound(message)
        },
    }
}

impl Scan {
    /// Goes on after what was to be done is done.
    pub fn step(&mut self, event: ScanEvent) -> (r: ScanAction)
        requires
            old(self)@.wf(),
            expected(old(self)@.stage, event),
        ensures
            final(self)@.wf(),
            answers(old(self)@, event, final(self)@, r),
    {
        match event {
            ScanEvent::Canonical(path) => {
                self.stage = ScanStage::Checking;
                ScanAction::QueryMetadata(path)
            },
            ScanEvent::Missing => {
                self.stage = ScanStage::Cloning;
                ScanAction::Clone { url: LIBC_REPO, path: self.path.clone() }
            },
            ScanEvent::ResolveFailed(message) => self.finish(
                ScanError::new(ScanFilesError::IoBound(message)),
            ),
            ScanEvent::Metadata(output) => self.checked(ensure_libc(output)),
            ScanEvent::Discovered(outcome) => self.discovered(outcome),
            ScanEvent::Cloned(outcome) => self.cloned(outcome),
            ScanEvent::Walked(entries) => {
                self.files = fetch_details(&entries);
                self.current = 0;
                self.read_on()
            },
            ScanEvent::WalkFailed(message) => self.finish(
                ScanError::from_fetch_parse(FetchParseError::Other(message)),
            ),
            ScanEvent::Contents(contents) => self.parse(contents),
            ScanEvent::ReadFailed(message) => self.finish(
                ScanError::from_fetch_parse(FetchParseError::IoBound(message)),
            ),
        }
    }
}

/// The constants of the first files, in the order of the files.
pub open spec fn gathered(
    files: Seq<Seq<char>>,
    contents: Seq<Seq<char>>,
    upto: int,
) -> Seq<ConstV>
    decreases upto,
{
    if upto <= 0 {
        Seq::empty()
    } else {
        gathered(files, contents, upto - 1) + contained(
            contents[upto - 1],
            files[upto - 1],
        )->0
    }
}

/// A scan that has read the first of the files has found their constants, and
/// hands over those of all files in the end.
pub proof fn law_scan_gathers(
    s: ScanV,
    contents: Seq<Seq<char>>,
    event: ScanEvent,
    after: ScanV,
    action: ScanAction,
)
    requires
        s.wf(),
        s.stage == ScanStage::Reading,
        s.found == gathered(s.files, contents, s.current),
        event is Contents,
        event->Contents_0@ == contents[s.current],
        contained(contents[s.current], s.files[s.current]) is Some,
        answers(s, event, after, action),
    ensures
        after.stage == ScanStage::Reading ==> after.found == gathered(
            s.files,
            contents,
            after.current,
        ),
        after.stage != ScanStage::Reading ==> {
            &&& action is Done
            &&& action->Done_0 is Ok
            &&& action->Done_0->Ok_0@ == gathered(
                s.files,
                contents,
                s.files.len() as int,
            ).map_values(|c: ConstV| EntryV { constant: c, modified: false })
        },
{
}

/// A scan only ends well once it got hold of a repository and read all its files.
pub proof fn law_scan_succeeds(s: ScanV, event: ScanEvent, after: ScanV, action: ScanAction)
    requires
        s.wf(),
        expected(s.stage, event),
        answers(s, event, after, action),
        action is Done,
        action->Done_0 is Ok,
    ensures
        s.stage == ScanStage::Walking || s.stage == ScanStage::Reading,
        after.stage == ScanStage::Finished,
        after.current == after.files.len(),
{
}

/// Upstream is only cloned to a path that does not exist.
pub proof fn law_existing_not_cloned(s: ScanV, event: ScanEvent, after: ScanV, action: ScanAction)
    requires
        s.wf(),
        expected(s.stage, event),
        answers(s, event, after, action),
        action is Clone,
    ensures
        event == ScanEvent::Missing,
{
}

/// Scans the `libc` codebase in the provided path, cloning it from upstream if the
/// path does not exist.
pub fn scan(libc_path: &str) -> (r: Scan)
    ensures
        r@ == (ScanV {
            path: libc_path@,
            stage: ScanStage::Idle,
            files: Seq::empty(),
            current: 0,
            found: Seq::empty(),
        }),
        r@.wf(),
{
    let files: Vec<String> = Vec::new();
    assert(texts(files@) =~= Seq::empty());
    Scan {
        path: libc_path.to_owned(),
        stage: ScanStage::Idle,
        files,
        current: 0,
        found: ConstContainerBuilder::new(),
    }
}

} // verus!

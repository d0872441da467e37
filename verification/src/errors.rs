//! What can go wrong while finding, filtering and rewriting constants.
//!
//! Errors of the operating system, of git and of background tasks are held by
//! the message that they print; paths are held as text.

use crate::text::joined;
use vstd::prelude::*;

verus! {

/// Why a repository was not found.
#[derive(Debug)]
pub enum DiscoverErrorKind {
    NoRepository,
    InvalidDir(Option<String>),
    InvalidRepoConfig,
    WrongUtf8,
    Other(String),
}

/// Why a repository was not cloned.
#[derive(Debug)]
pub enum CloneErrorKind {
    DirectoryNotEmpty,
    InvalidRepoConfig,
    LibcUrl,
    IllegalUtf8,
    IoBound(String),
    Other(String),
}

/// A failure to get hold of the repository at some path.
#[allow(inconsistent_fields)]
#[derive(Debug)]
pub enum RepoErrorRepr {
    Discover { path: String, kind: DiscoverErrorKind },
    Clone { path: String, kind: CloneErrorKind },
    /// The task that was to get hold of it broke down.
    Other(String),
}

/// `; ` and the message.
pub open spec fn detail(message: Seq<char>) -> Seq<char> {
    "; "@ + message
}

impl DiscoverErrorKind {
    /// What this kind adds to the message of a failed discovery.
    pub open spec fn suffix(self) -> Seq<char> {
        match self {
            DiscoverErrorKind::NoRepository => "; no repo found within it or upwards"@,
            DiscoverErrorKind::InvalidDir(Some(source)) => detail(source@),
            DiscoverErrorKind::InvalidDir(None) => Seq::<char>::empty(),
            DiscoverErrorKind::InvalidRepoConfig => "; git config in repo is not valid"@,
            DiscoverErrorKind::WrongUtf8 => "; found invalid utf-8 in path"@,
            DiscoverErrorKind::Other(message) => detail(message@),
        }
    }

    fn explained(&self) -> (r: String)
        ensures
            r@ == self.suffix(),
    {
        match self {
            DiscoverErrorKind::NoRepository => "; no repo found within it or upwards".to_owned(),
            DiscoverErrorKind::InvalidDir(source) => match source {
                Some(message) => joined("; ", message.as_str()),
                None => String::new(),
            },
            DiscoverErrorKind::InvalidRepoConfig => "; git config in repo is not valid".to_owned(),
            DiscoverErrorKind::WrongUtf8 => "; found invalid utf-8 in path".to_owned(),
            DiscoverErrorKind::Other(message) => joined("; ", message.as_str()),
        }
    }
}

impl CloneErrorKind {
    /// What this kind adds to the message of a failed clone.
    pub open spec fn suffix(self) -> Seq<char> {
        match self {
            CloneErrorKind::LibcUrl => "; libc repo url is wrong; report this to the maintainer"@,
            CloneErrorKind::InvalidRepoConfig => "; git repo config is not valid"@,
            CloneErrorKind::DirectoryNotEmpty => "; directory not empty"@,
            CloneErrorKind::IllegalUtf8 => "; found invalid utf-8 in path"@,
            CloneErrorKind::IoBound(message) => detail(message@),
            CloneErrorKind::Other(message) => detail(message@),
        }
    }

    fn explained(&self) -> (r: String)
        ensures
            r@ == self.suffix(),
    {
        match self {
            CloneErrorKind::LibcUrl =>
                "; libc repo url is wrong; report this to the maintainer".to_owned(),
            CloneErrorKind::InvalidRepoConfig => "; git repo config is not valid".to_owned(),
            CloneErrorKind::DirectoryNotEmpty => "; directory not empty".to_owned(),
            CloneErrorKind::IllegalUtf8 => "; found invalid utf-8 in path".to_owned(),
            CloneErrorKind::IoBound(message) => joined("; ", message.as_str()),
            CloneErrorKind::Other(message) => joined("; ", message.as_str()),
        }
    }
}

impl RepoErrorRepr {
    /// The message of this error: what was tried, on which path, and why it
    /// failed.
    pub open spec fn text(self) -> Seq<char> {
        match self {
            RepoErrorRepr::Discover { path, kind } => "failed to discover repo at path: "@ + path@
                + kind.suffix(),
            RepoErrorRepr::Clone { path, kind } => "failed to clone repo to path: "@ + path@
                + kind.suffix(),
            RepoErrorRepr::Other(message) => message@,
        }
    }

    /// Prints the error.
    pub fn error(&self) -> (r: String)
        ensures
            r@ == self.text(),
    {
        match self {
            RepoErrorRepr::Discover { path, kind } => {
                let head: String = joined("failed to discover repo at path: ", path.as_str());
                joined(head.as_str(), kind.explained().as_str())
            },
            RepoErrorRepr::Clone { path, kind } => {
                let head: String = joined("failed to clone repo to path: ", path.as_str());
                joined(head.as_str(), kind.explained().as_str())
            },
            RepoErrorRepr::Other(message) => message.clone(),
        }
    }
}

/// How looking for the repository ended, other than well: with an error of the
/// repository's, or because the task that looked for it failed.
#[derive(Debug)]
pub enum DiscoverRepoError {
    Error(RepoErrorRepr),
    Task(String),
}

/// How cloning the repository ended, other than well: with an error of the
/// repository's, or because the task that cloned it failed.
#[derive(Debug)]
pub enum CloneRepoError {
    Error(RepoErrorRepr),
    Task(String),
}

/// How listing and parsing the source files ended, other than well.
#[derive(Debug)]
pub enum FetchParseError {
    ParsingFailed(String),
    IoBound(String),
    Other(String),
}

/// The conditions under which a scan fails.
#[derive(Debug)]
pub enum ScanFilesError {
    RepoError(RepoErrorRepr),
    ParseError(String),
    IoBound(String),
    NotLibcRepo,
    /// The directory of the repository could not be entered.
    PwdSetting(String),
    /// There is no telling which packages are at the path.
    WorkspaceScanning(String),
    /// None of the packages at the path is `libc`.
    NoLibc(String),
    Other(String),
}

impl ScanFilesError {
    /// The message of this error.
    pub open spec fn text(self) -> Seq<char> {
        match self {
            ScanFilesError::RepoError(repo) => repo.text(),
            ScanFilesError::ParseError(path) => "failed parsing rust source file `"@ + path@ + "`"@,
            ScanFilesError::IoBound(message) => "internal io error: `"@ + message@ + "`"@,
            ScanFilesError::NotLibcRepo => "path was not libc repo"@,
            ScanFilesError::PwdSetting(message) => "failed entering repo: `"@ + message@ + "`"@,
            ScanFilesError::WorkspaceScanning(path) => "failed scanning workspace at path: "@
                + path@,
            ScanFilesError::NoLibc(path) => "no libc package found at path: "@ + path@,
            ScanFilesError::Other(message) => message@,
        }
    }

    /// Prints the error.
    pub fn error(&self) -> (r: String)
        ensures
            r@ == self.text(),
    {
        match self {
            ScanFilesError::RepoError(repo) => repo.error(),
            ScanFilesError::ParseError(path) => {
                let head: String = joined("failed parsing rust source file `", path.as_str());
                joined(head.as_str(), "`")
            },
            ScanFilesError::IoBound(message) => {
                let head: String = joined("internal io error: `", message.as_str());
                joined(head.as_str(), "`")
            },
            ScanFilesError::NotLibcRepo => "path was not libc repo".to_owned(),
            ScanFilesError::PwdSetting(message) => {
                let head: String = joined("failed entering repo: `", message.as_str());
                joined(head.as_str(), "`")
            },
            ScanFilesError::WorkspaceScanning(path) => {
                joined("failed scanning workspace at path: ", path.as_str())
            },
            ScanFilesError::NoLibc(path) => {
                joined("no libc package found at path: ", path.as_str())
            },
            ScanFilesError::Other(message) => message.clone(),
        }
    }
}

/// Represents an error condition while parsing the codebase.
///
/// The error is produced when something git-related fails, or if the constants
/// fail to parse. Otherwise the error is deemed to be I/O-bound or task-bound.
#[derive(Debug)]
pub struct ScanError(ScanFilesError);

impl ScanError {
    /// The condition that this error stands for.
    pub closed spec fn repr(self) -> ScanFilesError {
        self.0
    }

    pub fn new(repr: ScanFilesError) -> (r: Self)
        ensures
            r.repr() == repr,
    {
        ScanError(repr)
    }

    /// The condition that this error stands for.
    pub fn kind(&self) -> (r: &ScanFilesError)
        ensures
            *r == self.repr(),
    {
        &self.0
    }

    /// Prints the error.
    pub fn error(&self) -> (r: String)
        ensures
            r@ == self.repr().text(),
    {
        self.0.error()
    }

    /// The error of a scan whose repository was not found: the repository's own
    /// error, or that of the task.
    pub fn from_discover(err: DiscoverRepoError) -> (r: Self)
        ensures
            r.repr() == (match err {
                DiscoverRepoError::Error(repo) => ScanFilesError::RepoError(repo),
                DiscoverRepoError::Task(message) => ScanFilesError::Other(message),
            }),
    {
        match err {
            DiscoverRepoError::Error(repo) => ScanError(ScanFilesError::RepoError(repo)),
            DiscoverRepoError::Task(message) => ScanError(ScanFilesError::Other(message)),
        }
    }

    /// The error of a scan whose repository was not cloned: the repository's own
    /// error, or that of the task.
    pub fn from_clone(err: CloneRepoError) -> (r: Self)
        ensures
            r.repr() == (match err {
                CloneRepoError::Error(repo) => ScanFilesError::RepoError(repo),
                CloneRepoError::Task(message) => ScanFilesError::Other(message),
            }),
    {
        match err {
            CloneRepoError::Error(repo) => ScanError(ScanFilesError::RepoError(repo)),
            CloneRepoError::Task(message) => ScanError(ScanFilesError::Other(message)),
        }
    }

    /// The error of a scan whose files were not listed or parsed.
    pub fn from_fetch_parse(err: FetchParseError) -> (r: Self)
        ensures
            r.repr() == (match err {
                FetchParseError::ParsingFailed(path) => ScanFilesError::ParseError(path),
                FetchParseError::IoBound(message) => ScanFilesError::IoBound(message),
                FetchParseError::Other(message) => ScanFilesError::Other(message),
            }),
    {
        match err {
            FetchParseError::ParsingFailed(path) => ScanError(ScanFilesError::ParseError(path)),
            FetchParseError::IoBound(message) => ScanError(ScanFilesError::IoBound(message)),
            FetchParseError::Other(message) => ScanError(ScanFilesError::Other(message)),
        }
    }
}

/// Why a regex could not be used.
#[derive(Debug)]
pub enum FilterErrorRepr {
    RegexTooBig(String),
    RegexSyntax(String),
}

impl FilterErrorRepr {
    /// The regex that the error came from.
    pub open spec fn source(self) -> Seq<char> {
        match self {
            FilterErrorRepr::RegexTooBig(re) => re@,
            FilterErrorRepr::RegexSyntax(re) => re@,
        }
    }

    /// The regex that the error came from.
    pub fn source_re(&self) -> (r: &str)
        ensures
            r@ == self.source(),
    {
        match self {
            FilterErrorRepr::RegexTooBig(re) => re.as_str(),
            FilterErrorRepr::RegexSyntax(re) => re.as_str(),
        }
    }
}

/// Represents an error condition when filtering constants with a regex: it was
/// too big once compiled, or it did not parse.
#[derive(Debug)]
pub struct FilterError(FilterErrorRepr);

impl FilterError {
    /// The condition that this error stands for.
    pub closed spec fn repr(self) -> FilterErrorRepr {
        self.0
    }

    pub fn new(repr: FilterErrorRepr) -> (r: Self)
        ensures
            r.repr() == repr,
    {
        FilterError(repr)
    }

    /// The condition that this error stands for.
    pub fn kind(&self) -> (r: &FilterErrorRepr)
        ensures
            *r == self.repr(),
    {
        &self.0
    }

    /// Fetches the source regex with which the error was produced and returns a
    /// reference to the underlying string slice.
    pub fn source_re(&self) -> (r: &str)
        ensures
            r@ == self.repr().source(),
    {
        self.0.source_re()
    }

    /// Prints the error.
    pub fn error(&self) -> (r: String)
        ensures
            r@ == (match self.repr() {
                FilterErrorRepr::RegexTooBig(_) => "regex byte size exceeds 2^20 bytes"@,
                FilterErrorRepr::RegexSyntax(_) => "failed to parse regex"@,
            }),
    {
        match &self.0 {
            FilterErrorRepr::RegexTooBig(_) => "regex byte size exceeds 2^20 bytes".to_owned(),
            FilterErrorRepr::RegexSyntax(_) => "failed to parse regex".to_owned(),
        }
    }
}

/// Which of the two file operations of a change failed.
#[derive(Debug, Clone, Copy, PartialEq, Eq, Structural)]
pub enum ChangesKindRepr {
    FetchOp,
    SaveOp,
}

/// Which of the two file operations of a change failed.
#[derive(Debug, Clone, Copy)]
pub struct ChangesKind {
    repr: ChangesKindRepr,
}

impl ChangesKind {
    pub closed spec fn op(self) -> ChangesKindRepr {
        self.repr
    }

    /// Reading the file.
    pub fn fetch() -> (r: Self)
        ensures
            r.op() == ChangesKindRepr::FetchOp,
    {
        ChangesKind { repr: ChangesKindRepr::FetchOp }
    }

    /// Writing the file.
    pub fn save() -> (r: Self)
        ensures
            r.op() == ChangesKindRepr::SaveOp,
    {
        ChangesKind { repr: ChangesKindRepr::SaveOp }
    }

    /// This operation on the file at `path`.
    pub fn to_changes_src(self, path: String) -> (r: ChangesSrc)
        ensures
            r.op() == self.op(),
            r.path_text() == path@,
    {
        match self.repr {
            ChangesKindRepr::FetchOp => ChangesSrc::fetch(path),
            ChangesKindRepr::SaveOp => ChangesSrc::save(path),
        }
    }
}

/// The file operation that failed, and the file.
#[derive(Debug)]
enum ChangesSrcRepr {
    FetchOp(String),
    SaveOp(String),
}

/// What came of handing a path to one of two functions.
#[derive(Debug)]
pub enum Visited<T, U> {
    Fetch(T),
    Save(U),
}

/// Whether `t` is what `f` may return for the text `path`.
pub open spec fn came_of<T, F: FnOnce(&str) -> T>(f: F, path: Seq<char>, t: T) -> bool {
    exists|p: &str| p@ == path && #[trigger] call_ensures(f, (p,), t)
}

/// The file operation that failed, and the file.
#[derive(Debug)]
pub struct ChangesSrc {
    repr: ChangesSrcRepr,
}

impl ChangesSrc {
    pub closed spec fn op(self) -> ChangesKindRepr {
        match self.repr {
            ChangesSrcRepr::FetchOp(_) => ChangesKindRepr::FetchOp,
            ChangesSrcRepr::SaveOp(_) => ChangesKindRepr::SaveOp,
        }
    }

    pub closed spec fn path_text(self) -> Seq<char> {
        match self.repr {
            ChangesSrcRepr::FetchOp(path) => path@,
            ChangesSrcRepr::SaveOp(path) => path@,
        }
    }

    /// The operation `kind` on the file at `path`.
    pub fn new(kind: ChangesKind, path: String) -> (r: Self)
        ensures
            r.op() == kind.op(),
            r.path_text() == path@,
    {
        kind.to_changes_src(path)
    }

    /// Reading the file at `path`.
    pub fn fetch(path: String) -> (r: Self)
        ensures
            r.op() == ChangesKindRepr::FetchOp,
            r.path_text() == path@,
    {
        ChangesSrc { repr: ChangesSrcRepr::FetchOp(path) }
    }

    /// Writing the file at `path`.
    pub fn save(path: String) -> (r: Self)
        ensures
            r.op() == ChangesKindRepr::SaveOp,
            r.path_text() == path@,
    {
        ChangesSrc { repr: ChangesSrcRepr::SaveOp(path) }
    }

    /// The file.
    pub fn path(&self) -> (r: &str)
        ensures
            r@ == self.path_text(),
    {
        match &self.repr {
            ChangesSrcRepr::FetchOp(path) => path.as_str(),
            ChangesSrcRepr::SaveOp(path) => path.as_str(),
        }
    }

    /// Hands the path to the function for the operation that failed.
    pub fn with_path<T, U, F: FnOnce(&str) -> T, G: FnOnce(&str) -> U>(
        &self,
        fetch: F,
        save: G,
    ) -> (r: Visited<T, U>)
        requires
            forall|p: &str| p@ == self.path_text() && self.op() is FetchOp ==> call_requires(
                fetch,
                (p,),
            ),
            forall|p: &str| p@ == self.path_text() && self.op() is SaveOp ==> call_requires(
                save,
                (p,),
            ),
        ensures
            r is Fetch <==> self.op() is FetchOp,
            r matches Visited::Fetch(t) ==> came_of(fetch, self.path_text(), t),
            r matches Visited::Save(u) ==> came_of(save, self.path_text(), u),
    {
        match &self.repr {
            ChangesSrcRepr::FetchOp(path) => {
                let p: &str = path.as_str();
                let t: T = fetch(p);
                assert(came_of(fetch, self.path_text(), t));
                Visited::Fetch(t)
            },
            ChangesSrcRepr::SaveOp(path) => {
                let p: &str = path.as_str();
                let u: U = save(p);
                assert(came_of(save, self.path_text(), u));
                Visited::Save(u)
            },
        }
    }
}

/// An I/O error while effecting changes: the operation, the file, and the
/// message of the error.
#[derive(Debug)]
pub struct IoBoundChanges {
    origin: ChangesSrc,
    inner: String,
}

impl IoBoundChanges {
    pub closed spec fn op(self) -> ChangesKindRepr {
        self.origin.op()
    }

    pub closed spec fn path_text(self) -> Seq<char> {
        self.origin.path_text()
    }

    pub closed spec fn message(self) -> Seq<char> {
        self.inner@
    }

    /// What was being done when the error came.
    pub open spec fn text(self) -> Seq<char> {
        match self.op() {
            ChangesKindRepr::FetchOp => "fetching file "@ + self.path_text(),
            ChangesKindRepr::SaveOp => "saving file "@ + self.path_text(),
        }
    }

    pub fn new(path: String, inner: String, kind: ChangesKind) -> (r: Self)
        ensures
            r.op() == kind.op(),
            r.path_text() == path@,
            r.message() == inner@,
    {
        IoBoundChanges { origin: ChangesSrc::new(kind, path), inner }
    }

    /// Prints what was being done when the error came.
    pub fn error(&self) -> (r: String)
        ensures
            r@ == self.text(),
    {
        let fetch = |path: &str| -> (s: String)
            ensures
                s@ == "fetching file "@ + path@,
            { joined("fetching file ", path) };
        let save = |path: &str| -> (s: String)
            ensures
                s@ == "saving file "@ + path@,
            { joined("saving file ", path) };
        match self.origin.with_path(fetch, save) {
            Visited::Fetch(s) => s,
            Visited::Save(s) => s,
        }
    }

    /// The message of the I/O error.
    pub fn source_io(&self) -> (r: &str)
        ensures
            r@ == self.message(),
    {
        self.inner.as_str()
    }

    /// The file that the error came from.
    pub fn source_path(&self) -> (r: &str)
        ensures
            r@ == self.path_text(),
    {
        self.origin.path()
    }

    /// The file that the error came from.
    pub fn source(&self) -> (r: &str)
        ensures
            r@ == self.path_text(),
    {
        self.origin.path()
    }
}

/// The conditions under which effecting changes fails.
#[derive(Debug)]
pub enum MakeChangesErrorRepr {
    IoBound(IoBoundChanges),
    Parse(String),
    Other(String),
}

/// Represents errors that have taken place as part of effecting changes to disk.
#[derive(Debug)]
pub struct MakeChangesError(MakeChangesErrorRepr);

impl MakeChangesError {
    /// The condition that this error stands for.
    pub closed spec fn repr(self) -> MakeChangesErrorRepr {
        self.0
    }

    pub fn new(repr: MakeChangesErrorRepr) -> (r: Self)
        ensures
            r.repr() == repr,
    {
        MakeChangesError(repr)
    }

    /// The condition that this error stands for.
    pub fn kind(&self) -> (r: &MakeChangesErrorRepr)
        ensures
            *r == self.repr(),
    {
        &self.0
    }

    /// Returns the source path where an underlying I/O error took place if the
    /// underlying error is, indeed, an I/O error.
    ///
    /// Returns `None` if the underlying error is not an I/O error.
    pub fn io_source(&self) -> (r: Option<&str>)
        ensures
            match self.repr() {
                MakeChangesErrorRepr::IoBound(ch) => r matches Some(path) && path@
                    == ch.path_text(),
                _ => r is None,
            },
    {
        match &self.0 {
            MakeChangesErrorRepr::IoBound(ch) => Some(ch.source_path()),
            _ => None,
        }
    }

    /// Prints the error.
    pub fn error(&self) -> (r: String)
        ensures
            r@ == (match self.repr() {
                MakeChangesErrorRepr::IoBound(ch) => "io error while "@ + ch.text() + ": `"@
                    + ch.message() + "`"@,
                MakeChangesErrorRepr::Parse(path) => "failed to parse file: "@ + path@,
                MakeChangesErrorRepr::Other(message) => message@,
            }),
    {
        match &self.0 {
            MakeChangesErrorRepr::IoBound(ch) => {
                let head: String = joined("io error while ", ch.error().as_str());
                let middle: String = joined(head.as_str(), ": `");
                let body: String = joined(middle.as_str(), ch.source_io());
                joined(body.as_str(), "`")
            },
            MakeChangesErrorRepr::Parse(path) => joined("failed to parse file: ", path.as_str()),
            MakeChangesErrorRepr::Other(message) => message.clone(),
        }
    }
}

} // verus!

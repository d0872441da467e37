//! What the failures of git mean for a scan.

use crate::errors::{
    CloneErrorKind, CloneRepoError, DiscoverErrorKind, DiscoverRepoError, RepoErrorRepr,
};
use vstd::prelude::*;

verus! {

/// Where the repository is cloned from.
pub const LIBC_REPO: &'static str = "https://github.com/rust-lang/libc.git";

/// Why no repository was found in a directory or upwards from it. Failures that
/// are handed on come with their messages.
#[derive(Debug)]
pub enum UpwardsFailure {
    CurrentDir(String),
    InvalidInput,
    InaccessibleDirectory,
    NoMatchingCeilingDir,
    NoTrustedGitRepository(String),
    CheckTrust(String),
    NoGitRepository,
    NoGitRepositoryWithinFs,
    NoGitRepositoryWithinCeiling,
}

/// Why a repository could not be opened. Some failures come with the message of
/// what caused them beside their own.
#[derive(Debug)]
pub enum OpenFailure {
    Config,
    NotARepository { source: String },
    Io(String),
    UnsafeGitDir(String),
    EnvironmentAccessDenied { message: String, source: String },
    /// A path prefix is not UTF-8.
    PrefixIllegalUtf8,
    /// A path prefix is not relative for some other reason.
    PrefixNotRelative { message: String, source: String },
}

/// Why a repository was not discovered.
#[derive(Debug)]
pub enum DiscoverFailure {
    Upwards(UpwardsFailure),
    Open(OpenFailure),
}

/// Why the files of a new repository were not created.
#[derive(Debug)]
pub enum CreateFailure {
    CurrentDir(String),
    IoOpen(String),
    IoWrite(String),
    CreateDirectory(String),
    DirectoryExists,
    DirectoryNotEmpty,
}

/// Why a new repository was not set up.
#[derive(Debug)]
pub enum InitFailure {
    CurrentDir(String),
    Create(CreateFailure),
    Open(OpenFailure),
    InvalidBranchName,
    EditHeadForDefaultBranch(String),
}

/// Why a clone could not begin.
#[derive(Debug)]
pub enum PrepareFailure {
    Init(InitFailure),
    CommitterOrFallback,
    UrlParse,
    CanonicalizeUrl,
}

/// Why nothing was fetched.
#[derive(Debug)]
pub enum FetchFailure {
    InvalidRemoteRepositoryPath,
    /// The connection failed for some other reason.
    Connect(String),
    PrepareFetch(String),
    Fetch(String),
    RemoteUrl,
    RewrittenUrlInvalid,
    RemoteConfiguration(String),
    RemoteConnection(String),
    RemoteName,
    ParseConfig,
    ApplyConfig,
    CommitterOrFallback,
    LoadConfigIo(String),
    /// The configuration was not loaded for some other reason.
    LoadConfig(String),
    SaveConfig(String),
    SaveConfigIo(String),
    InvalidHeadRef(String),
    HeadUpdate(String),
    RefNameMissing(String),
    RefNameAmbiguous(String),
    RefMap(String),
    ReferenceName(String),
}

/// How looking for the repository went.
#[derive(Debug)]
pub enum DiscoverOutcome {
    Found,
    Failed(DiscoverFailure),
    /// The task that looked for it broke down.
    TaskFailed(String),
}

/// How cloning the repository went.
#[derive(Debug)]
pub enum CloneOutcome {
    Cloned,
    PrepareFailed(PrepareFailure),
    FetchFailed(FetchFailure),
    CheckoutFailed(String),
    /// The task that cloned it broke down.
    TaskFailed(String),
}

/// Directories that cannot be looked at are invalid, and a repository that is not
/// trusted is neither missing nor broken.
pub open spec fn upwards_kind(err: UpwardsFailure) -> DiscoverErrorKind {
    match err {
        UpwardsFailure::CurrentDir(message) => DiscoverErrorKind::InvalidDir(Some(message)),
        UpwardsFailure::InvalidInput => DiscoverErrorKind::InvalidDir(None),
        UpwardsFailure::InaccessibleDirectory => DiscoverErrorKind::InvalidDir(None),
        UpwardsFailure::NoMatchingCeilingDir => DiscoverErrorKind::InvalidDir(None),
        UpwardsFailure::NoTrustedGitRepository(message) => DiscoverErrorKind::Other(message),
        UpwardsFailure::CheckTrust(message) => DiscoverErrorKind::Other(message),
        UpwardsFailure::NoGitRepository => DiscoverErrorKind::NoRepository,
        UpwardsFailure::NoGitRepositoryWithinFs => DiscoverErrorKind::NoRepository,
        UpwardsFailure::NoGitRepositoryWithinCeiling => DiscoverErrorKind::NoRepository,
    }
}

/// What it means for a discovery that the repository cannot be opened.
pub open spec fn open_discovered_kind(err: OpenFailure) -> DiscoverErrorKind {
    match err {
        OpenFailure::Config => DiscoverErrorKind::InvalidRepoConfig,
        OpenFailure::NotARepository { source } => DiscoverErrorKind::NoRepository,
        OpenFailure::Io(message) => DiscoverErrorKind::InvalidDir(Some(message)),
        OpenFailure::UnsafeGitDir(message) => DiscoverErrorKind::Other(message),
        OpenFailure::EnvironmentAccessDenied { message, source } => DiscoverErrorKind::Other(
            message,
        ),
        OpenFailure::PrefixIllegalUtf8 => DiscoverErrorKind::WrongUtf8,
        OpenFailure::PrefixNotRelative { message, source } => DiscoverErrorKind::Other(message),
    }
}

pub open spec fn discover_kind(err: DiscoverFailure) -> DiscoverErrorKind {
    match err {
        DiscoverFailure::Upwards(err) => upwards_kind(err),
        DiscoverFailure::Open(err) => open_discovered_kind(err),
    }
}

/// What it means for a clone that the new repository cannot be opened: here it is
/// the cause that is handed on.
pub open spec fn open_cloned_kind(err: OpenFailure) -> CloneErrorKind {
    match err {
        OpenFailure::Config => CloneErrorKind::InvalidRepoConfig,
        OpenFailure::NotARepository { source } => CloneErrorKind::Other(source),
        OpenFailure::Io(message) => CloneErrorKind::IoBound(message),
        OpenFailure::UnsafeGitDir(message) => CloneErrorKind::Other(message),
        OpenFailure::EnvironmentAccessDenied { message, source } => CloneErrorKind::Other(source),
        OpenFailure::PrefixIllegalUtf8 => CloneErrorKind::IllegalUtf8,
        OpenFailure::PrefixNotRelative { message, source } => CloneErrorKind::Other(source),
    }
}

pub open spec fn create_kind(err: CreateFailure) -> CloneErrorKind {
    match err {
        CreateFailure::CurrentDir(message) => CloneErrorKind::IoBound(message),
        CreateFailure::IoOpen(message) => CloneErrorKind::IoBound(message),
        CreateFailure::IoWrite(message) => CloneErrorKind::IoBound(message),
        CreateFailure::CreateDirectory(message) => CloneErrorKind::IoBound(message),
        CreateFailure::DirectoryExists => CloneErrorKind::DirectoryNotEmpty,
        CreateFailure::DirectoryNotEmpty => CloneErrorKind::DirectoryNotEmpty,
    }
}

pub open spec fn init_kind(err: InitFailure) -> CloneErrorKind {
    match err {
        InitFailure::CurrentDir(message) => CloneErrorKind::IoBound(message),
        InitFailure::Create(err) => create_kind(err),
        InitFailure::Open(err) => open_cloned_kind(err),
        InitFailure::InvalidBranchName => CloneErrorKind::LibcUrl,
        InitFailure::EditHeadForDefaultBranch(message) => CloneErrorKind::Other(message),
    }
}

pub open spec fn prepare_kind(err: PrepareFailure) -> CloneErrorKind {
    match err {
        PrepareFailure::Init(err) => init_kind(err),
        PrepareFailure::CommitterOrFallback => CloneErrorKind::InvalidRepoConfig,
        PrepareFailure::UrlParse => CloneErrorKind::LibcUrl,
        PrepareFailure::CanonicalizeUrl => CloneErrorKind::LibcUrl,
    }
}

pub open spec fn fetch_kind(err: FetchFailure) -> CloneErrorKind {
    match err {
        FetchFailure::InvalidRemoteRepositoryPath => CloneErrorKind::LibcUrl,
        FetchFailure::RemoteUrl => CloneErrorKind::LibcUrl,
        FetchFailure::RewrittenUrlInvalid => CloneErrorKind::LibcUrl,
        FetchFailure::RemoteName => CloneErrorKind::InvalidRepoConfig,
        FetchFailure::ParseConfig => CloneErrorKind::InvalidRepoConfig,
        FetchFailure::ApplyConfig => CloneErrorKind::InvalidRepoConfig,
        FetchFailure::CommitterOrFallback => CloneErrorKind::InvalidRepoConfig,
        FetchFailure::LoadConfigIo(message) => CloneErrorKind::IoBound(message),
        FetchFailure::SaveConfigIo(message) => CloneErrorKind::IoBound(message),
        FetchFailure::Connect(message) => CloneErrorKind::Other(message),
        FetchFailure::PrepareFetch(message) => CloneErrorKind::Other(message),
        FetchFailure::Fetch(message) => CloneErrorKind::Other(message),
        FetchFailure::RemoteConfiguration(message) => CloneErrorKind::Other(message),
        FetchFailure::RemoteConnection(message) => CloneErrorKind::Other(message),
        FetchFailure::LoadConfig(message) => CloneErrorKind::Other(message),
        FetchFailure::SaveConfig(message) => CloneErrorKind::Other(message),
        FetchFailure::InvalidHeadRef(message) => CloneErrorKind::Other(message),
        FetchFailure::HeadUpdate(message) => CloneErrorKind::Other(message),
        FetchFailure::RefNameMissing(message) => CloneErrorKind::Other(message),
        FetchFailure::RefNameAmbiguous(message) => CloneErrorKind::Other(message),
        FetchFailure::RefMap(message) => CloneErrorKind::Other(message),
        FetchFailure::ReferenceName(message) => CloneErrorKind::Other(message),
    }
}

fn classify_upwards(err: UpwardsFailure) -> (r: DiscoverErrorKind)
    ensures
        r == upwards_kind(err),
{
    match err {
        UpwardsFailure::CurrentDir(message) => DiscoverErrorKind::InvalidDir(Some(message)),
        UpwardsFailure::InvalidInput
        | UpwardsFailure::InaccessibleDirectory
        | UpwardsFailure::NoMatchingCeilingDir => DiscoverErrorKind::InvalidDir(None),
        UpwardsFailure::NoTrustedGitRepository(message) | UpwardsFailure::CheckTrust(message) => {
            DiscoverErrorKind::Other(message)
        },
        UpwardsFailure::NoGitRepository
        | UpwardsFailure::NoGitRepositoryWithinFs
        | UpwardsFailure::NoGitRepositoryWithinCeiling => DiscoverErrorKind::NoRepository,
    }
}

fn classify_open_discovered(err: OpenFailure) -> (r: DiscoverErrorKind)
    ensures
        r == open_discovered_kind(err),
{
    match err {
        OpenFailure::Config => DiscoverErrorKind::InvalidRepoConfig,
        OpenFailure::NotARepository { source: _ } => DiscoverErrorKind::NoRepository,
        OpenFailure::Io(message) => DiscoverErrorKind::InvalidDir(Some(message)),
        OpenFailure::PrefixIllegalUtf8 => DiscoverErrorKind::WrongUtf8,
        OpenFailure::UnsafeGitDir(message) => DiscoverErrorKind::Other(message),
        OpenFailure::EnvironmentAccessDenied { message, source: _ } => {
            DiscoverErrorKind::Other(message)
        },
        OpenFailure::PrefixNotRelative { message, source: _ } => DiscoverErrorKind::Other(message),
    }
}

fn classify_open_cloned(err: OpenFailure) -> (r: CloneErrorKind)
    ensures
        r == open_cloned_kind(err),
{
    match err {
        OpenFailure::Config => CloneErrorKind::InvalidRepoConfig,
        OpenFailure::NotARepository { source } => CloneErrorKind::Other(source),
        OpenFailure::Io(message) => CloneErrorKind::IoBound(message),
        OpenFailure::UnsafeGitDir(message) => CloneErrorKind::Other(message),
        OpenFailure::EnvironmentAccessDenied { message: _, source } => {
            CloneErrorKind::Other(source)
        },
        OpenFailure::PrefixIllegalUtf8 => CloneErrorKind::IllegalUtf8,
        OpenFailure::PrefixNotRelative { message: _, source } => CloneErrorKind::Other(source),
    }
}

fn classify_prepare(err: PrepareFailure) -> (r: CloneErrorKind)
    ensures
        r == prepare_kind(err),
{
    match err {
        PrepareFailure::Init(err) => match err {
            InitFailure::CurrentDir(message) => CloneErrorKind::IoBound(message),
            InitFailure::Create(err) => match err {
                CreateFailure::CurrentDir(message)
                | CreateFailure::IoOpen(message)
                | CreateFailure::IoWrite(message)
                | CreateFailure::CreateDirectory(message) => CloneErrorKind::IoBound(message),
                CreateFailure::DirectoryExists | CreateFailure::DirectoryNotEmpty => {
                    CloneErrorKind::DirectoryNotEmpty
                },
            },
            InitFailure::Open(err) => classify_open_cloned(err),
            InitFailure::InvalidBranchName => CloneErrorKind::LibcUrl,
            InitFailure::EditHeadForDefaultBranch(message) => CloneErrorKind::Other(message),
        },
        PrepareFailure::CommitterOrFallback => CloneErrorKind::InvalidRepoConfig,
        PrepareFailure::UrlParse | PrepareFailure::CanonicalizeUrl => CloneErrorKind::LibcUrl,
    }
}

fn classify_fetch(err: FetchFailure) -> (r: CloneErrorKind)
    ensures
        r == fetch_kind(err),
{
    match err {
        FetchFailure::InvalidRemoteRepositoryPath => CloneErrorKind::LibcUrl,
        FetchFailure::Connect(message)
        | FetchFailure::PrepareFetch(message)
        | FetchFailure::Fetch(message) => CloneErrorKind::Other(message),
        FetchFailure::RemoteUrl | FetchFailure::RewrittenUrlInvalid => CloneErrorKind::LibcUrl,
        FetchFailure::RemoteConfiguration(message) | FetchFailure::RemoteConnection(message) => {
            CloneErrorKind::Other(message)
        },
        FetchFailure::RemoteName
        | FetchFailure::ParseConfig
        | FetchFailure::ApplyConfig
        | FetchFailure::CommitterOrFallback => CloneErrorKind::InvalidRepoConfig,
        FetchFailure::LoadConfigIo(message) => CloneErrorKind::IoBound(message),
        FetchFailure::LoadConfig(message) | FetchFailure::SaveConfig(message) => {
            CloneErrorKind::Other(message)
        },
        FetchFailure::SaveConfigIo(message) => CloneErrorKind::IoBound(message),
        FetchFailure::InvalidHeadRef(message)
        | FetchFailure::HeadUpdate(message)
        | FetchFailure::RefNameMissing(message)
        | FetchFailure::RefNameAmbiguous(message)
        | FetchFailure::RefMap(message)
        | FetchFailure::ReferenceName(message) => CloneErrorKind::Other(message),
    }
}

/// Whether the error is about the discovery of the repository at a path.
pub open spec fn undiscovered(
    err: DiscoverRepoError,
    path: Seq<char>,
    kind: DiscoverErrorKind,
) -> bool {
    match err {
        DiscoverRepoError::Error(RepoErrorRepr::Discover { path: at, kind: why }) => at@ == path
            && why == kind,
        _ => false,
    }
}

/// Whether the error is about the clone to a path.
pub open spec fn uncloned(err: CloneRepoError, path: Seq<char>, kind: CloneErrorKind) -> bool {
    match err {
        CloneRepoError::Error(RepoErrorRepr::Clone { path: at, kind: why }) => at@ == path && why
            == kind,
        _ => false,
    }
}

/// What came of looking for the repository at a path.
pub fn discover_repo(path: &str, outcome: DiscoverOutcome) -> (r: Result<(), DiscoverRepoError>)
    ensures
        match outcome {
            DiscoverOutcome::Found => r is Ok,
            DiscoverOutcome::Failed(err) => r is Err && undiscovered(
                r->Err_0,
                path@,
                discover_kind(err),
            ),
            DiscoverOutcome::TaskFailed(message) => r == Err::<(), DiscoverRepoError>(
                DiscoverRepoError::Task(message),
            ),
        },
{
    let kind: DiscoverErrorKind = match outcome {
        DiscoverOutcome::Found => return Ok(()),
        DiscoverOutcome::TaskFailed(message) => return Err(DiscoverRepoError::Task(message)),
        DiscoverOutcome::Failed(DiscoverFailure::Upwards(err)) => classify_upwards(err),
        DiscoverOutcome::Failed(DiscoverFailure::Open(err)) => classify_open_discovered(err),
    };
    Err(DiscoverRepoError::Error(RepoErrorRepr::Discover { path: path.to_owned(), kind }))
}

/// What came of cloning the repository to a path.
pub fn clone_repo(path: &str, outcome: CloneOutcome) -> (r: Result<(), CloneRepoError>)
    ensures
        match outcome {
            CloneOutcome::Cloned => r is Ok,
            CloneOutcome::PrepareFailed(err) => r is Err && uncloned(
                r->Err_0,
                path@,
                prepare_kind(err),
            ),
            CloneOutcome::FetchFailed(err) => r is Err && uncloned(
                r->Err_0,
                path@,
                fetch_kind(err),
            ),
            CloneOutcome::CheckoutFailed(message) => r is Err && uncloned(
                r->Err_0,
                path@,
                CloneErrorKind::Other(message),
            ),
            CloneOutcome::TaskFailed(message) => r == Err::<(), CloneRepoError>(
                CloneRepoError::Task(message),
            ),
        },
{
    let kind: CloneErrorKind = match outcome {
        CloneOutcome::Cloned => return Ok(()),
        CloneOutcome::TaskFailed(message) => return Err(CloneRepoError::Task(message)),
        CloneOutcome::PrepareFailed(err) => classify_prepare(err),
        CloneOutcome::FetchFailed(err) => classify_fetch(err),
        CloneOutcome::CheckoutFailed(message) => CloneErrorKind::Other(message),
    };
    Err(CloneRepoError::Error(RepoErrorRepr::Clone { path: path.to_owned(), kind }))
}

} // verus!

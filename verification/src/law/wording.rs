//! What errors and reports say.

use crate::errors::{
    ChangesKindRepr, CloneErrorKind, DiscoverErrorKind, FilterErrorRepr, IoBoundChanges,
    RepoErrorRepr, ScanFilesError,
};
use crate::repo::{
    discover_kind, fetch_kind, prepare_kind, CreateFailure, DiscoverFailure, FetchFailure,
    InitFailure, OpenFailure, PrepareFailure, UpwardsFailure,
};
use crate::tui::spinner::{latest, Received, ReportV, Spinner};
use vstd::prelude::*;

verus! {

/// The error of a failed discovery names the path and, where there is a message,
/// holds all of it.
pub proof fn law_discover_text(path: String, message: String)
    ensures
        ({
            let text = |kind: DiscoverErrorKind| RepoErrorRepr::Discover { path, kind }.text();
            let head = "failed to discover repo at path: "@ + path@;
            &&& text(DiscoverErrorKind::NoRepository) == head
                + "; no repo found within it or upwards"@
            &&& text(DiscoverErrorKind::InvalidDir(None)) == head
            &&& text(DiscoverErrorKind::InvalidDir(Some(message))) == head + ("; "@ + message@)
            &&& text(DiscoverErrorKind::InvalidRepoConfig) == head
                + "; git config in repo is not valid"@
            &&& text(DiscoverErrorKind::WrongUtf8) == head + "; found invalid utf-8 in path"@
            &&& text(DiscoverErrorKind::Other(message)) == head + ("; "@ + message@)
        }),
{
    let head = "failed to discover repo at path: "@ + path@;
    assert(head + Seq::empty() =~= head);
}

/// The error of a failed clone names the path and, where there is a message, holds
/// all of it.
pub proof fn law_clone_text(path: String, message: String)
    ensures
        ({
            let text = |kind: CloneErrorKind| RepoErrorRepr::Clone { path, kind }.text();
            let head = "failed to clone repo to path: "@ + path@;
            &&& text(CloneErrorKind::LibcUrl) == head
                + "; libc repo url is wrong; report this to the maintainer"@
            &&& text(CloneErrorKind::InvalidRepoConfig) == head + "; git repo config is not valid"@
            &&& text(CloneErrorKind::DirectoryNotEmpty) == head + "; directory not empty"@
            &&& text(CloneErrorKind::IllegalUtf8) == head + "; found invalid utf-8 in path"@
            &&& text(CloneErrorKind::IoBound(message)) == head + ("; "@ + message@)
            &&& text(CloneErrorKind::Other(message)) == head + ("; "@ + message@)
        }),
{
}

/// The error of a scan names the path, or holds the message, in full.
pub proof fn law_scan_text(text: String, repo: RepoErrorRepr)
    ensures
        ScanFilesError::RepoError(repo).text() == repo.text(),
        ScanFilesError::ParseError(text).text() == "failed parsing rust source file `"@ + text@
            + "`"@,
        ScanFilesError::IoBound(text).text() == "internal io error: `"@ + text@ + "`"@,
        ScanFilesError::NotLibcRepo.text() == "path was not libc repo"@,
        ScanFilesError::Other(text).text() == text@,
        RepoErrorRepr::Other(text).text() == text@,
{
}

/// An error of writing says what was done to which file, and one of filtering which
/// regex was refused.
pub proof fn law_change_text(err: IoBoundChanges, re: String)
    ensures
        err.op() == ChangesKindRepr::FetchOp ==> err.text() == "fetching file "@ + err.path_text(),
        err.op() == ChangesKindRepr::SaveOp ==> err.text() == "saving file "@ + err.path_text(),
        FilterErrorRepr::RegexTooBig(re).source() == re@,
        FilterErrorRepr::RegexSyntax(re).source() == re@,
{
}

/// Which failures to look for a repository each kind stands for, and that their
/// messages are handed on.
pub proof fn law_discover_kinds(err: DiscoverFailure)
    ensures
        match discover_kind(err) {
            DiscoverErrorKind::NoRepository => {
                ||| err == DiscoverFailure::Upwards(UpwardsFailure::NoGitRepository)
                ||| err == DiscoverFailure::Upwards(UpwardsFailure::NoGitRepositoryWithinFs)
                ||| err == DiscoverFailure::Upwards(UpwardsFailure::NoGitRepositoryWithinCeiling)
                ||| err is Open && err->Open_0 is NotARepository
            },
            DiscoverErrorKind::InvalidDir(Some(message)) => {
                ||| err == DiscoverFailure::Upwards(UpwardsFailure::CurrentDir(message))
                ||| err == DiscoverFailure::Open(OpenFailure::Io(message))
            },
            DiscoverErrorKind::InvalidDir(None) => {
                ||| err == DiscoverFailure::Upwards(UpwardsFailure::InvalidInput)
                ||| err == DiscoverFailure::Upwards(UpwardsFailure::InaccessibleDirectory)
                ||| err == DiscoverFailure::Upwards(UpwardsFailure::NoMatchingCeilingDir)
            },
            DiscoverErrorKind::InvalidRepoConfig => err == DiscoverFailure::Open(
                OpenFailure::Config,
            ),
            DiscoverErrorKind::WrongUtf8 => err == DiscoverFailure::Open(
                OpenFailure::PrefixIllegalUtf8,
            ),
            DiscoverErrorKind::Other(text) => match err {
                DiscoverFailure::Upwards(UpwardsFailure::NoTrustedGitRepository(message)) => text
                    == message,
                DiscoverFailure::Upwards(UpwardsFailure::CheckTrust(message)) => text == message,
                DiscoverFailure::Open(OpenFailure::UnsafeGitDir(message)) => text == message,
                DiscoverFailure::Open(
                    OpenFailure::EnvironmentAccessDenied { message, source },
                ) => text == message,
                DiscoverFailure::Open(OpenFailure::PrefixNotRelative { message, source }) => text
                    == message,
                _ => false,
            },
        },
{
}

/// Which failures to begin a clone each kind stands for, and that their messages,
/// or those of their causes, are handed on.
pub proof fn law_prepare_kinds(err: PrepareFailure)
    ensures
        match prepare_kind(err) {
            CloneErrorKind::LibcUrl => {
                ||| err is UrlParse
                ||| err is CanonicalizeUrl
                ||| err == PrepareFailure::Init(InitFailure::InvalidBranchName)
            },
            CloneErrorKind::InvalidRepoConfig => {
                ||| err is CommitterOrFallback
                ||| err == PrepareFailure::Init(InitFailure::Open(OpenFailure::Config))
            },
            CloneErrorKind::DirectoryNotEmpty => {
                ||| err == PrepareFailure::Init(InitFailure::Create(CreateFailure::DirectoryExists))
                ||| err == PrepareFailure::Init(
                    InitFailure::Create(CreateFailure::DirectoryNotEmpty),
                )
            },
            CloneErrorKind::IllegalUtf8 => err == PrepareFailure::Init(
                InitFailure::Open(OpenFailure::PrefixIllegalUtf8),
            ),
            CloneErrorKind::IoBound(text) => match err {
                PrepareFailure::Init(InitFailure::CurrentDir(message)) => text == message,
                PrepareFailure::Init(InitFailure::Open(OpenFailure::Io(message))) => text
                    == message,
                PrepareFailure::Init(InitFailure::Create(CreateFailure::CurrentDir(message))) => text
                    == message,
                PrepareFailure::Init(InitFailure::Create(CreateFailure::IoOpen(message))) => text
                    == message,
                PrepareFailure::Init(InitFailure::Create(CreateFailure::IoWrite(message))) => text
                    == message,
                PrepareFailure::Init(
                    InitFailure::Create(CreateFailure::CreateDirectory(message)),
                ) => text == message,
                _ => false,
            },
            CloneErrorKind::Other(text) => match err {
                PrepareFailure::Init(InitFailure::EditHeadForDefaultBranch(message)) => text
                    == message,
                PrepareFailure::Init(
                    InitFailure::Open(OpenFailure::NotARepository { source }),
                ) => text == source,
                PrepareFailure::Init(InitFailure::Open(OpenFailure::UnsafeGitDir(message))) => text
                    == message,
                PrepareFailure::Init(
                    InitFailure::Open(OpenFailure::EnvironmentAccessDenied { message, source }),
                ) => text == source,
                PrepareFailure::Init(
                    InitFailure::Open(OpenFailure::PrefixNotRelative { message, source }),
                ) => text == source,
                _ => false,
            },
        },
{
}

/// Which failures to fetch each kind stands for, and that their messages are handed
/// on.
pub proof fn law_fetch_kinds(err: FetchFailure)
    ensures
        match fetch_kind(err) {
            CloneErrorKind::LibcUrl => err is InvalidRemoteRepositoryPath || err is RemoteUrl
                || err is RewrittenUrlInvalid,
            CloneErrorKind::InvalidRepoConfig => err is RemoteName || err is ParseConfig
                || err is ApplyConfig || err is CommitterOrFallback,
            CloneErrorKind::IoBound(text) => err == FetchFailure::LoadConfigIo(text) || err
                == FetchFailure::SaveConfigIo(text),
            CloneErrorKind::Other(text) => {
                ||| err == FetchFailure::Connect(text)
                ||| err == FetchFailure::PrepareFetch(text)
                ||| err == FetchFailure::Fetch(text)
                ||| err == FetchFailure::RemoteConfiguration(text)
                ||| err == FetchFailure::RemoteConnection(text)
                ||| err == FetchFailure::LoadConfig(text)
                ||| err == FetchFailure::SaveConfig(text)
                ||| err == FetchFailure::InvalidHeadRef(text)
                ||| err == FetchFailure::HeadUpdate(text)
                ||| err == FetchFailure::RefNameMissing(text)
                ||| err == FetchFailure::RefNameAmbiguous(text)
                ||| err == FetchFailure::RefMap(text)
                ||| err == FetchFailure::ReferenceName(text)
            },
            CloneErrorKind::DirectoryNotEmpty => false,
            CloneErrorKind::IllegalUtf8 => false,
        },
{
}

/// A report shows the bar and all of the message that was last received.
pub proof fn law_report(report: ReportV, text: String)
    ensures
        report.line() == report.spinner.text() + " "@ + report.message,
        latest(report.message, Received::Message(text)) == text@,
        latest(report.message, Received::Empty) == report.message,
        Spinner::Vert.text() == "|"@,
        Spinner::Vert.next().text() == "/"@,
        Spinner::Vert.next().next().text() == "-"@,
        Spinner::Vert.next().next().next().text() == "\\"@,
{
}

} // verus!

use libc_constant_deprecator::{
    ChangesKind, ChangesSrc, CloneErrorKind, CloneRepoError, DiscoverErrorKind, DiscoverRepoError,
    FetchParseError, FilterError, FilterErrorRepr, IoBoundChanges, MakeChangesError,
    MakeChangesErrorRepr, RepoErrorRepr, ScanError, ScanFilesError, Visited,
};

fn discover(kind: DiscoverErrorKind) -> String {
    RepoErrorRepr::Discover { path: "/a/b".to_string(), kind }.error()
}

fn clone(kind: CloneErrorKind) -> String {
    RepoErrorRepr::Clone { path: "/a/b".to_string(), kind }.error()
}

#[test]
fn discover_errors_print() {
    let head = "failed to discover repo at path: /a/b";
    assert_eq!(
        discover(DiscoverErrorKind::NoRepository),
        format!("{head}; no repo found within it or upwards")
    );
    assert_eq!(discover(DiscoverErrorKind::InvalidDir(None)), head);
    assert_eq!(
        discover(DiscoverErrorKind::InvalidDir(Some("denied".to_string()))),
        format!("{head}; denied")
    );
    assert_eq!(
        discover(DiscoverErrorKind::InvalidRepoConfig),
        format!("{head}; git config in repo is not valid")
    );
    assert_eq!(
        discover(DiscoverErrorKind::WrongUtf8),
        format!("{head}; found invalid utf-8 in path")
    );
    assert_eq!(discover(DiscoverErrorKind::Other("x".to_string())), format!("{head}; x"));
}

#[test]
fn clone_errors_print() {
    let head = "failed to clone repo to path: /a/b";
    assert_eq!(
        clone(CloneErrorKind::LibcUrl),
        format!("{head}; libc repo url is wrong; report this to the maintainer")
    );
    assert_eq!(
        clone(CloneErrorKind::InvalidRepoConfig),
        format!("{head}; git repo config is not valid")
    );
    assert_eq!(clone(CloneErrorKind::DirectoryNotEmpty), format!("{head}; directory not empty"));
    assert_eq!(clone(CloneErrorKind::IllegalUtf8), format!("{head}; found invalid utf-8 in path"));
    assert_eq!(clone(CloneErrorKind::IoBound("io".to_string())), format!("{head}; io"));
    assert_eq!(clone(CloneErrorKind::Other("o".to_string())), format!("{head}; o"));
}

#[test]
fn scan_errors_print() {
    assert_eq!(
        ScanError::new(ScanFilesError::ParseError("f.rs".to_string())).error(),
        "failed parsing rust source file `f.rs`"
    );
    assert_eq!(
        ScanError::new(ScanFilesError::IoBound("gone".to_string())).error(),
        "internal io error: `gone`"
    );
    assert_eq!(ScanError::new(ScanFilesError::NotLibcRepo).error(), "path was not libc repo");
    assert_eq!(ScanError::new(ScanFilesError::Other("o".to_string())).error(), "o");
}

#[test]
fn scan_errors_come_of_the_tasks() {
    let err = ScanError::from_discover(DiscoverRepoError::Task("t".to_string()));
    assert!(matches!(err.kind(), ScanFilesError::Other(message) if message == "t"));
    let err = ScanError::from_clone(CloneRepoError::Error(RepoErrorRepr::Clone {
        path: "p".to_string(),
        kind: CloneErrorKind::LibcUrl,
    }));
    assert!(matches!(err.kind(), ScanFilesError::RepoError(RepoErrorRepr::Clone { .. })));
    let err = ScanError::from_fetch_parse(FetchParseError::ParsingFailed("p".to_string()));
    assert!(matches!(err.kind(), ScanFilesError::ParseError(path) if path == "p"));
    let err = ScanError::from_fetch_parse(FetchParseError::IoBound("i".to_string()));
    assert!(matches!(err.kind(), ScanFilesError::IoBound(message) if message == "i"));
}

#[test]
fn filter_errors_know_their_regex() {
    let err = FilterError::new(FilterErrorRepr::RegexSyntax("(".to_string()));
    assert_eq!(err.source_re(), "(");
    assert_eq!(err.error(), "failed to parse regex");
    let err = FilterError::new(FilterErrorRepr::RegexTooBig("a*".to_string()));
    assert_eq!(err.source_re(), "a*");
    assert_eq!(err.error(), "regex byte size exceeds 2^20 bytes");
}

#[test]
fn changes_errors_know_their_file() {
    let fetch = IoBoundChanges::new("f.rs".to_string(), "gone".to_string(), ChangesKind::fetch());
    assert_eq!(fetch.source_path(), "f.rs");
    assert_eq!(fetch.source_io(), "gone");
    assert_eq!(fetch.source(), "f.rs");
    let err = MakeChangesError::new(MakeChangesErrorRepr::IoBound(fetch));
    assert_eq!(err.io_source(), Some("f.rs"));
    assert_eq!(err.error(), "io error while fetching file f.rs: `gone`");
    let save = IoBoundChanges::new("g.rs".to_string(), "full".to_string(), ChangesKind::save());
    let err = MakeChangesError::new(MakeChangesErrorRepr::IoBound(save));
    assert_eq!(err.error(), "io error while saving file g.rs: `full`");
    let err = MakeChangesError::new(MakeChangesErrorRepr::Parse("h.rs".to_string()));
    assert_eq!(err.io_source(), None);
    assert_eq!(err.error(), "failed to parse file: h.rs");
    let err = MakeChangesError::new(MakeChangesErrorRepr::Other("o".to_string()));
    assert_eq!(err.error(), "o");
}

#[test]
fn sources_of_changes_are_visited_by_kind() {
    let src = ChangesKind::fetch().to_changes_src("f".to_string());
    assert_eq!(src.path(), "f");
    match src.with_path(|path| path.len(), |_| 'x') {
        Visited::Fetch(n) => assert_eq!(n, 1),
        Visited::Save(_) => panic!("this was a fetch"),
    }
    let src = ChangesSrc::save("gh".to_string());
    match src.with_path(|_| 0, |path| path.len()) {
        Visited::Fetch(_) => panic!("this was a save"),
        Visited::Save(n) => assert_eq!(n, 2),
    }
}

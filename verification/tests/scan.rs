use libc_constant_deprecator::{
    check_package, clone_repo, discover_repo, ensure_libc, fetch_details, find_json, find_libc, scan,
    scan_files, CloneErrorKind, CloneOutcome, CloneRepoError, CommandOutput,
    ConstContainer, CreateFailure,
    DiscoverErrorKind, DiscoverFailure, DiscoverOutcome, DiscoverRepoError, FetchFailure,
    FileAction, FileEvent, FileScan, FileStage,
    InitFailure, OpenFailure, Package, PrepareFailure, RepoErrorRepr, Scan, ScanAction, ScanError,
    ScanEvent, ScanFilesError, ScanStage, UpwardsFailure, WalkEntry, LIBC_REPO,
};

fn text(s: &str) -> String {
    s.to_string()
}

fn discovered(err: DiscoverFailure) -> DiscoverErrorKind {
    match discover_repo("p", DiscoverOutcome::Failed(err)) {
        Err(DiscoverRepoError::Error(RepoErrorRepr::Discover { path, kind })) => {
            assert_eq!(path, "p");
            kind
        }
        _ => panic!("no error of the repository"),
    }
}

fn cloned(outcome: CloneOutcome) -> CloneErrorKind {
    match clone_repo("p", outcome) {
        Err(CloneRepoError::Error(RepoErrorRepr::Clone { path, kind })) => {
            assert_eq!(path, "p");
            kind
        }
        _ => panic!("no error of the repository"),
    }
}

#[test]
fn failed_discoveries_are_told_apart() {
    let up = |err| discovered(DiscoverFailure::Upwards(err));
    assert!(matches!(up(UpwardsFailure::CurrentDir(text("c"))), DiscoverErrorKind::InvalidDir(Some(m)) if m == "c"));
    assert!(matches!(up(UpwardsFailure::InvalidInput), DiscoverErrorKind::InvalidDir(None)));
    assert!(matches!(up(UpwardsFailure::InaccessibleDirectory), DiscoverErrorKind::InvalidDir(None)));
    assert!(matches!(up(UpwardsFailure::NoMatchingCeilingDir), DiscoverErrorKind::InvalidDir(None)));
    assert!(matches!(up(UpwardsFailure::NoTrustedGitRepository(text("t"))), DiscoverErrorKind::Other(m) if m == "t"));
    assert!(matches!(up(UpwardsFailure::CheckTrust(text("t"))), DiscoverErrorKind::Other(m) if m == "t"));
    assert!(matches!(up(UpwardsFailure::NoGitRepository), DiscoverErrorKind::NoRepository));
    assert!(matches!(up(UpwardsFailure::NoGitRepositoryWithinFs), DiscoverErrorKind::NoRepository));
    assert!(matches!(up(UpwardsFailure::NoGitRepositoryWithinCeiling), DiscoverErrorKind::NoRepository));
    let open = |err| discovered(DiscoverFailure::Open(err));
    assert!(matches!(open(OpenFailure::Config), DiscoverErrorKind::InvalidRepoConfig));
    assert!(matches!(open(OpenFailure::NotARepository { source: text("s") }), DiscoverErrorKind::NoRepository));
    assert!(matches!(open(OpenFailure::Io(text("i"))), DiscoverErrorKind::InvalidDir(Some(m)) if m == "i"));
    assert!(matches!(open(OpenFailure::PrefixIllegalUtf8), DiscoverErrorKind::WrongUtf8));
    assert!(matches!(open(OpenFailure::UnsafeGitDir(text("u"))), DiscoverErrorKind::Other(m) if m == "u"));
    let denied = OpenFailure::EnvironmentAccessDenied { message: text("m"), source: text("s") };
    assert!(matches!(open(denied), DiscoverErrorKind::Other(m) if m == "m"));
    let prefix = OpenFailure::PrefixNotRelative { message: text("m"), source: text("s") };
    assert!(matches!(open(prefix), DiscoverErrorKind::Other(m) if m == "m"));
    assert!(discover_repo("p", DiscoverOutcome::Found).is_ok());
    assert!(matches!(
        discover_repo("p", DiscoverOutcome::TaskFailed(text("t"))),
        Err(DiscoverRepoError::Task(m)) if m == "t"
    ));
}

#[test]
fn failed_preparations_are_told_apart() {
    let prepared = |err| cloned(CloneOutcome::PrepareFailed(err));
    let init = |err| prepared(PrepareFailure::Init(err));
    let create = |err| init(InitFailure::Create(err));
    let open = |err| init(InitFailure::Open(err));
    assert!(matches!(init(InitFailure::CurrentDir(text("c"))), CloneErrorKind::IoBound(m) if m == "c"));
    assert!(matches!(create(CreateFailure::CurrentDir(text("c"))), CloneErrorKind::IoBound(m) if m == "c"));
    assert!(matches!(create(CreateFailure::IoOpen(text("o"))), CloneErrorKind::IoBound(m) if m == "o"));
    assert!(matches!(create(CreateFailure::IoWrite(text("w"))), CloneErrorKind::IoBound(m) if m == "w"));
    assert!(matches!(create(CreateFailure::CreateDirectory(text("d"))), CloneErrorKind::IoBound(m) if m == "d"));
    assert!(matches!(create(CreateFailure::DirectoryExists), CloneErrorKind::DirectoryNotEmpty));
    assert!(matches!(create(CreateFailure::DirectoryNotEmpty), CloneErrorKind::DirectoryNotEmpty));
    assert!(matches!(open(OpenFailure::Config), CloneErrorKind::InvalidRepoConfig));
    assert!(matches!(open(OpenFailure::NotARepository { source: text("s") }), CloneErrorKind::Other(m) if m == "s"));
    assert!(matches!(open(OpenFailure::Io(text("i"))), CloneErrorKind::IoBound(m) if m == "i"));
    assert!(matches!(open(OpenFailure::UnsafeGitDir(text("u"))), CloneErrorKind::Other(m) if m == "u"));
    assert!(matches!(open(OpenFailure::PrefixIllegalUtf8), CloneErrorKind::IllegalUtf8));
    let denied = OpenFailure::EnvironmentAccessDenied { message: text("m"), source: text("s") };
    assert!(matches!(open(denied), CloneErrorKind::Other(m) if m == "s"));
    let prefix = OpenFailure::PrefixNotRelative { message: text("m"), source: text("s") };
    assert!(matches!(open(prefix), CloneErrorKind::Other(m) if m == "s"));
    assert!(matches!(init(InitFailure::InvalidBranchName), CloneErrorKind::LibcUrl));
    assert!(matches!(init(InitFailure::EditHeadForDefaultBranch(text("e"))), CloneErrorKind::Other(m) if m == "e"));
    assert!(matches!(prepared(PrepareFailure::CommitterOrFallback), CloneErrorKind::InvalidRepoConfig));
    assert!(matches!(prepared(PrepareFailure::UrlParse), CloneErrorKind::LibcUrl));
    assert!(matches!(prepared(PrepareFailure::CanonicalizeUrl), CloneErrorKind::LibcUrl));
}

#[test]
fn failed_fetches_are_told_apart() {
    let fetched = |err| cloned(CloneOutcome::FetchFailed(err));
    for err in [
        FetchFailure::InvalidRemoteRepositoryPath,
        FetchFailure::RemoteUrl,
        FetchFailure::RewrittenUrlInvalid,
    ] {
        assert!(matches!(fetched(err), CloneErrorKind::LibcUrl));
    }
    for err in [
        FetchFailure::RemoteName,
        FetchFailure::ParseConfig,
        FetchFailure::ApplyConfig,
        FetchFailure::CommitterOrFallback,
    ] {
        assert!(matches!(fetched(err), CloneErrorKind::InvalidRepoConfig));
    }
    for err in [FetchFailure::LoadConfigIo(text("m")), FetchFailure::SaveConfigIo(text("m"))] {
        assert!(matches!(fetched(err), CloneErrorKind::IoBound(m) if m == "m"));
    }
    for err in [
        FetchFailure::Connect(text("m")),
        FetchFailure::PrepareFetch(text("m")),
        FetchFailure::Fetch(text("m")),
        FetchFailure::RemoteConfiguration(text("m")),
        FetchFailure::RemoteConnection(text("m")),
        FetchFailure::LoadConfig(text("m")),
        FetchFailure::SaveConfig(text("m")),
        FetchFailure::InvalidHeadRef(text("m")),
        FetchFailure::HeadUpdate(text("m")),
        FetchFailure::RefNameMissing(text("m")),
        FetchFailure::RefNameAmbiguous(text("m")),
        FetchFailure::RefMap(text("m")),
        FetchFailure::ReferenceName(text("m")),
    ] {
        assert!(matches!(fetched(err), CloneErrorKind::Other(m) if m == "m"));
    }
    assert!(matches!(cloned(CloneOutcome::CheckoutFailed(text("m"))), CloneErrorKind::Other(m) if m == "m"));
    assert!(clone_repo("p", CloneOutcome::Cloned).is_ok());
    assert!(matches!(
        clone_repo("p", CloneOutcome::TaskFailed(text("t"))),
        Err(CloneRepoError::Task(m)) if m == "t"
    ));
}

fn metadata(name: &str, manifest: &str) -> Vec<u8> {
    format!(
        r#"{{"packages":[{{"name":"{name}","version":"1.0.0","id":"x","license":null,
        "license_file":null,"description":null,"source":null,"dependencies":[],"targets":[],
        "features":{{}},"manifest_path":"{manifest}","metadata":null,"publish":null,"authors":[],
        "categories":[],"keywords":[],"readme":null,"repository":null,"homepage":null,
        "documentation":null,"edition":"2021","links":null,"default_run":null,
        "rust_version":null}}],"workspace_members":["x"],"workspace_default_members":["x"],
        "resolve":null,"target_directory":"/r/target","version":1,"workspace_root":"/r",
        "metadata":null}}"#
    )
    .into_bytes()
}

#[test]
fn the_root_package_is_checked() {
    assert!(ensure_libc(Ok(metadata("libc", "/r/Cargo.toml"))).is_ok());
    let kind = |output| ensure_libc(output).unwrap_err();
    assert!(matches!(kind(Ok(metadata("gix", "/r/Cargo.toml"))).kind(), ScanFilesError::NotLibcRepo));
    assert!(matches!(
        kind(Ok(metadata("libc", "/r/sub/Cargo.toml"))).kind(),
        ScanFilesError::Other(m) if m == "repo does not contain `libc` crate as root pkg"
    ));
    assert!(matches!(kind(Ok(b"{".to_vec())).kind(), ScanFilesError::Other(_)));
    assert!(matches!(kind(Ok(vec![0xff])).kind(), ScanFilesError::Other(_)));
    assert!(matches!(kind(Err(text("gone"))).kind(), ScanFilesError::IoBound(m) if m == "gone"));
    assert!(check_package(Some(text("libc"))).is_ok());
    assert!(check_package(Some(text("libc2"))).is_err());
    assert!(check_package(None).is_err());
}

fn printed(name: &str, manifest: &str) -> FileEvent {
    let mut stdout = b"warning: {\n".to_vec();
    stdout.extend(metadata(name, manifest).into_iter().filter(|byte| *byte != b'\n'));
    stdout.extend(b"\n{");
    FileEvent::Metadata(Ok(CommandOutput { success: true, stdout }))
}

fn entry(path: &str, is_file: bool, extension: Option<&str>) -> Option<WalkEntry> {
    Some(WalkEntry { path: text(path), is_file, extension: extension.map(text) })
}

#[test]
fn source_files_are_kept() {
    let entries = vec![
        entry("src/a.rs", true, Some("rs")),
        entry("src/b.txt", true, Some("txt")),
        None,
        entry("src/c.rs", false, Some("rs")),
        entry("src/d", true, None),
        entry("src/e.rs", true, Some("rs")),
    ];
    assert_eq!(fetch_details(&entries), ["src/a.rs", "src/e.rs"]);
}

fn to_walk(path: &str) -> Scan {
    let mut s = scan(path);
    s.begin();
    s.step(ScanEvent::Missing);
    s.step(ScanEvent::Cloned(CloneOutcome::Cloned));
    s
}

fn failure(action: ScanAction) -> ScanError {
    match action {
        ScanAction::Done(Err(err)) => err,
        _ => panic!("no failure"),
    }
}

fn success(action: ScanAction) -> ConstContainer {
    match action {
        ScanAction::Done(Ok(constants)) => constants,
        _ => panic!("no success"),
    }
}

#[test]
fn existing_repositories_are_discovered() {
    let mut s = scan("r");
    assert_eq!(s.stage(), ScanStage::Idle);
    assert!(matches!(s.begin(), ScanAction::Canonicalize(p) if p == "r"));
    assert!(matches!(s.step(ScanEvent::Canonical(text("/r"))), ScanAction::QueryMetadata(p) if p == "/r"));
    let output = Ok(metadata("libc", "/r/Cargo.toml"));
    assert!(matches!(s.step(ScanEvent::Metadata(output)), ScanAction::Discover(p) if p == "r"));
    let found = ScanEvent::Discovered(DiscoverOutcome::Found);
    assert!(matches!(s.step(found), ScanAction::Walk { root, dir: "src" } if root == "r"));
}

#[test]
fn missing_paths_are_cloned_to() {
    let mut s = scan("r");
    s.begin();
    assert!(matches!(
        s.step(ScanEvent::Missing),
        ScanAction::Clone { url, path } if url == LIBC_REPO && path == "r"
    ));
    assert_eq!(s.stage(), ScanStage::Cloning);
    let err = failure(s.step(ScanEvent::Cloned(CloneOutcome::PrepareFailed(PrepareFailure::UrlParse))));
    assert_eq!(
        err.error(),
        "failed to clone repo to path: r; libc repo url is wrong; report this to the maintainer"
    );
}

#[test]
fn other_paths_are_refused() {
    let begin = || {
        let mut s = scan("r");
        s.begin();
        s
    };
    let err = failure(begin().step(ScanEvent::ResolveFailed(text("denied"))));
    assert!(matches!(err.kind(), ScanFilesError::IoBound(m) if m == "denied"));
    let check = |output| {
        let mut s = begin();
        s.step(ScanEvent::Canonical(text("/r")));
        let err = failure(s.step(ScanEvent::Metadata(output)));
        assert_eq!(s.stage(), ScanStage::Finished);
        err
    };
    let err = check(Ok(metadata("gix", "/r/Cargo.toml")));
    assert!(matches!(err.kind(), ScanFilesError::NotLibcRepo));
    assert!(matches!(check(Ok(vec![0xff])).kind(), ScanFilesError::Other(_)));
    assert!(matches!(check(Err(text("gone"))).kind(), ScanFilesError::IoBound(m) if m == "gone"));
}

#[test]
fn undiscovered_repositories_end_the_scan() {
    let mut s = scan("r");
    s.begin();
    s.step(ScanEvent::Canonical(text("/r")));
    s.step(ScanEvent::Metadata(Ok(metadata("libc", "/r/Cargo.toml"))));
    let outcome = DiscoverOutcome::Failed(DiscoverFailure::Upwards(UpwardsFailure::NoGitRepository));
    let err = failure(s.step(ScanEvent::Discovered(outcome)));
    assert_eq!(
        err.error(),
        "failed to discover repo at path: r; no repo found within it or upwards"
    );
    assert_eq!(s.stage(), ScanStage::Finished);
}

fn file_failure(action: FileAction) -> ScanFilesError {
    match action {
        FileAction::Done(Err(err)) => err,
        _ => panic!("no failure"),
    }
}

fn to_exist(yes: bool) -> FileScan {
    let mut s = scan_files("r");
    assert!(matches!(s.begin(), FileAction::TryExists(p) if p == "r"));
    match (yes, s.step(FileEvent::Exists(yes))) {
        (true, FileAction::Discover(p)) => assert_eq!(p, "r"),
        (false, FileAction::Clone { url, path }) => assert_eq!((url, path), (LIBC_REPO, text("r"))),
        _ => panic!("no repository"),
    }
    s
}

fn to_list() -> FileScan {
    let mut s = to_exist(true);
    assert!(matches!(
        s.step(FileEvent::Discovered(DiscoverOutcome::Found)),
        FileAction::Enter(p) if p == "r"
    ));
    assert!(matches!(s.step(FileEvent::Entered), FileAction::QueryMetadata));
    s
}

fn to_read() -> FileScan {
    let mut s = to_list();
    assert!(matches!(
        s.step(printed("libc", "/r/lib/Cargo.toml")),
        FileAction::Walk { manifest } if manifest == "/r/lib/Cargo.toml"
    ));
    let entries = vec![entry("a.rs", true, Some("rs")), entry("b.rs", true, Some("rs"))];
    assert!(matches!(s.step(FileEvent::Walked(entries)), FileAction::Read(p) if p == "a.rs"));
    s
}

#[test]
fn source_files_are_gathered() {
    let mut s = to_read();
    let contents = FileEvent::Contents(text("const A: i32 = 1;"));
    assert!(matches!(s.step(contents), FileAction::Read(p) if p == "b.rs"));
    assert_eq!(s.stage(), FileStage::Reading);
    match s.step(FileEvent::Contents(text("fn f() {}"))) {
        FileAction::Done(Ok(files)) => {
            let paths: Vec<&str> = files.iter().map(|file| file.path()).collect();
            assert_eq!(paths, ["a.rs", "b.rs"]);
            assert_eq!(*files[1].parsed_file(), syn::parse_file("fn f() {}").unwrap());
        }
        _ => panic!("no files"),
    }
}

#[test]
fn the_first_file_that_fails_is_named() {
    let err = file_failure(to_read().step(FileEvent::ReadFailed(text("gone"))));
    assert!(matches!(err, ScanFilesError::ParseError(p) if p == "a.rs"));
    let mut s = to_read();
    s.step(FileEvent::Contents(text("")));
    let err = file_failure(s.step(FileEvent::Contents(text("const"))));
    assert!(matches!(err, ScanFilesError::ParseError(p) if p == "b.rs"));
}

#[test]
fn workspaces_have_to_hold_libc() {
    let err = file_failure(to_list().step(printed("gix", "/r/Cargo.toml")));
    assert_eq!(err.error(), "no libc package found at path: r");
    let output = |success, stdout| Ok(CommandOutput { success, stdout });
    let FileEvent::Metadata(Ok(good)) = printed("libc", "/r/Cargo.toml") else {
        panic!("no metadata")
    };
    let mut broken = good.stdout.clone();
    broken.push(0xff);
    for output in [
        output(true, b"{".to_vec()),
        output(true, b"no braces".to_vec()),
        output(true, broken),
        output(true, metadata("libc", "/r/Cargo.toml")),
        output(false, good.stdout),
        Err(text("gone")),
    ] {
        let err = file_failure(to_list().step(FileEvent::Metadata(output)));
        assert_eq!(err.error(), "failed scanning workspace at path: r");
    }
    let package = |name: &str, manifest: &str| Package { name: text(name), manifest: text(manifest) };
    let list = vec![package("a", "1"), package("libc", "2"), package("libc", "3")];
    assert_eq!(find_libc(&list), Some(text("2")));
    assert_eq!(find_libc(&vec![]), None);
}

#[test]
fn metadata_are_on_a_line_of_their_own() {
    let find = |bytes: &[u8]| find_json(&bytes.to_vec());
    assert_eq!(find(b""), None);
    assert_eq!(find(b"\n\n a {}\n"), None);
    assert_eq!(find(b"{1}"), Some(b"{1}".to_vec()));
    assert_eq!(find(b"\n{1}\n{2}"), Some(b"{1}".to_vec()));
    assert_eq!(find(b"x\r\n{1}\r\n"), Some(b"{1}".to_vec()));
    assert_eq!(find(b"{1}\r"), Some(b"{1}\r".to_vec()));
    assert_eq!(find(b"{\n"), Some(b"{".to_vec()));
}

#[test]
fn repositories_that_cannot_be_had_end_the_scan_for_files() {
    let mut s = scan_files("r");
    s.begin();
    let err = file_failure(s.step(FileEvent::ProbeFailed(text("denied"))));
    assert!(matches!(err, ScanFilesError::IoBound(m) if m == "denied"));
    let lost = DiscoverOutcome::TaskFailed(text("broke"));
    let err = file_failure(to_exist(true).step(FileEvent::Discovered(lost)));
    assert!(matches!(err, ScanFilesError::RepoError(RepoErrorRepr::Other(m)) if m == "broke"));
    let lost = DiscoverOutcome::Failed(DiscoverFailure::Open(OpenFailure::Config));
    let err = file_failure(to_exist(true).step(FileEvent::Discovered(lost)));
    assert_eq!(err.error(), "failed to discover repo at path: r; git config in repo is not valid");
    let lost = CloneOutcome::FetchFailed(FetchFailure::RemoteUrl);
    let err = file_failure(to_exist(false).step(FileEvent::Cloned(lost)));
    assert!(matches!(
        err,
        ScanFilesError::RepoError(RepoErrorRepr::Clone { kind: CloneErrorKind::LibcUrl, .. })
    ));
    let lost = CloneOutcome::TaskFailed(text("broke"));
    assert_eq!(file_failure(to_exist(false).step(FileEvent::Cloned(lost))).error(), "broke");
    let mut s = to_exist(false);
    s.step(FileEvent::Cloned(CloneOutcome::Cloned));
    let err = file_failure(s.step(FileEvent::EnterFailed(text("gone"))));
    assert_eq!(err.error(), "failed entering repo: `gone`");
}

#[test]
fn constants_of_all_files_are_gathered() {
    let mut s = to_walk("r");
    let entries = vec![
        entry("r/src/a.rs", true, Some("rs")),
        entry("r/src/b", true, None),
        entry("r/src/c.rs", true, Some("rs")),
    ];
    assert!(matches!(s.step(ScanEvent::Walked(entries)), ScanAction::Read(p) if p == "r/src/a.rs"));
    let contents = text("const A: i32 = 1; const B: i32 = 2;");
    assert!(matches!(s.step(ScanEvent::Contents(contents)), ScanAction::Read(p) if p == "r/src/c.rs"));
    let contents = text("#[deprecated] const C: i32 = 1;");
    let found = success(s.step(ScanEvent::Contents(contents)));
    let listed: Vec<(&str, &str, bool)> = (0..found.len())
        .map(|k| found.get(k))
        .map(|c| (c.ident(), c.path(), c.is_deprecated()))
        .collect();
    assert_eq!(
        listed,
        [("A", "r/src/a.rs", false), ("B", "r/src/a.rs", false), ("C", "r/src/c.rs", true)]
    );
    assert_eq!(success(to_walk("r").step(ScanEvent::Walked(vec![]))).len(), 0);
}

#[test]
fn unreadable_files_end_the_scan() {
    let start = || {
        let mut s = to_walk("r");
        s.step(ScanEvent::Walked(vec![entry("r/src/a.rs", true, Some("rs"))]));
        s
    };
    let err = failure(start().step(ScanEvent::ReadFailed(text("gone"))));
    assert_eq!(err.error(), "internal io error: `gone`");
    let err = failure(start().step(ScanEvent::Contents(text("const"))));
    assert_eq!(err.error(), "failed parsing rust source file `r/src/a.rs`");
    let err = failure(start().step(ScanEvent::Contents(text("cfg_if! { x }"))));
    assert_eq!(err.error(), "failed parsing rust source file `r/src/a.rs`");
    let err = failure(to_walk("r").step(ScanEvent::WalkFailed(text("broke"))));
    assert_eq!(err.error(), "broke");
}

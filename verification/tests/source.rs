use libc_constant_deprecator::{
    edit_file, edit_source, find_chain, find_verdict, parse_all_constants, parse_constants, Const, ConstContainer, ConstItem, EffectAction, EffectEvent,
    LineColumn, MakeChangesErrorRepr, SourceFile, Stage, Token,
    DEPRECATION_NOTICE,
};
use quote::ToTokens;

const SOURCE: &str = "\
pub const A_MAX: i32 = 1;

#[deprecated]
pub const B_MAX: i32 = 2;

cfg_if! {
    if #[cfg(target_os = \"linux\")] {
        pub const C_MAX: i32 = 3;
        pub fn f() {}
    } else if #[cfg(unix)] #[cfg(windows)] {
        #[foo::deprecated]
        pub const C_MAX: i32 = 4;
    } else {
        /// Documented.
        #[deprecated(note = \"x\")]
        pub const D_MAX: i32 = 5;
    }
}

other! { if #[cfg(unix)] { pub const E: i32 = 6; } }

pub fn g() { const F: i32 = 7; }
";

fn read(text: &str) -> Option<ConstContainer> {
    let file = SourceFile::parse(text, "src/a.rs")?;
    parse_constants(&file).map(|found| found.finish())
}

fn listed(owner: &ConstContainer) -> Vec<(String, bool, usize, usize)> {
    (0..owner.len())
        .map(|k| {
            let c = owner.get(k);
            assert_eq!(c.path(), "src/a.rs");
            assert!(!owner.is_modified(k));
            (c.ident().to_string(), c.is_deprecated(), c.span().line, c.span().column)
        })
        .collect()
}

#[test]
fn constants_are_found() {
    let owner = read(SOURCE).unwrap();
    assert_eq!(
        listed(&owner),
        [
            ("A_MAX".to_string(), false, 1, 0),
            ("B_MAX".to_string(), true, 3, 0),
            ("C_MAX".to_string(), false, 8, 8),
            ("C_MAX".to_string(), false, 11, 8),
            ("D_MAX".to_string(), true, 14, 8),
        ]
    );
}

#[test]
fn malformed_sources_are_refused() {
    assert!(SourceFile::parse("const", "src/a.rs").is_none());
    assert!(read("fn f() {}").unwrap().len() == 0);
    for body in [
        "",
        "if",
        "{ const A: i32 = 1; }",
        "if #[cfg(unix)] const A: i32 = 1;",
        "if #[cfg(unix)] { const A: i32 = ; }",
        "if #[=] { const A: i32 = 1; }",
        "if #![cfg(unix)] { const A: i32 = 1; }",
        "if #[cfg(unix)] { } { }",
        "if #[cfg(unix)] { } else",
        "if #[cfg(unix)] { } else { } else { }",
        "if #[cfg(unix)] { } else if",
    ] {
        let text = format!("const Z: i32 = 0; cfg_if! {{ {body} }}");
        assert!(SourceFile::parse(&text, "src/a.rs").is_some());
        assert!(read(&text).is_none(), "{body}");
    }
    for body in ["if { const A: i32 = 1; }", "if #[a] #[b] { const A: i32 = 1; } else { ; }"] {
        assert_eq!(read(&format!("cfg_if! {{ {body} }}")).unwrap().len(), 1);
    }
    assert_eq!(read("a::cfg_if! { { } }").unwrap().len(), 0);
}

#[test]
fn chains_of_conditions_are_told_by_their_tokens() {
    let word = |text: &str| Token::Word(text.to_string());
    let attr = || vec![Token::Mark('#'), Token::Bracket(true)];
    let mut body = vec![word("if")];
    body.extend(attr());
    body.extend(attr());
    body.push(Token::Brace(true));
    assert_eq!(find_chain(&body), Some(vec![5]));
    body.push(word("else"));
    assert_eq!(find_chain(&body), None);
    body.push(word("if"));
    body.push(Token::Brace(true));
    assert_eq!(find_chain(&body), Some(vec![5, 8]));
    body.push(word("else"));
    body.push(Token::Brace(true));
    assert_eq!(find_chain(&body), Some(vec![5, 8, 10]));
    body.push(Token::Other);
    assert_eq!(find_chain(&body), None);
    assert_eq!(find_chain(&vec![]), None);
    assert_eq!(find_chain(&vec![word("if"), Token::Brace(false)]), None);
    assert_eq!(
        find_chain(&vec![word("if"), Token::Mark('#'), Token::Bracket(false), Token::Brace(true)]),
        None
    );
}

#[test]
fn the_first_change_to_a_constant_decides() {
    let item = |ident: &str, line: usize| ConstItem {
        ident: ident.to_string(),
        paths: vec![],
        span: LineColumn { line, column: 0 },
    };
    let changes =
        vec![change("A", 1, 0, true), change("A", 2, 0, false), change("A", 1, 0, false)];
    assert_eq!(find_verdict(&changes, &item("A", 1)), Some(true));
    assert_eq!(find_verdict(&changes, &item("A", 2)), Some(false));
    assert_eq!(find_verdict(&changes, &item("A", 3)), None);
    assert_eq!(find_verdict(&changes, &item("B", 1)), None);
}

#[test]
fn items_say_whether_they_are_deprecated() {
    let item = |paths: Vec<Option<String>>| ConstItem {
        ident: "A".to_string(),
        paths,
        span: LineColumn { line: 2, column: 3 },
    };
    assert!(!Const::from_item(item(vec![]), "p").is_deprecated());
    assert!(!Const::from_item(item(vec![None, Some("doc".to_string())]), "p").is_deprecated());
    let c = Const::from_item(item(vec![None, Some("deprecated".to_string())]), "p");
    assert!(c.is_deprecated());
    assert_eq!((c.ident(), c.path(), c.span().column), ("A", "p", 3));
}

fn change(ident: &str, line: usize, column: usize, deprecated: bool) -> Const {
    Const::from_file(
        ident.to_string(),
        deprecated,
        "src/a.rs".to_string(),
        LineColumn { line, column },
    )
}

fn reread(file: &syn::File) -> Vec<(String, bool)> {
    let owner = read(&prettyplease::unparse(file)).unwrap();
    (0..owner.len())
        .map(|k| (owner.get(k).ident().to_string(), owner.get(k).is_deprecated()))
        .collect()
}

#[test]
fn changes_are_written_where_they_belong() {
    let changes = vec![
        change("A_MAX", 1, 0, true),
        change("C_MAX", 11, 8, true),
        change("D_MAX", 14, 8, false),
        change("B_MAX", 1, 0, false),
    ];
    let file = edit_source(SOURCE, &changes).unwrap();
    assert_eq!(
        reread(&file),
        [
            ("A_MAX".to_string(), true),
            ("B_MAX".to_string(), true),
            ("C_MAX".to_string(), false),
            ("C_MAX".to_string(), true),
            ("D_MAX".to_string(), false),
        ]
    );
    assert_eq!(file.items.len(), 5);
    let text = prettyplease::unparse(&file);
    for kept in ["target_os", "pub fn f", "foo::deprecated", "Documented.", "else if", "other!"] {
        assert!(text.contains(kept), "{kept}");
    }
}

#[test]
fn notices_name_the_release_and_the_reason() {
    let file = edit_source("#[a] const A: i32 = 1;", &vec![change("A", 1, 0, true)]).unwrap();
    let syn::Item::Const(item) = &file.items[0] else { panic!("no constant") };
    assert_eq!(item.attrs.len(), 2);
    assert_eq!(
        item.attrs[1].to_token_stream().to_string(),
        format!("# [deprecated (since = \"1.0.0\" , note = \"{DEPRECATION_NOTICE}\")]")
    );
}

#[test]
fn the_first_notice_is_removed() {
    let text = "#[a] #[deprecated] #[b] #[c] const A: i32 = 1;";
    let file = edit_source(text, &vec![change("A", 1, 0, false)]).unwrap();
    let syn::Item::Const(item) = &file.items[0] else { panic!("no constant") };
    let paths: Vec<String> =
        item.attrs.iter().map(|attr| attr.path().get_ident().unwrap().to_string()).collect();
    assert_eq!(paths, ["a", "c", "b"]);
    let file = edit_source("#[a] const A: i32 = 1;", &vec![change("A", 1, 0, false)]).unwrap();
    let syn::Item::Const(item) = &file.items[0] else { panic!("no constant") };
    assert_eq!(item.attrs.len(), 1);
}

#[test]
fn other_files_and_malformed_macros_stay() {
    let untouched = edit_source(SOURCE, &vec![]).unwrap();
    assert_eq!(untouched, syn::parse_file(SOURCE).unwrap());
    let text = "cfg_if! { if { const A: i32 = 1; } { } } cfg_if! name { if { const A: i32 = 1; } }";
    let changes = vec![change("A", 1, 15, true), change("A", 1, 61, true)];
    let edited = edit_source(text, &changes).unwrap();
    assert_eq!(edited, syn::parse_file(text).unwrap());
    assert!(edit_source("const", &vec![]).is_none());
}

fn deprecate(owner: &mut ConstContainer, re: &str) {
    let view = owner.filter(re).unwrap();
    view.deprecate(owner);
}

#[test]
fn effects_go_file_by_file() {
    let constant = |ident: &str, source: &str| {
        Const::from_file(
            ident.to_string(),
            false,
            source.to_string(),
            LineColumn { line: 1, column: 0 },
        )
    };
    let mut owner = ConstContainer::new(vec![
        constant("A", "b.rs"),
        constant("B", "a.rs"),
        constant("C", "c.rs"),
        constant("D", "b.rs"),
    ]);
    assert!(matches!(owner.effect_changes().begin(), EffectAction::Done(Ok(()))));
    deprecate(&mut owner, "a|b|d");
    let mut effects = owner.effect_changes();
    assert_eq!(effects.stage(), Stage::Idle);
    assert!(matches!(effects.begin(), EffectAction::Fetch(path) if path == "b.rs"));
    match effects.step(EffectEvent::Fetched("const A: i32 = 1;".to_string())) {
        EffectAction::Save(path, file) => {
            assert_eq!(path, "b.rs");
            assert!(prettyplease::unparse(&file).contains("deprecated"));
        }
        _ => panic!("nothing to save"),
    }
    assert_eq!(effects.stage(), Stage::Saving);
    assert!(matches!(effects.step(EffectEvent::Saved), EffectAction::Fetch(path) if path == "a.rs"));
    assert!(matches!(
        effects.step(EffectEvent::Fetched("const A: i32 = 1;".to_string())),
        EffectAction::Save(path, file) if path == "a.rs" && !prettyplease::unparse(&file).contains("deprecated")
    ));
    assert!(matches!(effects.step(EffectEvent::Saved), EffectAction::Done(Ok(()))));
    assert_eq!(effects.stage(), Stage::Finished);
}

#[test]
fn effects_end_with_the_first_failure() {
    let mut owner = ConstContainer::new(vec![change("A", 1, 0, false)]);
    deprecate(&mut owner, "A");
    let fail = |events: Vec<EffectEvent>| {
        let mut effects = owner.effect_changes();
        let mut action = effects.begin();
        for event in events {
            action = effects.step(event);
        }
        assert_eq!(effects.stage(), Stage::Finished);
        match action {
            EffectAction::Done(Err(err)) => err,
            _ => panic!("no failure"),
        }
    };
    let fetched = || EffectEvent::Fetched("const A: i32 = 1;".to_string());
    let err = fail(vec![EffectEvent::FetchFailed("gone".to_string())]);
    assert_eq!(err.error(), "io error while fetching file src/a.rs: `gone`");
    let err = fail(vec![EffectEvent::Fetched("const".to_string())]);
    assert!(matches!(err.kind(), MakeChangesErrorRepr::Parse(path) if path == "src/a.rs"));
    let err = fail(vec![fetched(), EffectEvent::SaveFailed("full".to_string())]);
    assert_eq!(err.error(), "io error while saving file src/a.rs: `full`");
    let err = fail(vec![fetched(), EffectEvent::TaskFailed("panicked".to_string())]);
    assert_eq!(err.error(), "panicked");
}

#[test]
fn notices_are_undone() {
    let text = "#[a]\nconst A: i32 = 1;\ncfg_if! { if { #[b] const B: i32 = 2; } }";
    let before = syn::parse_file(text).unwrap();
    let changes = |yes: bool| vec![change("A", 1, 0, yes), change("B", 3, 15, yes)];
    let mut file = edit_source(text, &changes(true)).unwrap();
    assert_ne!(file, before);
    edit_file(&mut file, &changes(false));
    assert_eq!(prettyplease::unparse(&file), prettyplease::unparse(&before));
}

#[test]
fn written_files_are_taken_over() {
    let text = "const A: i32 = 1;\nconst B: i32 = 2;\n";
    let mut owner = read(text).unwrap();
    deprecate(&mut owner, "^A$");
    let mut effects = owner.effect_changes();
    effects.begin();
    let EffectAction::Save(path, file) = effects.step(EffectEvent::Fetched(text.to_string())) else {
        panic!("nothing to save")
    };
    let written = prettyplease::unparse(&file);
    assert!(matches!(effects.step(EffectEvent::Saved), EffectAction::Done(Ok(()))));
    assert!(owner.take_over(&path, &written));
    assert!((0..2).all(|k| !owner.is_modified(k)));
    assert!(owner.get(1).span().line > 2);
    assert!(matches!(owner.effect_changes().begin(), EffectAction::Done(Ok(()))));
    deprecate(&mut owner, "^B$");
    let mut effects = owner.effect_changes();
    effects.begin();
    let EffectAction::Save(_, file) = effects.step(EffectEvent::Fetched(written)) else {
        panic!("nothing to save")
    };
    assert_eq!(prettyplease::unparse(&file).matches("deprecated(").count(), 2);
    assert_eq!(reread(&file), [("A".to_string(), true), ("B".to_string(), true)]);
}

#[test]
fn other_contents_are_not_taken_over() {
    let mut owner = read("const A: i32 = 1;\nconst B: i32 = 2;\n").unwrap();
    deprecate(&mut owner, "A");
    for contents in ["const A: i32 = 1;", "const A: i32 = 1; const C: i32 = 2;", "const"] {
        assert!(!owner.take_over("src/a.rs", contents));
    }
    assert!(owner.is_modified(0));
    assert!(owner.take_over("src/b.rs", "fn f() {}"));
    assert!(owner.is_modified(0));
    assert!(owner.take_over("src/a.rs", "const A: i32 = 1; #[deprecated] const B: i32 = 2;"));
    assert!(owner.is_modified(0) && owner.is_modified(1));
    assert_eq!(owner.get(1).span(), LineColumn { line: 1, column: 18 });
}

#[test]
fn constants_of_several_files_come_in_order() {
    let parse = |text: &str, path: &str| SourceFile::parse(text, path).unwrap();
    let files = vec![
        parse("const A: i32 = 1; const B: i32 = 2;", "a.rs"),
        parse("fn f() {}", "b.rs"),
        parse("cfg_if! { if { #[deprecated] const C: i32 = 3; } }", "c.rs"),
    ];
    let found = parse_all_constants(&files).unwrap();
    let listed: Vec<(&str, &str, bool)> =
        found.iter().map(|c| (c.ident(), c.path(), c.is_deprecated())).collect();
    assert_eq!(listed, [("A", "a.rs", false), ("B", "a.rs", false), ("C", "c.rs", true)]);
    assert!(parse_all_constants(&[]).unwrap().is_empty());
    let files = [parse("const A: i32 = 1;", "a.rs"), parse("cfg_if! { x }", "b.rs")];
    assert!(parse_all_constants(&files).is_none());
}

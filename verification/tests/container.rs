use libc_constant_deprecator::{
    build_re, BorrowedContainer, CompileError, Const, ConstContainer, FilterErrorRepr, LineColumn, Visit,
};
use std::ops::ControlFlow;

fn constant(ident: &str, deprecated: bool) -> Const {
    Const::from_file(
        ident.to_string(),
        deprecated,
        "src/lib.rs".to_string(),
        LineColumn { line: 1, column: 0 },
    )
}

fn container() -> ConstContainer {
    ConstContainer::new(vec![
        constant("AF_MAX", false),
        constant("AF_UNIX", false),
        constant("PF_MAX", true),
        constant("SIGMAX", false),
        constant("EPERM", false),
    ])
}

fn idents(view: &impl Visit, owner: &ConstContainer) -> Vec<String> {
    let mut out = Vec::new();
    view.visit(owner, |constant| {
        out.push(constant.ident().to_string());
        ControlFlow::<()>::Continue(())
    });
    out
}

fn flags(owner: &ConstContainer) -> Vec<(bool, bool)> {
    (0..owner.len()).map(|k| (owner.get(k).is_deprecated(), owner.is_modified(k))).collect()
}

#[test]
fn deprecating_a_constant_reports_what_it_was() {
    let mut c = constant("A", false);
    assert!(!c.deprecate(true));
    assert!(c.is_deprecated());
    assert!(c.deprecate(true));
    assert!(c.deprecate(false));
    assert!(!c.deprecate(false));
    c.deprecated(true);
    assert!(c.is_deprecated());
    assert_eq!(c.ident(), "A");
    assert_eq!(c.path(), "src/lib.rs");
    assert_eq!(c.span(), LineColumn { line: 1, column: 0 });
}

#[test]
fn filter_finds_the_matching_constants() {
    let mut owner = container();
    let view = owner.filter("_max$").unwrap();
    assert_eq!(idents(&view, &owner), ["AF_MAX", "PF_MAX"]);
    assert_eq!(view.len(), 2);
    assert!(!view.is_empty());
    let view = owner.filter("^af").unwrap();
    assert_eq!(idents(&view, &owner), ["AF_MAX", "AF_UNIX"]);
    let view = owner.filter("^X").unwrap();
    assert!(view.is_empty());
    let view = owner.filter("").unwrap();
    assert_eq!(view.len(), 5);
}

#[test]
fn filter_with_finds_what_filter_finds() {
    let mut owner = container();
    let mut buf = owner.borrowed();
    assert!(buf.is_empty());
    for re in ["_max$", ".*", "^X", "e"] {
        owner.filter_with(re, &mut buf).unwrap();
        let view = owner.filter(re).unwrap();
        assert_eq!(buf.len(), view.len());
        assert_eq!(buf.is_empty(), re == "^X");
        assert_eq!(idents(&buf, &owner), idents(&view, &owner));
    }
}

#[test]
fn malformed_regexes_are_refused() {
    let mut owner = container();
    let err = owner.filter("(").unwrap_err();
    assert!(matches!(err.kind(), FilterErrorRepr::RegexSyntax(_)));
    assert_eq!(err.source_re(), "(");
    let mut buf = owner.borrowed();
    assert!(owner.filter_with("(", &mut buf).is_err());
    assert!(buf.is_empty());
    owner.filter_with("max", &mut buf).unwrap();
    assert!(owner.filter_with("[", &mut buf).is_err());
    assert_eq!(idents(&buf, &owner), ["AF_MAX", "PF_MAX", "SIGMAX"]);
}

#[test]
fn oversized_regexes_are_refused() {
    let mut owner = container();
    assert!(matches!(
        build_re("(((a{100}){100}){100})"),
        Err(CompileError::TooBig(limit)) if limit == 1 << 20
    ));
    assert!(matches!(build_re("("), Err(CompileError::Syntax)));
    let err = owner.filter("(((a{100}){100}){100})").unwrap_err();
    assert!(matches!(err.kind(), FilterErrorRepr::RegexTooBig(_)));
    assert_eq!(err.source_re(), "(((a{100}){100}){100})");
}

#[test]
fn larger_regexes_are_given_more_room() {
    let mut owner = ConstContainer::new(vec![constant(&"A".repeat(300), false), constant("A", false)]);
    let view = owner.filter("a{300}").unwrap();
    assert_eq!(view.len(), 1);
}

#[test]
fn regexes_work_on_bytes() {
    let mut owner = ConstContainer::new(vec![constant("É", false), constant("E", false)]);
    let view = owner.filter("^..$").unwrap();
    assert_eq!(idents(&view, &owner), ["É"]);
}

#[test]
fn deprecating_marks_the_view_and_nothing_else() {
    let mut owner = container();
    let view = owner.filter("_max$").unwrap();
    view.deprecate(&mut owner);
    assert_eq!(
        flags(&owner),
        [(true, true), (false, false), (true, false), (false, false), (false, false)]
    );
    view.deprecate(&mut owner);
    assert_eq!(
        flags(&owner),
        [(true, true), (false, false), (true, false), (false, false), (false, false)]
    );
    view.undeprecate(&mut owner);
    assert_eq!(
        flags(&owner),
        [(false, false), (false, false), (false, true), (false, false), (false, false)]
    );
}

#[test]
fn views_remember_how_constants_entered_them() {
    let mut owner = container();
    let mut buf = owner.borrowed();
    owner.filter_with(".*", &mut buf).unwrap();
    buf.deprecate(&mut owner);
    owner.filter_with("af", &mut buf).unwrap();
    buf.undeprecate(&mut owner);
    assert_eq!(
        flags(&owner),
        [(false, false), (false, false), (true, false), (true, true), (true, true)]
    );
    let mut view: BorrowedContainer = owner.filter("sig").unwrap();
    owner.filter_with("sig", &mut view).unwrap();
    view.undeprecate(&mut owner);
    assert_eq!(flags(&owner)[3], (false, true));
}

#[test]
fn subsets_reach_a_part_of_the_view() {
    let mut owner = container();
    let view = owner.filter("max").unwrap();
    let subset = view.select(1u16..3);
    assert_eq!(idents(&subset, &owner), ["PF_MAX", "SIGMAX"]);
    subset.deprecate(&mut owner);
    assert_eq!(flags(&owner)[3], (true, true));
    subset.undeprecate(&mut owner);
    assert_eq!(flags(&owner)[2], (false, true));
    assert_eq!(flags(&owner)[3], (false, false));
    let range = 0usize..1;
    assert_eq!(idents(&view.select(&range), &owner), ["AF_MAX"]);
}

#[test]
fn visits_can_be_put_on_halt() {
    let mut owner = container();
    let view = owner.filter(".*").unwrap();
    let mut count = 0;
    let found = view.visit(&owner, |c| {
        count += 1;
        if c.ident() == "PF_MAX" { ControlFlow::Break(c.is_deprecated()) } else { ControlFlow::Continue(()) }
    });
    assert_eq!(found, Some(true));
    assert_eq!(count, 3);
}

#[test]
fn mutable_visits_change_the_constants() {
    let mut owner = container();
    let view = owner.filter(".*").unwrap();
    let found = view.visit_mut(&mut owner, |c| {
        c.deprecate(true);
        if c.ident() == "PF_MAX" { ControlFlow::Break(7) } else { ControlFlow::Continue(()) }
    });
    assert_eq!(found, Some(7));
    assert_eq!(
        flags(&owner),
        [(true, false), (true, false), (true, false), (false, false), (false, false)]
    );
}

#[test]
fn the_first_constants_are_visited() {
    let mut owner = container();
    let view = owner.filter(".*").unwrap();
    let mut out = Vec::new();
    let stop = view.visit_n(&owner, 3, |c| {
        out.push(c.ident().to_string());
        ControlFlow::<()>::Continue(())
    });
    assert_eq!(stop, None);
    assert_eq!(out, ["AF_MAX", "AF_UNIX", "PF_MAX"]);
}

#[test]
fn constants_are_found_by_index_and_name() {
    let mut owner = container();
    let mut buf = owner.borrowed();
    owner.filter_with("max", &mut buf).unwrap();
    assert_eq!(buf.find_indexed(&owner, 1u16, |c| c.ident().to_string()), Some("PF_MAX".to_string()));
    assert_eq!(buf.find_indexed(&owner, 3usize, |c| c.is_deprecated()), None);
    assert_eq!(buf.find_named(&owner, "PF_MAX", |c| c.is_deprecated()), Some(true));
    assert_eq!(buf.find_named(&owner, "EPERM", |c| c.is_deprecated()), None);
}

#[test]
fn constants_are_visited_by_range() {
    let mut owner = container();
    let view = owner.filter(".*").unwrap();
    let mut out = Vec::new();
    Visit::select(&view, &owner, 1usize..3, |c| {
        out.push(c.ident().to_string());
        ControlFlow::<()>::Continue(())
    });
    assert_eq!(out, ["AF_UNIX", "PF_MAX"]);
    let mut seen = 0;
    Visit::select(&view, &owner, 3usize..2, |_| {
        seen += 1;
        ControlFlow::<()>::Continue(())
    });
    assert_eq!(seen, 0);
}

#[test]
fn constants_enter_an_empty_view_when_they_are_found() {
    let mut owner = container();
    let mut buf = owner.borrowed();
    buf.deprecate(&mut owner);
    assert_eq!(flags(&owner)[0], (false, false));
    let view = owner.filter("^AF_MAX$").unwrap();
    view.deprecate(&mut owner);
    owner.filter_with("^AF", &mut buf).unwrap();
    buf.undeprecate(&mut owner);
    assert_eq!(flags(&owner)[0], (false, true));
    assert_eq!(flags(&owner)[1], (false, false));
}

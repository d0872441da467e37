use libc_constant_deprecator::{
    handle_input, Const, ConstContainer, CursorStyle, Dir, Draw, Input, KeyCode, KeyModifiers,
    LineColumn, Mode, ModeAction, Msg, Position, PositionRepr, RawUserEvent, Received, Report,
    Request, Selection, SelectionRange, Spinner, State, Style, StylizedSymbol, TerminalEvent,
    Termination, UserEvent,
};

const SIZE: Option<(u16, u16)> = Some((80, 24));

fn constants(idents: &[&str]) -> ConstContainer {
    ConstContainer::new(
        idents
            .iter()
            .map(|ident| {
                Const::from_file(
                    ident.to_string(),
                    false,
                    "a.rs".to_string(),
                    LineColumn { line: 1, column: 0 },
                )
            })
            .collect(),
    )
}

fn state(idents: &[&str]) -> State {
    State::new(constants(idents), 3)
}

fn send(state: &mut State, event: UserEvent) -> Request {
    assert!(state.accepts(event, SIZE));
    state.update(Some(event), SIZE).unwrap()
}

fn press(state: &mut State, event: RawUserEvent) {
    match state.receive_event(Some(event)) {
        Termination::KeepGoing(Some(event)) => _ = send(state, event),
        Termination::KeepGoing(None) => (),
        Termination::Terminate => panic!("there was an event"),
    }
}

fn keys(state: &mut State, text: &str) {
    for c in text.chars() {
        press(state, RawUserEvent::PlainText(c));
    }
}

fn flags(state: &State) -> Vec<bool> {
    let owner = state.constants();
    (0..owner.len()).map(|k| owner.get(k).is_deprecated()).collect()
}

fn modified(state: &State) -> Vec<bool> {
    let owner = state.constants();
    (0..owner.len()).map(|k| owner.is_modified(k)).collect()
}

#[test]
fn spinners_turn_in_four_steps() {
    let mut spinner = Spinner::default();
    let mut seen = spinner.stringified().to_string();
    for _ in 0..4 {
        seen.push_str(spinner.transition().stringified());
    }
    assert_eq!(seen, "|/-\\|");
}

#[test]
fn reports_show_the_last_message() {
    let mut report = Report::default();
    assert_eq!(report.tick(Received::Empty).unwrap(), "| ");
    assert_eq!(report.tick(Received::Message("Parsing".to_string())).unwrap(), "/ Parsing");
    assert_eq!(report.tick(Received::Empty).unwrap(), "- Parsing");
    assert_eq!(report.tick(Received::Disconnected), None);
    assert_eq!(Msg::EffectingChanges.stringified(), "Effecting changes to disk");
    assert_eq!(Msg::FinishedChanges.stringified(), "Finished effecting changes to disk");
    assert!(Msg::FinishedChanges.is_finished() && !Msg::EffectingChanges.is_finished());
}

fn key(code: KeyCode, modifiers: KeyModifiers) -> Input {
    handle_input(TerminalEvent::Key { code, modifiers, press: true })
}

#[test]
fn keys_are_told_apart() {
    let bare = |code| key(code, KeyModifiers::Bare);
    assert_eq!(bare(KeyCode::Char(' ')), Input::Send(RawUserEvent::Space));
    assert_eq!(bare(KeyCode::Char('x')), Input::Send(RawUserEvent::PlainText('x')));
    assert_eq!(bare(KeyCode::Enter), Input::Send(RawUserEvent::Return));
    assert_eq!(bare(KeyCode::Esc), Input::Send(RawUserEvent::Escape));
    assert_eq!(bare(KeyCode::Tab), Input::Send(RawUserEvent::Tab));
    assert_eq!(bare(KeyCode::Backspace), Input::Send(RawUserEvent::Backspace));
    assert_eq!(bare(KeyCode::Other), Input::Ignore);
    assert_eq!(key(KeyCode::Enter, KeyModifiers::Shift), Input::Send(RawUserEvent::ShiftReturn));
    assert_eq!(key(KeyCode::Char('A'), KeyModifiers::Shift), Input::Ignore);
    assert_eq!(key(KeyCode::Char('c'), KeyModifiers::Control), Input::Stop);
    assert_eq!(key(KeyCode::Char('d'), KeyModifiers::Control), Input::Stop);
    assert_eq!(key(KeyCode::Char('e'), KeyModifiers::Control), Input::Ignore);
    assert_eq!(key(KeyCode::Esc, KeyModifiers::Other), Input::Ignore);
    assert_eq!(handle_input(TerminalEvent::Other), Input::Ignore);
    let released =
        TerminalEvent::Key { code: KeyCode::Enter, modifiers: KeyModifiers::Bare, press: false };
    assert_eq!(handle_input(released), Input::Ignore);
}

#[test]
fn keys_mean_something_else_in_each_mode() {
    let text = RawUserEvent::PlainText;
    let action = |action| Some(UserEvent::ModeAction(action));
    assert_eq!(Mode::default(), Mode::Normal);
    assert_eq!(Mode::Insert.interpret(text('h')), Some(UserEvent::TextualInput('h')));
    assert_eq!(Mode::Insert.interpret(RawUserEvent::Space), Some(UserEvent::TextualInput(' ')));
    assert_eq!(Mode::Insert.interpret(RawUserEvent::Backspace), Some(UserEvent::Pop));
    assert_eq!(Mode::Insert.interpret(RawUserEvent::Return), Some(UserEvent::Search));
    assert_eq!(Mode::Insert.interpret(RawUserEvent::ShiftReturn), None);
    let normal = action(ModeAction::ModeSwitch(Mode::Normal));
    assert_eq!(Mode::Insert.interpret(RawUserEvent::Escape), normal);
    assert_eq!(Mode::Select.interpret(RawUserEvent::Escape), normal);
    assert_eq!(Mode::Normal.interpret(RawUserEvent::Escape), Some(UserEvent::Clear));
    for (c, way) in [
        ('h', ModeAction::GoLeft),
        ('l', ModeAction::GoRight),
        ('k', ModeAction::GoUp),
        ('j', ModeAction::GoDown),
    ] {
        assert_eq!(Mode::Normal.interpret(text(c)), action(way));
        assert_eq!(Mode::Select.interpret(text(c)), action(way));
    }
    assert_eq!(
        Mode::Normal.interpret(text('i')),
        action(ModeAction::ModeSwitch(Mode::Insert))
    );
    assert_eq!(
        Mode::Normal.interpret(text('v')),
        action(ModeAction::ModeSwitch(Mode::Select))
    );
    assert_eq!(Mode::Select.interpret(text('v')), None);
    assert_eq!(Mode::Normal.interpret(text('x')), None);
    assert_eq!(Mode::Normal.interpret(RawUserEvent::ShiftReturn), Some(UserEvent::Effect));
    assert_eq!(Mode::Normal.interpret(RawUserEvent::Return), Some(UserEvent::Search));
    assert_eq!(Mode::Select.interpret(RawUserEvent::Return), None);
    assert_eq!(Mode::Normal.interpret(RawUserEvent::Space), Some(UserEvent::Toggle));
    assert_eq!(Mode::Select.interpret(RawUserEvent::Space), Some(UserEvent::Toggle));
    assert_eq!(Mode::Normal.interpret(RawUserEvent::Backspace), None);
    for mode in [Mode::Insert, Mode::Normal, Mode::Select] {
        assert_eq!(mode.interpret(RawUserEvent::Tab), Some(UserEvent::Switch));
    }
}

#[test]
fn positions_stay_within_bounds() {
    let mut p = Position::new_prompt(5, 0);
    assert_eq!((p.row, p.col), (5, 2));
    p.advance(0, (4, 24));
    p.advance(0, (4, 24));
    p.advance(0, (4, 24));
    assert_eq!((p.into_prompt(), p.col), (2, 4));
    p.retract();
    assert_eq!((p.into_prompt(), p.col), (1, 3));
    p.retract();
    p.retract();
    assert_eq!((p.into_prompt(), p.row, p.col), (0, 5, 2));
    p.transition(5);
    assert_eq!((p.into_list(), p.row, p.col), (0, 6, 4));
    p.retract();
    assert_eq!((p.into_list(), p.row), (0, 6));
    for _ in 0..20 {
        p.advance(30, (80, 24));
    }
    assert_eq!((p.into_list(), p.row), (9, 15));
    p = Position { repr: PositionRepr::Prompt(4), row: 0, col: u16::MAX };
    p.advance(0, (5, 24));
    assert_eq!((p.into_prompt(), p.col), (4, u16::MAX));
    p = Position { repr: PositionRepr::Prompt(4), row: 0, col: 0 };
    p.retract();
    assert_eq!((p.into_prompt(), p.col), (3, 0));
    p = Position::new_list(5, 0);
    for _ in 0..5 {
        p.advance(3, (80, 24));
    }
    assert_eq!(p.into_list(), 2);
    p = Position::new_list(5, 0);
    for _ in 0..5 {
        p.advance(30, (80, 3));
    }
    assert_eq!(p.into_list(), 1);
    p.transition(5);
    assert_eq!(p.repr, PositionRepr::Prompt(0));
}

fn bounds(s: &Selection) -> (u16, u16) {
    (s.range().start, s.range().end)
}

#[test]
fn selections_span_pivot_and_cursor() {
    let mut s = Selection::with_pivot(4);
    assert_eq!(bounds(&s), (4, 5));
    s.extend(Dir::Up, &Position::new_list(0, 3));
    assert_eq!(bounds(&s), (3, 5));
    s.extend(Dir::Down, &Position::new_list(0, 4));
    assert_eq!(bounds(&s), (4, 5));
    s.extend(Dir::Down, &Position::new_list(0, 5));
    assert_eq!(bounds(&s), (4, 6));
    s.extend(Dir::Up, &Position::new_list(0, 4));
    assert_eq!(bounds(&s), (4, 5));
    s.extend(Dir::Up, &Position::new_list(0, 4));
    assert_eq!(bounds(&s), (4, 5));
    let mut s = Selection::with_pivot(3);
    s.extend(Dir::Down, &Position::new_list(0, 3));
    assert_eq!(bounds(&s), (3, 4));
    s = Selection::with_pivot(4);
    assert_eq!(bounds(&Selection::default()), (0, 1));
    assert_eq!(Selection::with_pivot(2).into_range(), 2..3);
    assert_eq!(SelectionRange::default().into_inner(), 0..1);
    let mut range = SelectionRange::new(2, 7);
    *range.start_mut() += 1;
    *range.end_mut() -= 1;
    assert_eq!((*range.start(), *range.end()), (3, 6));
    s.range_mut().end = 9;
    assert_eq!(s.map_ref(|s| s.clone().into_range()), 4..9);
}

#[test]
fn the_state_begins_in_the_prompt() {
    let s = state(&["A", "B"]);
    assert_eq!(s.mode(), Mode::Normal);
    assert_eq!(s.pos(), Position::new_prompt(3, 0));
    assert_eq!(s.prompt(), "");
    assert_eq!(s.filter_buf().len(), 2);
    assert_eq!(bounds(s.selected()), (0, 1));
    assert!(s.receive_event(None).should_terminate());
}

#[test]
fn text_is_typed_and_removed_at_the_cursor() {
    let mut s = state(&["A"]);
    keys(&mut s, "i");
    assert_eq!(s.mode(), Mode::Insert);
    keys(&mut s, "abc");
    assert_eq!((s.prompt(), s.pos().into_prompt()), ("abc", 3));
    press(&mut s, RawUserEvent::Escape);
    keys(&mut s, "hhi");
    keys(&mut s, "X");
    assert_eq!((s.prompt(), s.pos().into_prompt()), ("aXbc", 2));
    press(&mut s, RawUserEvent::Backspace);
    assert_eq!((s.prompt(), s.pos().into_prompt()), ("aXc", 1));
    press(&mut s, RawUserEvent::Escape);
    keys(&mut s, "lllll");
    assert_eq!(s.pos().into_prompt(), 3);
    keys(&mut s, "i");
    press(&mut s, RawUserEvent::Backspace);
    assert_eq!((s.prompt(), s.pos().into_prompt()), ("aX", 2));
    press(&mut s, RawUserEvent::Space);
    assert_eq!(s.prompt(), "aX ");
}

#[test]
fn text_is_only_changed_where_a_character_starts() {
    let mut s = state(&["A"]);
    keys(&mut s, "ié");
    assert_eq!(s.prompt(), "é");
    assert!(!s.accepts(UserEvent::TextualInput('a'), SIZE));
    assert!(!s.accepts(UserEvent::Pop, SIZE));
    assert!(!state(&["A"]).accepts(UserEvent::TextualInput('a'), None));
    assert!(!state(&["A"]).accepts(UserEvent::TextualInput('a'), Some((0, 24))));
    let mut s = state(&["A"]);
    send(&mut s, UserEvent::Switch);
    assert!(!s.accepts(UserEvent::Pop, SIZE));
}

#[test]
fn searches_filter_the_view() {
    let mut s = state(&["A_MAX", "B", "C_MAX"]);
    keys(&mut s, "i_max");
    press(&mut s, RawUserEvent::Return);
    assert_eq!(s.filter_buf().len(), 2);
    press(&mut s, RawUserEvent::Escape);
    press(&mut s, RawUserEvent::Space);
    assert_eq!(flags(&s), [true, false, true]);
    press(&mut s, RawUserEvent::Escape);
    assert_eq!((s.prompt(), s.pos().into_prompt()), ("", 0));
    press(&mut s, RawUserEvent::Space);
    assert_eq!(flags(&s), [true, true, true]);
    press(&mut s, RawUserEvent::Space);
    assert_eq!(flags(&s), [false, false, false]);
    assert_eq!(modified(&s), [false, false, false]);
}

#[test]
fn malformed_searches_fail() {
    let mut s = state(&["A"]);
    keys(&mut s, "i(");
    let err = s.update(Some(UserEvent::Search), None).unwrap_err();
    assert_eq!(err.source_re(), "(");
    assert_eq!((s.prompt(), s.mode()), ("(", Mode::Insert));
}

#[test]
fn switching_leaves_the_other_modes() {
    let mut s = state(&["A", "B", "C"]);
    keys(&mut s, "i");
    press(&mut s, RawUserEvent::Tab);
    assert_eq!((s.mode(), s.pos().into_list()), (Mode::Normal, 0));
    keys(&mut s, "jv");
    assert_eq!((s.mode(), bounds(s.selected())), (Mode::Select, (1, 2)));
    press(&mut s, RawUserEvent::Tab);
    assert_eq!((s.mode(), bounds(s.selected())), (Mode::Normal, (0, 1)));
    assert_eq!(s.pos().into_prompt(), 0);
    keys(&mut s, "v");
    assert_eq!(s.mode(), Mode::Normal);
    let mut empty = state(&[]);
    press(&mut empty, RawUserEvent::Tab);
    assert!(empty.pos().is_prompt());
}

#[test]
fn selections_are_toggled() {
    let mut s = state(&["A", "B", "C", "D"]);
    press(&mut s, RawUserEvent::Tab);
    keys(&mut s, "jvj");
    assert_eq!(bounds(s.selected()), (1, 3));
    press(&mut s, RawUserEvent::Space);
    assert_eq!(flags(&s), [false, true, true, false]);
    assert_eq!(modified(&s), [false, true, true, false]);
    press(&mut s, RawUserEvent::Space);
    assert_eq!(flags(&s), [false, false, false, false]);
    keys(&mut s, "k");
    press(&mut s, RawUserEvent::Space);
    assert_eq!(flags(&s), [false, true, false, false]);
    press(&mut s, RawUserEvent::Escape);
    assert_eq!((s.mode(), bounds(s.selected())), (Mode::Normal, (0, 1)));
    press(&mut s, RawUserEvent::Space);
    assert_eq!(flags(&s), [true, true, true, true]);
    keys(&mut s, "vi");
    assert_eq!(s.mode(), Mode::Select);
    send(&mut s, UserEvent::ModeAction(ModeAction::ModeSwitch(Mode::Insert)));
    assert_eq!((s.mode(), s.pos().into_prompt()), (Mode::Insert, 0));
}

#[test]
fn selections_end_with_the_list() {
    let mut s = state(&["A", "B"]);
    press(&mut s, RawUserEvent::Tab);
    keys(&mut s, "vjjj");
    assert_eq!(bounds(s.selected()), (0, 2));
    keys(&mut s, "kkk");
    assert_eq!(bounds(s.selected()), (0, 1));
    press(&mut s, RawUserEvent::Space);
    assert_eq!(flags(&s), [true, false]);
}

#[test]
fn saved_changes_are_where_later_ones_start_from() {
    let mut s = state(&["A"]);
    press(&mut s, RawUserEvent::Space);
    assert_eq!((flags(&s), modified(&s)), (vec![true], vec![true]));
    assert!(s.take_over("a.rs", "#[deprecated] const A: i32 = 1;"));
    assert_eq!((flags(&s), modified(&s)), (vec![true], vec![false]));
    press(&mut s, RawUserEvent::Space);
    assert_eq!((flags(&s), modified(&s)), (vec![false], vec![true]));
    press(&mut s, RawUserEvent::Space);
    assert_eq!((flags(&s), modified(&s)), (vec![true], vec![false]));
    assert!(!s.take_over("a.rs", "const B: i32 = 1;"));
}

#[test]
fn effects_are_asked_for() {
    let mut s = state(&["A"]);
    assert_eq!(send(&mut s, UserEvent::Effect), Request::Effect);
    assert_eq!(send(&mut s, UserEvent::Clear), Request::Nothing);
    assert_eq!(s.update(None, None).unwrap(), Request::Nothing);
}

fn shown(s: &mut State) -> (Vec<String>, bool) {
    let mut out = Vec::new();
    let failed = s.draw(&mut out).is_err();
    let style = |style: Style| {
        format!(
            "{}{}{}",
            if style.bold { "b" } else { "" },
            if style.underlined { "u" } else { "" },
            if style.dim { "d" } else { "" }
        )
    };
    let symbol = |s: &StylizedSymbol| {
        format!("{}{}{}{}", s.mark(), style(s.mark_style()), s.ident(), style(s.ident_style()))
    };
    let lines = out
        .iter()
        .map(|draw| match draw {
            Draw::Hide => "hide".to_string(),
            Draw::Show => "show".to_string(),
            Draw::RestorePosition => "home".to_string(),
            Draw::ClearFromCursorDown => "clear".to_string(),
            Draw::Print(text) => text.clone(),
            Draw::Symbol(s) => symbol(s),
            Draw::MoveToNextLine(n) => format!("down {n}"),
            Draw::MoveRight(n) => format!("right {n}"),
            Draw::SetCursorStyle(CursorStyle::SteadyBar) => "bar".to_string(),
            Draw::SetCursorStyle(CursorStyle::SteadyBlock) => "block".to_string(),
        })
        .collect();
    (lines, failed)
}

#[test]
fn prompts_and_lists_are_drawn() {
    let mut s = state(&["A", "B"]);
    let top = ["hide", "home", "clear", "> ", "home", "down 1", "[ ]A", "down 1", "[ ]B", "down 1", "home"];
    let (lines, failed) = shown(&mut s);
    assert!(!failed);
    assert_eq!(lines, [&top[..], &["right 2", "block", "show"]].concat());
    keys(&mut s, "ia");
    let (lines, _) = shown(&mut s);
    assert_eq!(lines[3], "> a");
    assert_eq!(lines[11..], ["right 3", "bar", "show"]);
    let (lines, _) = shown(&mut state(&[]));
    assert_eq!(
        lines[5..],
        ["down 1", "(no constants matched the regex)", "home", "right 2", "block", "show"]
    );
}

#[test]
fn the_row_of_the_cursor_is_highlighted() {
    let mut s = state(&["A", "B"]);
    press(&mut s, RawUserEvent::Tab);
    keys(&mut s, "j");
    press(&mut s, RawUserEvent::Space);
    let (lines, failed) = shown(&mut s);
    assert!(!failed);
    assert_eq!(lines[6..9], ["[X]A", "down 1", "[X]B"]);
    assert_eq!(lines[11..], ["down 2", "[X]buBbu"]);
}

#[test]
fn searches_without_a_match_show_so() {
    let mut s = state(&["A", "B"]);
    keys(&mut s, "iz");
    press(&mut s, RawUserEvent::Return);
    assert!(s.filter_buf().is_empty());
    press(&mut s, RawUserEvent::Tab);
    assert!(s.pos().is_prompt());
    let (lines, failed) = shown(&mut s);
    assert!(!failed);
    assert_eq!(lines[5..8], ["down 1", "(no constants matched the regex)", "home"]);
    press(&mut s, RawUserEvent::Escape);
    press(&mut s, RawUserEvent::Space);
    assert_eq!(flags(&s), [false, false]);
}

#[test]
fn empty_lists_are_left() {
    let mut s = state(&["A", "B"]);
    keys(&mut s, "iz");
    press(&mut s, RawUserEvent::Escape);
    press(&mut s, RawUserEvent::Tab);
    assert!(s.pos().is_list());
    press(&mut s, RawUserEvent::Return);
    assert!(s.pos().is_list());
    let (lines, failed) = shown(&mut s);
    assert!(!failed);
    assert!(s.pos().is_prompt());
    assert_eq!(lines[6], "(no constants matched the regex)");
    press(&mut s, RawUserEvent::Escape);
    assert_eq!(s.filter_buf().len(), 2);
}

#[test]
fn matches_are_listed_wherever_they_are() {
    let mut idents = vec!["A"; 12];
    idents[11] = "Z";
    let mut s = state(&idents);
    keys(&mut s, "iz");
    press(&mut s, RawUserEvent::Return);
    let (lines, _) = shown(&mut s);
    assert_eq!(lines[5..9], ["down 1", "[ ]Z", "down 1", "home"]);
    press(&mut s, RawUserEvent::Tab);
    keys(&mut s, "j");
    assert_eq!(s.pos().into_list(), 0);
    keys(&mut s, "v");
    press(&mut s, RawUserEvent::Space);
    assert!(flags(&s)[11] && !flags(&s)[0]);
}

#[test]
fn selected_rows_are_highlighted() {
    let mut s = state(&["A", "B", "C"]);
    press(&mut s, RawUserEvent::Tab);
    keys(&mut s, "jvj");
    let (lines, failed) = shown(&mut s);
    assert!(!failed);
    assert_eq!(
        lines[13..],
        [
            "down 2", "[ ]buBd", "down 1", "[ ]buCd", "down 1", "home", "down 3", "[ ]buCbud",
            "home", "down 3"
        ]
    );
}

#[test]
fn ten_rows_are_listed_at_most() {
    let idents: Vec<String> = (0..12).map(|n| format!("C{n}")).collect();
    let names: Vec<&str> = idents.iter().map(|ident| ident.as_str()).collect();
    let (lines, _) = shown(&mut state(&names));
    assert!(lines.contains(&"[ ]C9".to_string()));
    assert!(!lines.contains(&"[ ]C10".to_string()));
}

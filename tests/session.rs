use systeroid::app::{Action, App, Command, Direction, InputMode, Key, ScrollArea, MESSAGE_DURATION};
use systeroid::sysctl::{Parameter, Section, Sysctl};

fn parameter(name: &str, value: &str, section: Section) -> Parameter {
    Parameter {
        name: String::from(name),
        value: String::from(value),
        description: None,
        section,
        docs_path: String::new(),
        docs_title: String::new(),
    }
}

fn three() -> Vec<Parameter> {
    let mut test_param = parameter("kernel.fictional.test_param", "0", Section::Kernel);
    test_param.description = Some(String::from("This is a fictional parameter for testing"));
    test_param.docs_path = String::from("/etc/cosmos");
    test_param.docs_title = String::from("Test Parameter");
    let mut stat = parameter("vm.stat_interval", "1", Section::Vm);
    stat.description = Some(String::from("The time interval between which vm statistics are updated"));
    stat.docs_path = String::from("/usr/share/doc/linux/admin-guide/sysctl/vm.rst");
    stat.docs_title = String::from("stat_interval");
    vec![parameter("user.name", "system", Section::User), test_param, stat]
}

fn session(clipboard: bool) -> App {
    App::new(Sysctl { parameters: three() }, clipboard)
}

fn input_text(app: &App) -> String {
    app.input.as_ref().map(|i| i.text.iter().collect()).unwrap_or_default()
}

fn type_text(app: &mut App, text: &str) {
    for c in text.chars() {
        app.run_command(Command::UpdateInput(c));
    }
}

#[test]
fn select_opens_set_line() {
    let mut app = session(false);
    assert_eq!(app.visible, vec![0, 1, 2]);
    assert_eq!(app.selected, Some(0));
    app.run_command(Command::Select);
    let input = app.input.as_ref().unwrap();
    assert_eq!(input.mode, InputMode::Command);
    assert_eq!(input_text(&app), "set user.name system");
    assert_eq!(app.input.as_ref().unwrap().cursor, 20);
}

#[test]
fn noop_update_succeeds() {
    let mut app = session(false);
    app.run_command(Command::Select);
    let action = app.run_command(Command::ProcessInput);
    assert!(app.input.is_none());
    match action {
        Action::Update { index, value } => {
            assert_eq!(index, 0);
            assert_eq!(value, "system");
            app.finish_update(index, value, Ok(()));
        }
        other => panic!("expected an update, got {:?}", other),
    }
    assert_eq!(app.sysctl.parameters[0].value, "system");
    assert!(app.message.is_none());
}

#[test]
fn failed_write_leaves_value_and_message() {
    let mut app = session(false);
    app.run_command(Command::Select);
    app.run_command(Command::ClearInput(true));
    type_text(&mut app, "syskill");
    assert_eq!(input_text(&app), "set user.name syskill");
    let action = app.run_command(Command::ProcessInput);
    match action {
        Action::Update { index, value } => {
            assert_eq!(value, "syskill");
            app.finish_update(index, value, Err(String::from("no such sysctl: user.name")));
        }
        other => panic!("expected an update, got {:?}", other),
    }
    assert_eq!(app.sysctl.parameters[0].value, "system");
    assert!(app.message.as_ref().unwrap().text.contains("no such sysctl"));
}

#[test]
fn unknown_name_is_reported() {
    let mut app = App::new(Sysctl { parameters: three()[1..].to_vec() }, false);
    app.input = None;
    app.run_command(Command::Search);
    app.run_command(Command::Exit);
    app.run_command(Command::Select);
    app.run_command(Command::ClearInput(true));
    app.run_command(Command::ClearInput(true));
    type_text(&mut app, "user.name syskill");
    assert_eq!(input_text(&app), "set user.name syskill");
    let action = app.run_command(Command::ProcessInput);
    assert!(matches!(action, Action::Nothing));
    assert_eq!(app.message.as_ref().unwrap().text, "sysctl error: no such sysctl: user.name");
    assert_eq!(app.sysctl.parameters[0].value, "0");
    assert!(app.input.is_none());
}

#[test]
fn malformed_command_is_reported() {
    let mut app = session(false);
    app.run_command(Command::Select);
    app.run_command(Command::MoveCursor(-100));
    app.run_command(Command::ClearInput(false));
    app.run_command(Command::MoveCursor(1));
    app.run_command(Command::ClearInput(false));
    assert_eq!(input_text(&app), "et user.name system");
    let action = app.run_command(Command::ProcessInput);
    assert!(matches!(action, Action::Nothing));
    assert!(app.message.is_some());
    assert_eq!(app.sysctl.parameters[0].value, "system");
}

#[test]
fn editing_moves_and_deletes() {
    let mut app = session(false);
    app.run_command(Command::Select);
    app.run_command(Command::ClearInput(false));
    assert_eq!(input_text(&app), "set user.name syste");
    app.run_command(Command::MoveCursor(-2));
    type_text(&mut app, "X");
    assert_eq!(input_text(&app), "set user.name sysXte");
    assert_eq!(app.input.as_ref().unwrap().cursor, 18);
    app.run_command(Command::MoveCursor(100));
    assert_eq!(app.input.as_ref().unwrap().cursor, 20);
    app.run_command(Command::ClearInput(true));
    assert_eq!(input_text(&app), "set user.name ");
    app.run_command(Command::ClearInput(true));
    assert_eq!(input_text(&app), "set ");
    app.run_command(Command::ClearInput(true));
    app.run_command(Command::ClearInput(true));
    assert_eq!(input_text(&app), "");
    assert_eq!(app.input.as_ref().unwrap().cursor, 0);
}

#[test]
fn message_expires_after_its_time() {
    let mut app = session(false);
    app.tick(100);
    app.show_message(String::from("hello"), 2);
    assert_eq!(app.message.as_ref().unwrap().text, "hello");
    app.tick(101);
    assert!(app.message.is_some());
    app.tick(102);
    assert!(app.message.is_some());
    app.tick(103);
    assert!(app.message.is_none());
}

#[test]
fn command_messages_last_the_default_time() {
    let mut app = session(false);
    app.tick(10);
    app.run_command(Command::Copy);
    assert_eq!(app.message.as_ref().unwrap().expires_at, 10 + MESSAGE_DURATION);
    app.tick(10 + MESSAGE_DURATION + 1);
    assert!(app.message.is_none());
}

#[test]
fn exit_goes_back_one_level() {
    let mut app = session(true);
    app.run_command(Command::Search);
    assert!(app.input.is_some());
    app.run_command(Command::Exit);
    assert!(app.input.is_none());
    assert!(app.running);
    app.run_command(Command::Copy);
    assert_eq!(app.popup, Some(0));
    app.run_command(Command::Exit);
    assert!(app.popup.is_none());
    assert!(app.running);
    app.run_command(Command::Exit);
    assert!(!app.running);
}

#[test]
fn copy_without_clipboard_shows_message() {
    let mut app = session(false);
    app.run_command(Command::Copy);
    assert!(app.popup.is_none());
    assert_eq!(app.message.as_ref().unwrap().text, "Clipboard support is not enabled");
}

#[test]
fn copy_popup_picks_name_or_value() {
    let mut app = session(true);
    app.run_command(Command::Scroll(ScrollArea::List, Direction::Down, 2));
    app.run_command(Command::Copy);
    match app.run_command(Command::Select) {
        Action::CopyText(t) => assert_eq!(t, "vm.stat_interval"),
        other => panic!("expected a copy, got {:?}", other),
    }
    app.run_command(Command::Copy);
    app.run_command(Command::Scroll(ScrollArea::List, Direction::Down, 5));
    assert_eq!(app.popup, Some(1));
    assert_eq!(app.selected, Some(2));
    match app.run_command(Command::Select) {
        Action::CopyText(t) => assert_eq!(t, "1"),
        other => panic!("expected a copy, got {:?}", other),
    }
    assert!(app.popup.is_none());
}

#[test]
fn top_then_bottom_equals_bottom() {
    for start in 0..3usize {
        let mut a = session(false);
        let mut b = session(false);
        a.run_command(Command::Scroll(ScrollArea::List, Direction::Down, start as u8));
        b.run_command(Command::Scroll(ScrollArea::List, Direction::Down, start as u8));
        a.run_command(Command::Scroll(ScrollArea::List, Direction::Top, 7));
        a.run_command(Command::Scroll(ScrollArea::List, Direction::Bottom, 1));
        b.run_command(Command::Scroll(ScrollArea::List, Direction::Bottom, 3));
        assert_eq!(a.selected, b.selected);
        assert_eq!(a.selected, Some(2));
    }
}

#[test]
fn list_scroll_is_clamped() {
    let mut app = session(false);
    app.run_command(Command::Scroll(ScrollArea::List, Direction::Down, 200));
    assert_eq!(app.selected, Some(2));
    app.run_command(Command::Scroll(ScrollArea::List, Direction::Up, 1));
    assert_eq!(app.selected, Some(1));
    app.run_command(Command::Scroll(ScrollArea::List, Direction::Up, 9));
    assert_eq!(app.selected, Some(0));
}

#[test]
fn documentation_scroll_is_clamped() {
    let mut app = session(false);
    app.docs_lines = 6;
    app.run_command(Command::Scroll(ScrollArea::Documentation, Direction::Up, 1));
    assert_eq!(app.docs_scroll, 0);
    app.run_command(Command::Scroll(ScrollArea::Documentation, Direction::Down, 5));
    assert_eq!(app.docs_scroll, 5);
    app.run_command(Command::Scroll(ScrollArea::Documentation, Direction::Down, 5));
    assert_eq!(app.docs_scroll, 6);
    app.run_command(Command::Scroll(ScrollArea::Documentation, Direction::Top, 0));
    assert_eq!(app.docs_scroll, 0);
    app.run_command(Command::Scroll(ScrollArea::Documentation, Direction::Bottom, 0));
    assert_eq!(app.docs_scroll, 6);
}

#[test]
fn search_filters_the_list() {
    let mut app = session(false);
    app.run_command(Command::Search);
    type_text(&mut app, "_");
    assert_eq!(app.input.as_ref().unwrap().mode, InputMode::Search);
    app.run_command(Command::ProcessInput);
    assert!(app.input.is_none());
    assert_eq!(app.visible, vec![1, 2]);
    assert_eq!(app.selected, Some(0));
    app.run_command(Command::Search);
    type_text(&mut app, "nothing here");
    app.run_command(Command::ProcessInput);
    assert!(app.visible.is_empty());
    assert_eq!(app.selected, None);
    app.run_command(Command::Search);
    app.run_command(Command::ProcessInput);
    assert_eq!(app.visible, vec![0, 1, 2]);
}

#[test]
fn section_limits_the_list() {
    let mut app = session(false);
    app.section = Some(Section::Vm);
    app.run_command(Command::Search);
    app.run_command(Command::ProcessInput);
    assert_eq!(app.visible, vec![2]);
}

#[test]
fn refresh_keeps_selection_by_name() {
    let mut app = session(false);
    app.run_command(Command::Scroll(ScrollArea::List, Direction::Down, 1));
    let action = app.run_command(Command::Refresh);
    assert!(matches!(action, Action::Refresh));
    let mut fresh = three();
    fresh.remove(0);
    fresh[0].value = String::from("7");
    app.reload(fresh);
    assert_eq!(app.visible, vec![0, 1]);
    assert_eq!(app.selected, Some(0));
    assert_eq!(app.sysctl.parameters[0].value, "7");
    app.reload(vec![parameter("fs.other", "x", Section::Fs)]);
    assert_eq!(app.selected, Some(0));
    app.reload(Vec::new());
    assert_eq!(app.selected, None);
}

#[test]
fn commands_do_nothing_out_of_their_mode() {
    let mut app = session(false);
    app.run_command(Command::UpdateInput('x'));
    app.run_command(Command::MoveCursor(1));
    app.run_command(Command::ClearInput(false));
    assert!(matches!(app.run_command(Command::ProcessInput), Action::Nothing));
    assert!(app.input.is_none());
    app.run_command(Command::Search);
    app.run_command(Command::Scroll(ScrollArea::List, Direction::Down, 1));
    assert_eq!(app.selected, Some(0));
    app.run_command(Command::Select);
    assert_eq!(app.input.as_ref().unwrap().mode, InputMode::Search);
    assert!(matches!(app.run_command(Command::Nothing), Action::Nothing));
}

#[test]
fn keys_map_to_commands() {
    assert_eq!(Command::parse(Key::Char('q'), false), Command::Exit);
    assert_eq!(Command::parse(Key::Char('q'), true), Command::UpdateInput('q'));
    assert_eq!(Command::parse(Key::Char('\n'), true), Command::ProcessInput);
    assert_eq!(Command::parse(Key::Char('\n'), false), Command::Select);
    assert_eq!(Command::parse(Key::Char('/'), false), Command::Search);
    assert_eq!(Command::parse(Key::Backspace, true), Command::ClearInput(false));
    assert_eq!(Command::parse(Key::Ctrl('w'), true), Command::ClearInput(true));
    assert_eq!(Command::parse(Key::Left, true), Command::MoveCursor(-1));
    assert_eq!(Command::parse(Key::End, false), Command::Scroll(ScrollArea::List, Direction::Bottom, 0));
    assert_eq!(Command::parse(Key::Esc, true), Command::Exit);
    assert_eq!(Command::parse(Key::Other, false), Command::Nothing);
}

#[test]
fn tick_changes_only_the_message_and_clock() {
    let mut app = session(false);
    app.run_command(Command::Scroll(ScrollArea::List, Direction::Down, 1));
    app.run_command(Command::Copy);
    let selected = app.selected;
    let visible = app.visible.clone();
    app.tick(MESSAGE_DURATION + 1);
    assert!(app.message.is_none());
    assert_eq!(app.now, MESSAGE_DURATION + 1);
    assert_eq!(app.selected, selected);
    assert_eq!(app.visible, visible);
    assert!(app.running);
}

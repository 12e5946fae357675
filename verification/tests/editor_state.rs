use amp::application::{Application, ErrorReport, ModeKey};
use amp::buffer::{Buffer, Position};
use amp::commands::{application, workspace, Command};
use amp::documentation::QUICK_START_GUIDE;
use amp::errors::Error;
use amp::input::{Key, KeyMap, KeymapMode};
use amp::text::split_lines;
use amp::view::scroll::{center_on, scroll_into_view};

fn app() -> Application {
    Application::new(&Vec::new()).unwrap()
}

fn app_with_buffer() -> Application {
    let mut app = app();
    let mut buffer = Buffer::new();
    buffer.insert("first line\nsecond line\n");
    buffer.move_cursor_to(Position { line: 1, offset: 4 });
    app.workspace.add_buffer(buffer);
    app
}

#[test]
fn new_opens_a_buffer_for_each_argument() {
    let app = Application::new(&vec![String::from("a.txt"), String::from("b.txt")]).unwrap();
    assert_eq!(app.workspace.buffers.len(), 2);
    assert_eq!(app.workspace.current_buffer().unwrap().path, Some(String::from("b.txt")));
    assert_eq!(app.mode, ModeKey::Normal);
    assert_eq!(app.mode_str(), Some("normal"));
}

#[test]
fn modes_that_need_a_buffer_fail_without_one() {
    let mut app = app();
    assert_eq!(application::switch_to_insert_mode(&mut app), Err(Error::BufferMissing));
    assert_eq!(application::switch_to_jump_mode(&mut app), Err(Error::BufferMissing));
    assert_eq!(application::switch_to_second_stage_jump_mode(&mut app), Err(Error::BufferMissing));
    assert_eq!(application::switch_to_line_jump_mode(&mut app), Err(Error::BufferMissing));
    assert_eq!(application::switch_to_select_mode(&mut app), Err(Error::BufferMissing));
    assert_eq!(application::switch_to_select_line_mode(&mut app), Err(Error::BufferMissing));
    assert_eq!(application::switch_to_search_mode(&mut app), Err(Error::BufferMissing));
    assert_eq!(application::switch_to_path_mode(&mut app), Err(Error::BufferMissing));
    assert_eq!(application::switch_to_syntax_mode(&mut app), Err(Error::SyntaxRequiresBuffer));
    assert_eq!(app.mode, ModeKey::Normal);
}

#[test]
fn insert_mode_opens_an_undo_group_that_normal_mode_closes() {
    let mut app = app_with_buffer();
    application::switch_to_insert_mode(&mut app).unwrap();
    assert_eq!(app.mode, ModeKey::Insert);
    assert!(app.workspace.current_buffer().unwrap().operation_group_open);

    application::switch_to_normal_mode(&mut app).unwrap();
    assert_eq!(app.mode, ModeKey::Normal);
    assert!(!app.workspace.current_buffer().unwrap().operation_group_open);
}

#[test]
fn normal_mode_needs_no_buffer() {
    let mut app = app();
    application::switch_to_normal_mode(&mut app).unwrap();
    assert_eq!(app.mode, ModeKey::Normal);
}

#[test]
fn jump_modes_start_from_the_cursor_line() {
    let mut app = app_with_buffer();
    application::switch_to_jump_mode(&mut app).unwrap();
    assert_eq!(app.mode, ModeKey::Jump);
    assert_eq!(app.modes.jump.cursor_line, 1);
    assert!(app.modes.jump.first_phase);

    application::switch_to_second_stage_jump_mode(&mut app).unwrap();
    assert_eq!(app.mode, ModeKey::Jump);
    assert!(!app.modes.jump.first_phase);
}

#[test]
fn line_jump_mode_starts_with_an_empty_line_number() {
    let mut app = app_with_buffer();
    app.modes.line_jump.input = vec!['4', '2'];
    application::switch_to_line_jump_mode(&mut app).unwrap();
    assert_eq!(app.mode, ModeKey::LineJump);
    assert!(app.modes.line_jump.input.is_empty());
}

#[test]
fn select_modes_anchor_at_the_cursor() {
    let mut app = app_with_buffer();
    application::switch_to_select_mode(&mut app).unwrap();
    assert_eq!(app.mode, ModeKey::Select);
    assert_eq!(app.modes.select.anchor, Position { line: 1, offset: 4 });

    application::switch_to_select_line_mode(&mut app).unwrap();
    assert_eq!(app.mode, ModeKey::SelectLine);
    assert_eq!(app.modes.select_line.anchor, 1);
}

#[test]
fn search_mode_keeps_its_state() {
    let mut app = app_with_buffer();
    app.modes.search.insert = false;
    application::switch_to_search_mode(&mut app).unwrap();
    assert_eq!(app.mode, ModeKey::Search);
    assert_eq!(app.mode_str(), Some("search"));
}

#[test]
fn exit_and_suspend() {
    let mut app = app();
    application::suspend(&mut app).unwrap();
    assert!(app.view.suspend_requested);
    application::exit(&mut app).unwrap();
    assert_eq!(app.mode, ModeKey::Exit);
    assert_eq!(app.mode_str(), None);
}

#[test]
fn display_default_keymap_shows_the_keymap_text() {
    let mut app = app();
    application::display_default_keymap(&mut app).unwrap();
    let shown = app.workspace.current_buffer().unwrap().data();
    assert_eq!(shown, KeyMap::default_data());
    assert!(shown.starts_with("normal:\n  space: application::switch_to_open_mode\n"));
    assert!(shown.contains("  i: application::switch_to_insert_mode\n"));
}

#[test]
fn display_quick_start_guide_shows_the_guide() {
    let mut app = app_with_buffer();
    application::display_quick_start_guide(&mut app).unwrap();
    assert_eq!(app.workspace.buffers.len(), 2);
    let shown = app.workspace.current_buffer().unwrap().data();
    assert_eq!(shown, QUICK_START_GUIDE);
    assert!(shown.starts_with("Welcome to the quick start guide.\n"));
    // The buffer that was open before is still there, unchanged.
    assert_eq!(app.workspace.buffers[0].data(), "first line\nsecond line\n");
}

#[test]
fn display_available_commands_lists_every_command_once_in_order() {
    let mut app = app();
    application::display_available_commands(&mut app).unwrap();
    let data = app.workspace.current_buffer().unwrap().data();
    let lines: Vec<&str> = data.lines().collect();
    assert_eq!(lines.len(), 31);
    let mut sorted = lines.clone();
    sorted.sort();
    assert_eq!(lines, sorted);
    assert!(lines.contains(&"search_select::accept"));
    assert!(data.ends_with("workspace::next_buffer\n"));
}

#[test]
fn display_last_error_shows_the_error_and_its_causes() {
    let mut app = app();
    app.error = Some(ErrorReport {
        error: String::from("Couldn't open a buffer"),
        causes: vec![String::from("permission denied\n"), String::from("disk gone\n")],
    });
    application::display_last_error(&mut app).unwrap();
    assert_eq!(
        app.workspace.current_buffer().unwrap().data(),
        "caused by: disk gone\ncaused by: permission denied\nCouldn't open a buffer\n"
    );
    assert!(app.error.is_none());
    assert_eq!(application::display_last_error(&mut app), Err(Error::NoErrorToDisplay));
}

#[test]
fn handle_input_runs_the_bound_commands() {
    let mut app = app_with_buffer();
    let mut keymap = KeyMap::new();
    keymap.bind(KeymapMode::Normal, Key::Char('i'), vec![Command::SwitchToInsertMode]);
    keymap.bind(KeymapMode::Insert, Key::Esc, vec![Command::SwitchToNormalMode]);
    app.preferences.keymap = keymap;

    app.view.last_key = Some(Key::Char('i'));
    application::handle_input(&mut app).unwrap();
    assert_eq!(app.mode, ModeKey::Insert);

    app.view.last_key = Some(Key::Esc);
    application::handle_input(&mut app).unwrap();
    assert_eq!(app.mode, ModeKey::Normal);

    // Unbound keys do nothing.
    app.view.last_key = Some(Key::Char('z'));
    application::handle_input(&mut app).unwrap();
    assert_eq!(app.mode, ModeKey::Normal);
}

#[test]
fn handle_input_stops_at_the_first_error() {
    let mut app = app();
    let mut keymap = KeyMap::new();
    keymap.bind(
        KeymapMode::Normal,
        Key::Ctrl('q'),
        vec![Command::Suspend, Command::SwitchToSearchMode, Command::Exit],
    );
    app.preferences.keymap = keymap;

    app.view.last_key = Some(Key::Ctrl('q'));
    assert_eq!(application::handle_input(&mut app), Err(Error::BufferMissing));
    assert!(app.view.suspend_requested);
    assert_eq!(app.mode, ModeKey::Normal);
}

#[test]
fn the_first_binding_of_a_key_wins() {
    let mut keymap = KeyMap::new();
    keymap.bind(KeymapMode::Normal, Key::Char('q'), vec![Command::Exit]);
    keymap.bind(KeymapMode::Normal, Key::Char('q'), vec![Command::Suspend]);
    keymap.bind(KeymapMode::Insert, Key::Char('q'), vec![Command::Suspend]);
    assert_eq!(keymap.commands_for(KeymapMode::Normal, Key::Char('q')), Some(vec![Command::Exit]));
    assert_eq!(keymap.commands_for(KeymapMode::Insert, Key::Char('q')), Some(vec![Command::Suspend]));
    assert_eq!(keymap.commands_for(KeymapMode::Select, Key::Char('q')), None);
}

#[test]
fn new_and_next_buffer_cycle_through_buffers() {
    let mut app = app();
    workspace::new_buffer(&mut app).unwrap();
    workspace::new_buffer(&mut app).unwrap();
    assert_eq!(app.workspace.current_buffer_index, Some(1));
    workspace::next_buffer(&mut app).unwrap();
    assert_eq!(app.workspace.current_buffer_index, Some(0));
    workspace::next_buffer(&mut app).unwrap();
    assert_eq!(app.workspace.current_buffer_index, Some(1));
}

#[test]
fn closing_a_buffer_that_was_just_added_restores_the_buffers() {
    let mut app = app_with_buffer();
    app.workspace.add_buffer(Buffer::new());
    app.workspace.close_current_buffer();
    assert_eq!(app.workspace.buffers.len(), 1);
    assert_eq!(app.workspace.current_buffer_index, Some(0));
    assert_eq!(app.workspace.current_buffer().unwrap().data(), "first line\nsecond line\n");
}

#[test]
fn buffer_inserts_at_the_cursor() {
    let mut buffer = Buffer::new();
    buffer.insert("scribe");
    assert!(buffer.move_cursor_to(Position { line: 0, offset: 6 }));
    buffer.insert(" library");
    assert_eq!(buffer.data(), "scribe library");
    assert_eq!(buffer.cursor, Position { line: 0, offset: 6 });

    assert!(!buffer.move_cursor_to(Position { line: 3, offset: 0 }));
    assert_eq!(buffer.cursor, Position { line: 0, offset: 6 });

    // Text typed at a cursor past the end of the text goes nowhere.
    buffer.cursor = Position { line: 3, offset: 0 };
    buffer.insert("lost");
    assert_eq!(buffer.data(), "scribe library");
}

#[test]
fn split_lines_agrees_with_str_lines() {
    for text in ["", "a", "a\n", "a\r\nb\n\nc\r", "\n\n", "x\ry\n"] {
        let expected: Vec<String> = text.lines().map(|line| line.to_string()).collect();
        assert_eq!(split_lines(text), expected);
    }
}

#[test]
fn error_messages() {
    assert_eq!(Error::BufferMissing.message(), "No buffer available");
    assert_eq!(Error::NoErrorToDisplay.message(), "No error to display");
}

#[test]
fn insert_mode_scrolls_the_cursor_into_view() {
    let mut app = app();
    let mut buffer = Buffer::new();
    let text: String = (0..40).map(|i| format!("line {i}\n")).collect();
    buffer.insert(&text);
    buffer.move_cursor_to(Position { line: 20, offset: 0 });
    app.workspace.add_buffer(buffer);
    app.view.height = 10;

    // Below the view: the cursor line becomes the last line shown.
    application::switch_to_insert_mode(&mut app).unwrap();
    assert_eq!(app.workspace.current_buffer().unwrap().line_offset, 11);

    // In view: nothing moves.
    application::switch_to_normal_mode(&mut app).unwrap();
    application::switch_to_insert_mode(&mut app).unwrap();
    assert_eq!(app.workspace.current_buffer().unwrap().line_offset, 11);
}

#[test]
fn scrolling_keeps_or_centers_the_cursor_line() {
    assert_eq!(scroll_into_view(10, 3, 5), 3);
    assert_eq!(scroll_into_view(10, 12, 5), 10);
    assert_eq!(scroll_into_view(10, 15, 5), 11);
    assert_eq!(scroll_into_view(4, 9, 0), 9);
    assert_eq!(center_on(30, 10), 25);
    assert_eq!(center_on(3, 10), 0);
}

#[test]
fn the_start_of_a_buffer_is_always_in_bounds() {
    let mut buffer = Buffer::new();
    assert!(buffer.move_cursor_to(Position { line: 0, offset: 0 }));
    buffer.insert("ab\ncd");
    assert!(amp::buffer::in_bounds(&buffer, Position { line: 0, offset: 0 }));
    assert!(amp::buffer::in_bounds(&buffer, Position { line: 1, offset: 2 }));
    assert!(!amp::buffer::in_bounds(&buffer, Position { line: 1, offset: 3 }));
}

#[test]
fn symbols_are_the_function_names_of_the_text() {
    let (names, positions) = amp::tokens::symbols("struct S;\nfn run() {}\n", "Rust").unwrap();
    assert_eq!(names, vec![String::from("run")]);
    assert_eq!(positions, vec![Position { line: 1, offset: 3 }]);
    assert!(amp::tokens::symbols("fn run() {}\n", "No Such Syntax").is_none());
}

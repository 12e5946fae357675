use amp::application::{Application, ModeKey, SyntaxType};
use amp::buffer::{Buffer, Position};
use amp::commands::{application, search_select, Command};
use amp::errors::Error;
use amp::input::Key;
use amp::workspace::FileEntry;

fn app() -> Application {
    Application::new(&Vec::new()).unwrap()
}

fn app_with_themes() -> Application {
    let mut app = app();
    app.view.themes = vec![
        String::from("base16-ocean.dark"),
        String::from("solarized-dark"),
        String::from("solarized-light"),
    ];
    app
}

fn type_char(app: &mut Application, c: char) -> Result<(), Error> {
    app.view.last_key = Some(Key::Char(c));
    search_select::push_search_char(app)
}

fn result_texts(app: &Application) -> Vec<String> {
    let list = &app.modes.theme;
    list.results.iter().map(|&i| list.candidates[i].clone()).collect()
}

#[test]
fn theme_mode_lists_every_theme_with_the_first_selected() {
    let mut app = app_with_themes();
    application::switch_to_theme_mode(&mut app).unwrap();

    assert_eq!(app.mode, ModeKey::Theme);
    assert_eq!(result_texts(&app).len(), 3);
    assert_eq!(app.modes.theme.selected_index, 0);
    assert!(app.modes.theme.insert);
    assert_eq!(app.mode_str(), Some("search_select_insert"));
}

#[test]
fn typing_narrows_the_results_to_matching_candidates() {
    let mut app = app_with_themes();
    application::switch_to_theme_mode(&mut app).unwrap();

    type_char(&mut app, 's').unwrap();
    type_char(&mut app, 'l').unwrap();
    assert_eq!(
        result_texts(&app),
        vec![String::from("solarized-dark"), String::from("solarized-light")]
    );
    type_char(&mut app, 'g').unwrap();
    assert_eq!(result_texts(&app), vec![String::from("solarized-light")]);

    // White space in the query matches nothing in particular.
    type_char(&mut app, ' ').unwrap();
    assert_eq!(result_texts(&app), vec![String::from("solarized-light")]);
}

#[test]
fn popping_a_token_restores_the_wider_results() {
    let mut app = app_with_themes();
    application::switch_to_theme_mode(&mut app).unwrap();

    type_char(&mut app, 'o').unwrap();
    type_char(&mut app, ' ').unwrap();
    type_char(&mut app, 'g').unwrap();
    assert_eq!(result_texts(&app), vec![String::from("solarized-light")]);

    search_select::pop_search_token(&mut app).unwrap();
    assert_eq!(app.modes.theme.input, vec!['o', ' ']);
    search_select::pop_search_token(&mut app).unwrap();
    assert_eq!(app.modes.theme.input, vec!['o']);
    assert_eq!(result_texts(&app).len(), 3);
    search_select::pop_search_token(&mut app).unwrap();
    assert!(app.modes.theme.input.is_empty());
}

#[test]
fn search_respects_the_maximum_number_of_results() {
    let mut app = app_with_themes();
    app.preferences.search_select_config.max_results = 2;
    application::switch_to_theme_mode(&mut app).unwrap();

    assert_eq!(
        result_texts(&app),
        vec![String::from("base16-ocean.dark"), String::from("solarized-dark")]
    );
}

#[test]
fn selection_moves_within_the_results() {
    let mut app = app_with_themes();
    application::switch_to_theme_mode(&mut app).unwrap();

    search_select::select_previous(&mut app).unwrap();
    assert_eq!(app.modes.theme.selected_index, 0);
    search_select::select_next(&mut app).unwrap();
    search_select::select_next(&mut app).unwrap();
    assert_eq!(app.modes.theme.selected_index, 2);
    search_select::select_next(&mut app).unwrap();
    assert_eq!(app.modes.theme.selected_index, 2);
    search_select::select_previous(&mut app).unwrap();
    assert_eq!(app.modes.theme.selected_index, 1);
}

#[test]
fn next_then_previous_returns_to_the_same_selection() {
    let mut app = app_with_themes();
    application::switch_to_theme_mode(&mut app).unwrap();
    search_select::select_next(&mut app).unwrap();
    let before = app.modes.theme.selected_index;

    search_select::select_next(&mut app).unwrap();
    search_select::select_previous(&mut app).unwrap();
    assert_eq!(app.modes.theme.selected_index, before);
}

#[test]
fn accepting_a_theme_sets_it_and_returns_to_normal_mode() {
    let mut app = app_with_themes();
    application::switch_to_theme_mode(&mut app).unwrap();
    search_select::select_next(&mut app).unwrap();

    search_select::accept(&mut app).unwrap();
    assert_eq!(app.preferences.theme, "solarized-dark");
    assert_eq!(app.mode, ModeKey::Normal);
}

#[test]
fn accepting_without_results_fails_and_stays() {
    let mut app = app_with_themes();
    application::switch_to_theme_mode(&mut app).unwrap();
    type_char(&mut app, 'x').unwrap();
    assert!(result_texts(&app).is_empty());

    assert_eq!(search_select::accept(&mut app), Err(Error::NoThemeSelected));
    assert_eq!(app.mode, ModeKey::Theme);
}

#[test]
fn step_back_leaves_the_query_when_there_are_results() {
    let mut app = app_with_themes();
    application::switch_to_theme_mode(&mut app).unwrap();
    type_char(&mut app, 's').unwrap();

    search_select::step_back(&mut app).unwrap();
    assert_eq!(app.mode, ModeKey::Theme);
    assert!(!app.modes.theme.insert);
    assert_eq!(app.mode_str(), Some("search_select"));
}

#[test]
fn step_back_returns_to_normal_mode_without_a_query() {
    let mut app = app_with_themes();
    application::switch_to_theme_mode(&mut app).unwrap();

    search_select::step_back(&mut app).unwrap();
    assert_eq!(app.mode, ModeKey::Normal);
}

#[test]
fn insert_state_can_be_toggled() {
    let mut app = app_with_themes();
    application::switch_to_theme_mode(&mut app).unwrap();

    search_select::disable_insert(&mut app).unwrap();
    assert!(!app.modes.theme.insert);
    search_select::enable_insert(&mut app).unwrap();
    assert!(app.modes.theme.insert);
}

#[test]
fn search_select_commands_fail_outside_search_select_modes() {
    let mut app = app();
    assert_eq!(search_select::search(&mut app), Err(Error::SearchOutsideSearchSelect));
    assert_eq!(search_select::select_next(&mut app), Err(Error::SelectionOutsideSearchSelect));
    assert_eq!(search_select::select_previous(&mut app), Err(Error::SelectionOutsideSearchSelect));
    assert_eq!(search_select::enable_insert(&mut app), Err(Error::InsertOutsideSearchSelect));
    assert_eq!(search_select::disable_insert(&mut app), Err(Error::InsertOutsideSearchSelect));
    assert_eq!(search_select::pop_search_token(&mut app), Err(Error::PopOutsideSearchSelect));
    assert_eq!(search_select::step_back(&mut app), Err(Error::PopOutsideSearchSelect));
    assert_eq!(search_select::accept(&mut app), Err(Error::AcceptOutsideSearchSelect));
    app.view.last_key = Some(Key::Char('a'));
    assert_eq!(search_select::push_search_char(&mut app), Err(Error::PushOutsideSearchSelect));
    // Without a character key, pushing just searches again.
    app.view.last_key = Some(Key::Enter);
    assert_eq!(search_select::push_search_char(&mut app), Err(Error::SearchOutsideSearchSelect));
    assert_eq!(app.mode, ModeKey::Normal);
}

#[test]
fn accepting_a_command_runs_it_and_returns_to_normal_mode() {
    let mut app = app();
    application::switch_to_command_mode(&mut app).unwrap();
    assert_eq!(app.mode, ModeKey::Command);
    for c in "suspend".chars() {
        type_char(&mut app, c).unwrap();
    }
    let selected = app.modes.command.list.results[app.modes.command.list.selected_index];
    assert_eq!(app.modes.command.commands[selected], Command::Suspend);

    search_select::accept(&mut app).unwrap();
    assert!(app.view.suspend_requested);
    assert_eq!(app.mode, ModeKey::Normal);
}

#[test]
fn a_failing_accepted_command_reports_its_error() {
    let mut app = app();
    application::switch_to_command_mode(&mut app).unwrap();
    for c in "switch_to_insert".chars() {
        type_char(&mut app, c).unwrap();
    }

    assert_eq!(search_select::accept(&mut app), Err(Error::BufferMissing));
    assert_eq!(app.mode, ModeKey::Command);
}

fn app_with_symbols() -> Application {
    let mut app = app();
    let mut buffer = Buffer::new();
    buffer.insert("fn main() {}\nfn helper() {}\n");
    buffer.syntax_definition = Some(String::from("Rust"));
    app.workspace.add_buffer(buffer);
    app
}

#[test]
fn symbol_jump_lists_the_functions_defined_in_the_buffer() {
    let mut app = app_with_symbols();
    application::switch_to_symbol_jump_mode(&mut app).unwrap();
    assert_eq!(
        app.modes.symbol_jump.list.candidates,
        vec![String::from("main"), String::from("helper")]
    );
    assert_eq!(
        app.modes.symbol_jump.positions,
        vec![Position { line: 0, offset: 3 }, Position { line: 1, offset: 3 }]
    );
}

#[test]
fn symbol_jump_fails_for_a_syntax_it_does_not_know() {
    let mut app = app_with_symbols();
    app.workspace.buffers[0].syntax_definition = Some(String::from("No Such Syntax"));
    assert_eq!(application::switch_to_symbol_jump_mode(&mut app), Err(Error::BufferTokensFailed));
    assert_eq!(app.mode, ModeKey::SymbolJump);
}

#[test]
fn accepting_a_symbol_moves_the_cursor_to_it() {
    let mut app = app_with_symbols();
    application::switch_to_symbol_jump_mode(&mut app).unwrap();
    for c in "help".chars() {
        type_char(&mut app, c).unwrap();
    }

    search_select::accept(&mut app).unwrap();
    assert_eq!(app.workspace.current_buffer().unwrap().cursor, Position { line: 1, offset: 3 });
    assert_eq!(app.mode, ModeKey::Normal);
}

#[test]
fn accepting_a_symbol_outside_the_buffer_fails() {
    let mut app = app_with_symbols();
    application::switch_to_symbol_jump_mode(&mut app).unwrap();
    // The buffer's text has changed since the symbols were listed.
    app.modes.symbol_jump.positions[0] = Position { line: 7, offset: 0 };

    assert_eq!(search_select::accept(&mut app), Err(Error::SymbolOutOfBounds));
    assert_eq!(app.workspace.current_buffer().unwrap().cursor, Position { line: 0, offset: 0 });
    assert_eq!(app.mode, ModeKey::SymbolJump);
}

#[test]
fn symbol_jump_needs_a_highlighted_buffer() {
    let mut app = app();
    assert_eq!(application::switch_to_symbol_jump_mode(&mut app), Err(Error::BufferTokensFailed));
    // The mode is switched before the buffer is tokenized.
    assert_eq!(app.mode, ModeKey::SymbolJump);
}

#[test]
fn accepting_a_syntax_applies_it_to_the_buffer() {
    let mut app = app();
    app.workspace.syntaxes = vec![String::from("Plain Text"), String::from("Rust")];
    app.workspace.add_buffer(Buffer::new());
    application::switch_to_syntax_mode(&mut app).unwrap();
    search_select::select_next(&mut app).unwrap();

    search_select::accept(&mut app).unwrap();
    assert_eq!(
        app.workspace.current_buffer().unwrap().syntax_definition,
        Some(String::from("Rust"))
    );
    assert_eq!(app.mode, ModeKey::Normal);
}

fn app_with_files() -> Application {
    let mut app = app();
    app.workspace.syntaxes = vec![String::from("Plain Text"), String::from("Rust")];
    app.workspace.files = vec![
        FileEntry {
            path: String::from("src/main.rs"),
            contents: String::from("fn main() {}\n"),
            syntax: None,
        },
        FileEntry {
            path: String::from("target/debug/main"),
            contents: String::from("binary"),
            syntax: None,
        },
    ];
    app.preferences.open_mode_exclusions = Some(vec![String::from("target")]);
    app.preferences.syntax_types = vec![SyntaxType {
        extension: String::from("rs"),
        syntax: String::from("Rust"),
    }];
    app
}

#[test]
fn open_mode_lists_files_that_are_not_excluded() {
    let mut app = app_with_files();
    application::switch_to_open_mode(&mut app).unwrap();

    assert_eq!(app.modes.open.candidates, vec![String::from("src/main.rs")]);
    assert_eq!(app.modes.open.results, vec![0]);
}

#[test]
fn open_mode_needs_valid_exclusions() {
    let mut app = app_with_files();
    app.preferences.open_mode_exclusions = None;
    assert_eq!(
        application::switch_to_open_mode(&mut app),
        Err(Error::InvalidOpenModeExclusion)
    );
    assert_eq!(app.mode, ModeKey::Normal);
}

#[test]
fn accepting_a_path_opens_it_with_the_preferred_syntax() {
    let mut app = app_with_files();
    application::switch_to_open_mode(&mut app).unwrap();

    search_select::accept(&mut app).unwrap();
    let buffer = app.workspace.current_buffer().unwrap();
    assert_eq!(buffer.data(), "fn main() {}\n");
    assert_eq!(buffer.path, Some(String::from("src/main.rs")));
    assert_eq!(buffer.syntax_definition, Some(String::from("Rust")));
    assert_eq!(app.mode, ModeKey::Normal);
}

#[test]
fn opening_a_path_twice_opens_one_buffer() {
    let mut app = app_with_files();
    let path = String::from("src/main.rs");
    amp::util::open_buffer(&path, &mut app).unwrap();
    amp::util::open_buffer(&path, &mut app).unwrap();

    assert_eq!(app.workspace.buffers.len(), 1);
}

#[test]
fn opening_an_unknown_path_fails() {
    let mut app = app_with_files();
    let path = String::from("missing.rs");
    assert_eq!(amp::util::open_buffer(&path, &mut app), Err(Error::OpenBufferFailed));
    assert!(app.workspace.current_buffer().is_none());
}

#[test]
fn printable_keys_fall_back_to_the_any_char_binding() {
    let mut app = app_with_themes();
    let mut keymap = amp::input::KeyMap::new();
    keymap.bind(
        amp::input::KeymapMode::SearchSelectInsert,
        Key::AnyChar,
        vec![Command::PushSearchChar],
    );
    keymap.bind(
        amp::input::KeymapMode::SearchSelectInsert,
        Key::Char('q'),
        vec![Command::SwitchToNormalMode],
    );
    app.preferences.keymap = keymap;
    application::switch_to_theme_mode(&mut app).unwrap();

    app.view.last_key = Some(Key::Char('g'));
    application::handle_input(&mut app).unwrap();
    assert_eq!(app.modes.theme.input, vec!['g']);
    assert_eq!(result_texts(&app), vec![String::from("solarized-light")]);

    // A key with a binding of its own does not fall back.
    app.view.last_key = Some(Key::Char('q'));
    application::handle_input(&mut app).unwrap();
    assert_eq!(app.mode, ModeKey::Normal);
}

fn app_with_three_files() -> Application {
    let mut app = app();
    app.workspace.files = vec![
        FileEntry {
            path: String::from("a.txt"),
            contents: String::from("first"),
            syntax: None,
        },
        FileEntry {
            path: String::from("b.txt"),
            contents: String::from("second"),
            syntax: None,
        },
        FileEntry {
            path: String::from("c.txt"),
            contents: String::from("third"),
            syntax: None,
        },
    ];
    app
}

#[test]
fn accepting_opens_every_marked_path_then_the_selected_one() {
    let mut app = app_with_three_files();
    application::switch_to_open_mode(&mut app).unwrap();
    // Mark c.txt, then a.txt, and leave b.txt selected.
    search_select::select_next(&mut app).unwrap();
    search_select::select_next(&mut app).unwrap();
    app.modes.open.toggle_mark();
    search_select::select_previous(&mut app).unwrap();
    search_select::select_previous(&mut app).unwrap();
    app.modes.open.toggle_mark();
    search_select::select_next(&mut app).unwrap();
    assert_eq!(
        app.modes.open.selections(),
        vec![String::from("c.txt"), String::from("a.txt"), String::from("b.txt")]
    );

    search_select::accept(&mut app).unwrap();
    let paths: Vec<Option<String>> = app.workspace.buffers.iter().map(|b| b.path.clone()).collect();
    assert_eq!(
        paths,
        vec![Some(String::from("c.txt")), Some(String::from("a.txt")), Some(String::from("b.txt"))]
    );
    assert_eq!(app.workspace.current_buffer().unwrap().data(), "second");
    assert_eq!(app.mode, ModeKey::Normal);
}

#[test]
fn marking_twice_unmarks() {
    let mut app = app_with_three_files();
    application::switch_to_open_mode(&mut app).unwrap();
    app.modes.open.toggle_mark();
    assert_eq!(app.modes.open.marked, vec![0]);
    app.modes.open.toggle_mark();
    assert!(app.modes.open.marked.is_empty());
    assert_eq!(app.modes.open.selections(), vec![String::from("a.txt")]);
}

#[test]
fn a_path_that_cannot_be_opened_stops_the_openings() {
    let mut app = app_with_three_files();
    application::switch_to_open_mode(&mut app).unwrap();
    app.modes.open.toggle_mark();
    // The file of b.txt is gone since the list was made.
    app.workspace.files.remove(1);
    search_select::select_next(&mut app).unwrap();

    assert_eq!(search_select::accept(&mut app), Err(Error::OpenBufferFailed));
    assert_eq!(app.workspace.buffers.len(), 1);
    assert_eq!(app.workspace.current_buffer().unwrap().path, Some(String::from("a.txt")));
    assert_eq!(app.mode, ModeKey::Open);
}

#[test]
fn opening_paths_stops_at_the_first_failure() {
    let mut app = app_with_three_files();
    let paths = vec![String::from("a.txt"), String::from("missing.txt"), String::from("c.txt")];
    assert_eq!(amp::util::open_buffers(&paths, &mut app), Err(Error::OpenBufferFailed));
    assert_eq!(app.workspace.buffers.len(), 1);
    assert_eq!(app.workspace.current_buffer().unwrap().path, Some(String::from("a.txt")));

    let paths = vec![String::from("b.txt"), String::from("c.txt")];
    amp::util::open_buffers(&paths, &mut app).unwrap();
    assert_eq!(app.workspace.buffers.len(), 3);
    assert_eq!(app.workspace.current_buffer().unwrap().path, Some(String::from("c.txt")));
}

#[test]
fn accepting_a_symbol_centers_the_view_on_it() {
    let mut app = app();
    let mut buffer = Buffer::new();
    let text: String = (0..40).map(|i| format!("fn f{i}() {{}}\n")).collect();
    buffer.insert(&text);
    buffer.syntax_definition = Some(String::from("Rust"));
    app.workspace.add_buffer(buffer);
    app.view.height = 10;
    application::switch_to_symbol_jump_mode(&mut app).unwrap();
    for c in "f30".chars() {
        type_char(&mut app, c).unwrap();
    }

    search_select::accept(&mut app).unwrap();
    let buffer = app.workspace.current_buffer().unwrap();
    assert_eq!(buffer.cursor, Position { line: 30, offset: 3 });
    assert_eq!(buffer.line_offset, 25);
}

use amp::application::{Application, ModeKey};
use amp::buffer::Buffer;
use amp::commands::application;

#[test]
fn display_available_commands_creates_a_new_buffer() {
    let mut app = Application::new(&Vec::new()).unwrap();
    application::display_available_commands(&mut app).unwrap();

    assert!(app.workspace.current_buffer().is_some());
}

#[test]
fn display_available_commands_populates_new_buffer_with_alphabetic_command_names() {
    let mut app = Application::new(&Vec::new()).unwrap();
    application::display_available_commands(&mut app).unwrap();

    let buffer_data = app.workspace.current_buffer().unwrap().data();
    let mut lines = buffer_data.lines();
    assert_eq!(
        lines.nth(0),
        Some("application::display_available_commands")
    );
    assert_eq!(lines.last(), Some("workspace::next_buffer"));
}

#[test]
fn switch_to_path_mode_inserts_workspace_directory_as_default() {
    let mut app = Application::new(&Vec::new()).unwrap();

    let buffer = Buffer::new();
    app.workspace.add_buffer(buffer);

    application::switch_to_path_mode(&mut app).unwrap();
    let mode_input = if app.mode == ModeKey::Path {
        Some(app.modes.path.input.clone())
    } else {
        None
    };
    assert_eq!(mode_input, Some(format!("{}/", app.workspace.path)));
}

#[test]
fn switch_to_path_mode_inserts_buffer_path_if_one_exists() {
    let mut app = Application::new(&Vec::new()).unwrap();

    let mut buffer = Buffer::new();
    let absolute_path = format!("{}/test", app.workspace.path);
    buffer.path = Some(absolute_path.clone());
    app.workspace.add_buffer(buffer);

    application::switch_to_path_mode(&mut app).unwrap();
    let mode_input = if app.mode == ModeKey::Path {
        Some(app.modes.path.input.clone())
    } else {
        None
    };
    assert_eq!(mode_input, Some(absolute_path));
}

#[test]
fn switch_to_path_mode_raises_error_if_no_buffer_is_open() {
    let mut app = Application::new(&Vec::new()).unwrap();

    // The application type picks up on test run
    // arguments and will open empty buffers for each.
    app.workspace.close_current_buffer();

    assert!(application::switch_to_path_mode(&mut app).is_err());
}

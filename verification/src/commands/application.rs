//! Commands that switch between modes, and other editor-wide commands.
use vstd::prelude::*;
use vstd::string::*;
use crate::application::{Application, ErrorReport, ModeKey, Modes, ViewState};
use crate::buffer::{Buffer, Position};
use crate::tokens::text_symbols;
use crate::commands::buffer::{end_command_group, start_command_group};
use crate::commands::search_select::{accept_loops, search};
use crate::commands::workspace::{
    is_new_buffer, lemma_empty_buffer_shows_nothing, lemma_prepend_to_shown_text, new_buffer, shows_text,
};
use crate::text::{is_sorted, join_lines, line_of, sort_names, texts};
use crate::commands::{all_commands, command_names, names_of, registry, reset_command_mode, run_command, run_spec, Command};
use crate::modes::{SearchSelect, SelectLineMode, SelectMode};
use crate::workspace::{clone_strings, open_candidates, open_paths, with_syntax, Workspace};
use crate::errors::{Error, Result};
use crate::documentation::{DEFAULT_KEYMAP, QUICK_START_GUIDE};
use crate::commands::view::scroll_to_cursor;
use crate::view::scroll::scrolled_into_view;
use crate::input::KeyMap;

verus! {

/// What `switch_to_normal_mode` does, as a relation between the editor before, the editor after, and the result.
pub open spec fn switch_to_normal_mode_spec(pre: Application, post: Application, r: Result) -> bool {
    &&& r == Ok::<(), Error>(())
    &&& if pre.workspace.has_current_buffer() {
        &&& post == (Application { mode: ModeKey::Normal, workspace: post.workspace, ..pre })
        &&& Workspace::updated(
            pre.workspace,
            Buffer { operation_group_open: false, ..pre.workspace.current() },
            post.workspace,
        )
    } else {
        post == (Application { mode: ModeKey::Normal, ..pre })
    }
}

/// Closes the undo group of the current buffer, if there is one, and
/// switches to normal mode.
pub fn switch_to_normal_mode(app: &mut Application) -> (r: Result)
    requires
        old(app).wf(),
    ensures
        final(app).wf(),
        switch_to_normal_mode_spec(*old(app), *final(app), r),
{
    let _ = end_command_group(app);
    app.switch_to(ModeKey::Normal);
    Ok(())
}


/// Success.
pub open spec fn ok() -> Result {
    Ok::<(), Error>(())
}

/// What `switch_to_insert_mode` does, as a relation between the editor before, the editor after, and the result.
pub open spec fn switch_to_insert_mode_spec(pre: Application, post: Application, r: Result) -> bool {
    if pre.workspace.has_current_buffer() {
        let buffer = pre.workspace.current();
        &&& r == ok()
        &&& post == (Application { mode: ModeKey::Insert, workspace: post.workspace, ..pre })
        &&& Workspace::updated(
            pre.workspace,
            Buffer {
                operation_group_open: true,
                line_offset: scrolled_into_view(buffer.line_offset, buffer.cursor.line, pre.view.height),
                ..buffer
            },
            post.workspace,
        )
    } else {
        r == Err::<(), Error>(Error::BufferMissing) && post == pre
    }
}

/// Opens an undo group on the current buffer, so that what is typed is
/// undone at once, switches to insert mode, and scrolls the view to the
/// cursor.
pub fn switch_to_insert_mode(app: &mut Application) -> (r: Result)
    requires
        old(app).wf(),
    ensures
        final(app).wf(),
        switch_to_insert_mode_spec(*old(app), *final(app), r),
{
    if app.workspace.current_buffer_index.is_some() {
        start_command_group(app)?;
        app.switch_to(ModeKey::Insert);
        let ghost grouped = app.workspace;
        scroll_to_cursor(app)?;
        proof {
            Workspace::lemma_updated_twice(
                old(app).workspace,
                Buffer { operation_group_open: true, ..old(app).workspace.current() },
                grouped,
                Buffer {
                    line_offset: app.workspace.current().line_offset,
                    ..grouped.current()
                },
                app.workspace,
            );
        }
    } else {
        return Err(Error::BufferMissing);
    }
    Ok(())
}

/// Whether `post` is `pre` in jump mode, with the jump state reset for the
/// current buffer's cursor line and in its first phase or not.
pub open spec fn jumping(pre: Application, post: Application, first_phase: bool) -> bool {
    &&& post == (Application {
        mode: ModeKey::Jump,
        modes: Modes { jump: post.modes.jump, ..pre.modes },
        ..pre
    })
    &&& post.modes.jump.input@.len() == 0
    &&& post.modes.jump.first_phase == first_phase
    &&& post.modes.jump.cursor_line == pre.workspace.current().cursor.line
}

/// What `switch_to_jump_mode` does, as a relation between the editor before, the editor after, and the result.
pub open spec fn switch_to_jump_mode_spec(pre: Application, post: Application, r: Result) -> bool {
    if pre.workspace.has_current_buffer() {
        r == ok() && jumping(pre, post, true)
    } else {
        r == Err::<(), Error>(Error::BufferMissing) && post == pre
    }
}

/// Switches to jump mode, with labels for the words around the cursor line.
pub fn switch_to_jump_mode(app: &mut Application) -> (r: Result)
    requires
        old(app).wf(),
    ensures
        final(app).wf(),
        switch_to_jump_mode_spec(*old(app), *final(app), r),
{
    let line = match app.workspace.current_buffer() {
        Some(buffer) => buffer.cursor.line,
        None => return Err(Error::BufferMissing),
    };

    app.switch_to(ModeKey::Jump);
    app.modes.jump.input = Vec::new();
    app.modes.jump.first_phase = true;
    app.modes.jump.cursor_line = line;

    Ok(())
}

/// What `switch_to_second_stage_jump_mode` does, as a relation between the editor before, the editor after, and the result.
pub open spec fn switch_to_second_stage_jump_mode_spec(pre: Application, post: Application, r: Result) -> bool {
    if pre.workspace.has_current_buffer() {
        r == ok() && jumping(pre, post, false)
    } else {
        r == Err::<(), Error>(Error::BufferMissing) && post == pre
    }
}

/// Switches to jump mode, past its first phase.
pub fn switch_to_second_stage_jump_mode(app: &mut Application) -> (r: Result)
    requires
        old(app).wf(),
    ensures
        final(app).wf(),
        switch_to_second_stage_jump_mode_spec(*old(app), *final(app), r),
{
    switch_to_jump_mode(app)?;
    if app.mode == ModeKey::Jump {
        app.modes.jump.first_phase = false;
    } else {
        return Err(Error::NotInJumpMode);
    }

    Ok(())
}

/// What `switch_to_line_jump_mode` does, as a relation between the editor before, the editor after, and the result.
pub open spec fn switch_to_line_jump_mode_spec(pre: Application, post: Application, r: Result) -> bool {
    if pre.workspace.has_current_buffer() {
        &&& r == ok()
        &&& post == (Application {
            mode: ModeKey::LineJump,
            modes: Modes { line_jump: post.modes.line_jump, ..pre.modes },
            ..pre
        })
        &&& post.modes.line_jump.input@.len() == 0
    } else {
        r == Err::<(), Error>(Error::BufferMissing) && post == pre
    }
}

/// Switches to line jump mode, with an empty line number.
pub fn switch_to_line_jump_mode(app: &mut Application) -> (r: Result)
    requires
        old(app).wf(),
    ensures
        final(app).wf(),
        switch_to_line_jump_mode_spec(*old(app), *final(app), r),
{
    if app.workspace.current_buffer_index.is_some() {
        app.switch_to(ModeKey::LineJump);
        app.modes.line_jump.input = Vec::new();
    } else {
        return Err(Error::BufferMissing);
    }

    Ok(())
}

/// What `switch_to_open_mode` does, as a relation between the editor before, the editor after, and the result.
pub open spec fn switch_to_open_mode_spec(pre: Application, post: Application, r: Result) -> bool {
    match pre.preferences.open_mode_exclusions {
        None => r == Err::<(), Error>(Error::InvalidOpenModeExclusion) && post == pre,
        Some(exclusions) => {
            &&& r == ok()
            &&& post == (Application {
                mode: ModeKey::Open,
                modes: Modes { open: post.modes.open, ..pre.modes },
                ..pre
            })
            &&& SearchSelect::fresh(
                post.modes.open,
                open_paths(pre.workspace.files@, exclusions.deep_view(), pre.workspace.files@.len()),
                pre.preferences.search_select_config,
            )
        },
    }
}

/// Switches to open mode, listing the workspace's files that the
/// preferences do not exclude.
pub fn switch_to_open_mode(app: &mut Application) -> (r: Result)
    requires
        old(app).wf(),
    ensures
        final(app).wf(),
        switch_to_open_mode_spec(*old(app), *final(app), r),
{
    let paths = match &app.preferences.open_mode_exclusions {
        Some(exclusions) => open_candidates(&app.workspace.files, exclusions),
        None => return Err(Error::InvalidOpenModeExclusion),
    };
    let config = app.preferences.search_select_config;

    app.switch_to(ModeKey::Open);
    app.modes.open.reset(paths, config);

    search(app)?;

    Ok(())
}

/// What `switch_to_command_mode` does, as a relation between the editor before, the editor after, and the result.
pub open spec fn switch_to_command_mode_spec(pre: Application, post: Application, r: Result) -> bool {
    &&& r == ok()
    &&& post == (Application {
        mode: ModeKey::Command,
        modes: Modes { command: post.modes.command, ..pre.modes },
        ..pre
    })
    &&& SearchSelect::fresh(post.modes.command.list, names_of(registry()), pre.preferences.search_select_config)
    &&& post.modes.command.commands@ == registry()
}

/// Switches to command mode, listing every command.
pub fn switch_to_command_mode(app: &mut Application) -> (r: Result)
    requires
        old(app).wf(),
    ensures
        final(app).wf(),
        switch_to_command_mode_spec(*old(app), *final(app), r),
{
    let config = app.preferences.search_select_config;

    app.switch_to(ModeKey::Command);
    reset_command_mode(&mut app.modes.command, config);

    search(app)?;

    Ok(())
}

/// The names of the symbols.
pub open spec fn symbol_names(symbols: Seq<(Seq<char>, Position)>) -> Seq<Seq<char>> {
    symbols.map_values(|s: (Seq<char>, Position)| s.0)
}

/// The positions of the symbols.
pub open spec fn symbol_positions(symbols: Seq<(Seq<char>, Position)>) -> Seq<Position> {
    symbols.map_values(|s: (Seq<char>, Position)| s.1)
}

/// The symbols of the current buffer's text, highlighted with its syntax;
/// none without a buffer, without a syntax, or when the text cannot be
/// tokenized with it.
pub open spec fn buffer_symbols(app: Application) -> Option<Seq<(Seq<char>, Position)>> {
    if !app.workspace.has_current_buffer() {
        None
    } else {
        match app.workspace.current().syntax_definition {
            Some(syntax) => text_symbols(app.workspace.current().data@, syntax@),
            None => None,
        }
    }
}

/// What `switch_to_symbol_jump_mode` does, as a relation between the editor before, the editor after, and the result.
pub open spec fn switch_to_symbol_jump_mode_spec(pre: Application, post: Application, r: Result) -> bool {
    match buffer_symbols(pre) {
        Some(symbols) => {
            &&& r == ok()
            &&& post == (Application {
                mode: ModeKey::SymbolJump,
                modes: Modes { symbol_jump: post.modes.symbol_jump, ..pre.modes },
                ..pre
            })
            &&& SearchSelect::fresh(
                post.modes.symbol_jump.list,
                symbol_names(symbols),
                pre.preferences.search_select_config,
            )
            &&& post.modes.symbol_jump.positions@ == symbol_positions(symbols)
        },
        None => {
            // The mode is switched before the buffer is tokenized.
            r == Err::<(), Error>(Error::BufferTokensFailed) && post == (Application { mode: ModeKey::SymbolJump, ..pre })
        },
    }
}

/// The names and positions of the current buffer's symbols; fails without a
/// buffer, without a syntax, or when the buffer cannot be tokenized with it.
fn current_buffer_symbols(app: &Application) -> (symbols: core::result::Result<(Vec<String>, Vec<Position>), Error>)
    requires
        app.wf(),
    ensures
        match buffer_symbols(*app) {
            Some(found) => symbols matches Ok((names, positions)) && names.deep_view() == symbol_names(found)
                && positions@ == symbol_positions(found),
            None => symbols == Err::<(Vec<String>, Vec<Position>), Error>(Error::BufferTokensFailed),
        },
        symbols matches Ok((names, positions)) ==> names@.len() == positions@.len(),
{
    let buffer = match app.workspace.current_buffer() {
        Some(buffer) => buffer,
        None => return Err(Error::BufferTokensFailed),
    };
    match &buffer.syntax_definition {
        Some(syntax) => match crate::tokens::symbols(buffer.data.as_str(), syntax.as_str()) {
            Some(found) => {
                assert(found.0.deep_view().len() == found.0@.len());
                Ok(found)
            },
            None => Err(Error::BufferTokensFailed),
        },
        None => Err(Error::BufferTokensFailed),
    }
}

/// Switches to symbol jump mode, listing the symbols of the current buffer.
pub fn switch_to_symbol_jump_mode(app: &mut Application) -> (r: Result)
    requires
        old(app).wf(),
    ensures
        final(app).wf(),
        switch_to_symbol_jump_mode_spec(*old(app), *final(app), r),
{
    app.switch_to(ModeKey::SymbolJump);

    let (names, positions) = current_buffer_symbols(app)?;
    let config = app.preferences.search_select_config;

    app.modes.symbol_jump.list.reset(names, config);
    app.modes.symbol_jump.positions = positions;

    search(app)?;

    Ok(())
}

/// What `switch_to_theme_mode` does, as a relation between the editor before, the editor after, and the result.
pub open spec fn switch_to_theme_mode_spec(pre: Application, post: Application, r: Result) -> bool {
    &&& r == ok()
    &&& post == (Application {
        mode: ModeKey::Theme,
        modes: Modes { theme: post.modes.theme, ..pre.modes },
        ..pre
    })
    &&& SearchSelect::fresh(post.modes.theme, pre.view.themes.deep_view(), pre.preferences.search_select_config)
}

/// Switches to theme mode, listing the installed themes.
pub fn switch_to_theme_mode(app: &mut Application) -> (r: Result)
    requires
        old(app).wf(),
    ensures
        final(app).wf(),
        switch_to_theme_mode_spec(*old(app), *final(app), r),
{
    let themes = clone_strings(&app.view.themes);
    let config = app.preferences.search_select_config;

    app.switch_to(ModeKey::Theme);
    app.modes.theme.reset(themes, config);

    search(app)?;

    Ok(())
}

/// What `switch_to_select_mode` does, as a relation between the editor before, the editor after, and the result.
pub open spec fn switch_to_select_mode_spec(pre: Application, post: Application, r: Result) -> bool {
    if pre.workspace.has_current_buffer() {
        &&& r == ok()
        &&& post == (Application {
            mode: ModeKey::Select,
            modes: Modes { select: SelectMode { anchor: pre.workspace.current().cursor }, ..pre.modes },
            ..pre
        })
    } else {
        r == Err::<(), Error>(Error::BufferMissing) && post == pre
    }
}

/// Switches to select mode, anchoring the selection at the cursor.
pub fn switch_to_select_mode(app: &mut Application) -> (r: Result)
    requires
        old(app).wf(),
    ensures
        final(app).wf(),
        switch_to_select_mode_spec(*old(app), *final(app), r),
{
    let position = match app.workspace.current_buffer() {
        Some(buffer) => buffer.cursor,
        None => return Err(Error::BufferMissing),
    };

    app.switch_to(ModeKey::Select);
    app.modes.select.anchor = position;

    Ok(())
}

/// What `switch_to_select_line_mode` does, as a relation between the editor before, the editor after, and the result.
pub open spec fn switch_to_select_line_mode_spec(pre: Application, post: Application, r: Result) -> bool {
    if pre.workspace.has_current_buffer() {
        &&& r == ok()
        &&& post == (Application {
            mode: ModeKey::SelectLine,
            modes: Modes {
                select_line: SelectLineMode { anchor: pre.workspace.current().cursor.line },
                ..pre.modes
            },
            ..pre
        })
    } else {
        r == Err::<(), Error>(Error::BufferMissing) && post == pre
    }
}

/// Switches to select line mode, anchoring the selection at the cursor line.
pub fn switch_to_select_line_mode(app: &mut Application) -> (r: Result)
    requires
        old(app).wf(),
    ensures
        final(app).wf(),
        switch_to_select_line_mode_spec(*old(app), *final(app), r),
{
    let line = match app.workspace.current_buffer() {
        Some(buffer) => buffer.cursor.line,
        None => return Err(Error::BufferMissing),
    };

    app.switch_to(ModeKey::SelectLine);
    app.modes.select_line.anchor = line;

    Ok(())
}

/// What `switch_to_search_mode` does, as a relation between the editor before, the editor after, and the result.
pub open spec fn switch_to_search_mode_spec(pre: Application, post: Application, r: Result) -> bool {
    if pre.workspace.has_current_buffer() {
        r == ok() && post == (Application { mode: ModeKey::Search, ..pre })
    } else {
        r == Err::<(), Error>(Error::BufferMissing) && post == pre
    }
}

/// Switches to search mode; the previous query stays.
pub fn switch_to_search_mode(app: &mut Application) -> (r: Result)
    requires
        old(app).wf(),
    ensures
        final(app).wf(),
        switch_to_search_mode_spec(*old(app), *final(app), r),
{
    if app.workspace.current_buffer_index.is_some() {
        app.switch_to(ModeKey::Search);
    } else {
        return Err(Error::BufferMissing);
    }

    Ok(())
}

/// The path that path mode starts from: the current buffer's, or else the
/// workspace directory followed by a slash.
pub open spec fn initial_path(app: Application) -> Seq<char> {
    match app.workspace.current().path {
        Some(path) => path@,
        None => app.workspace.path@ + seq!['/'],
    }
}

/// What `switch_to_path_mode` does, as a relation between the editor before, the editor after, and the result.
pub open spec fn switch_to_path_mode_spec(pre: Application, post: Application, r: Result) -> bool {
    if pre.workspace.has_current_buffer() {
        &&& r == ok()
        &&& post == (Application {
            mode: ModeKey::Path,
            modes: Modes { path: post.modes.path, ..pre.modes },
            ..pre
        })
        &&& post.modes.path.input@ == initial_path(pre)
    } else {
        r == Err::<(), Error>(Error::BufferMissing) && post == pre
    }
}

/// Switches to path mode, starting from the current buffer's path, or else
/// from the workspace directory.
pub fn switch_to_path_mode(app: &mut Application) -> (r: Result)
    requires
        old(app).wf(),
    ensures
        final(app).wf(),
        switch_to_path_mode_spec(*old(app), *final(app), r),
{
    let path = match app.workspace.current_buffer() {
        Some(buffer) => match &buffer.path {
            // The buffer has a path; use it.
            Some(p) => p.clone(),
            // Default to the workspace directory.
            None => {
                let mut directory = app.workspace.path.clone();
                proof {
                    reveal_strlit("/");
                }
                directory.append("/");
                assert(directory@ == app.workspace.path@ + seq!['/']);
                directory
            },
        },
        None => return Err(Error::BufferMissing),
    };

    assert(path@ == initial_path(*old(app)));
    app.switch_to(ModeKey::Path);
    app.modes.path.input = path;

    Ok(())
}

/// What `switch_to_syntax_mode` does, as a relation between the editor before, the editor after, and the result.
pub open spec fn switch_to_syntax_mode_spec(pre: Application, post: Application, r: Result) -> bool {
    if pre.workspace.has_current_buffer() {
        &&& r == ok()
        &&& post == (Application {
            mode: ModeKey::Syntax,
            modes: Modes { syntax: post.modes.syntax, ..pre.modes },
            ..pre
        })
        &&& SearchSelect::fresh(
            post.modes.syntax,
            pre.workspace.syntaxes.deep_view(),
            pre.preferences.search_select_config,
        )
    } else {
        r == Err::<(), Error>(Error::SyntaxRequiresBuffer) && post == pre
    }
}

/// Switches to syntax mode, listing the known syntaxes.
pub fn switch_to_syntax_mode(app: &mut Application) -> (r: Result)
    requires
        old(app).wf(),
    ensures
        final(app).wf(),
        switch_to_syntax_mode_spec(*old(app), *final(app), r),
{
    // We'll need a buffer to apply the syntax,
    // so check before entering syntax mode.
    if app.workspace.current_buffer_index.is_none() {
        return Err(Error::SyntaxRequiresBuffer);
    }

    app.switch_to(ModeKey::Syntax);
    let config = app.preferences.search_select_config;
    let syntaxes = clone_strings(&app.workspace.syntaxes);
    app.modes.syntax.reset(syntaxes, config);

    search(app)?;

    Ok(())
}

/// What `suspend` does, as a relation between the editor before, the editor after, and the result.
pub open spec fn suspend_spec(pre: Application, post: Application, r: Result) -> bool {
    &&& r == ok()
    &&& post == (Application { view: ViewState { suspend_requested: true, ..pre.view }, ..pre })
}

/// Asks for the editor to be suspended.
pub fn suspend(app: &mut Application) -> (r: Result)
    requires
        old(app).wf(),
    ensures
        final(app).wf(),
        suspend_spec(*old(app), *final(app), r),
{
    app.view.suspend_requested = true;

    Ok(())
}

/// What `exit` does, as a relation between the editor before, the editor after, and the result.
pub open spec fn exit_spec(pre: Application, post: Application, r: Result) -> bool {
    r == ok() && post == (Application { mode: ModeKey::Exit, ..pre })
}

/// Switches to exit mode, which ends the editor.
pub fn exit(app: &mut Application) -> (r: Result)
    requires
        old(app).wf(),
    ensures
        final(app).wf(),
        exit_spec(*old(app), *final(app), r),
{
    app.switch_to(ModeKey::Exit);

    Ok(())
}


/// What `display_text` does, as a relation between the editor before, the editor after, and the result.
pub open spec fn display_text_spec(pre: Application, post: Application, r: Result, text: Seq<char>) -> bool {
    &&& r == ok()
    &&& post == (Application { workspace: post.workspace, ..pre })
    &&& shows_text(pre.workspace, post.workspace, text)
}

/// Adds an empty buffer and inserts `text` into it.
fn display_in_new_buffer(app: &mut Application, text: &str) -> (r: Result)
    requires
        old(app).wf(),
    ensures
        final(app).wf(),
        display_text_spec(*old(app), *final(app), r, text@),
{
    new_buffer(app)?;
    let ghost mid = app.workspace;
    proof {
        lemma_empty_buffer_shows_nothing(old(app).workspace, mid);
    }

    if app.workspace.current_buffer_index.is_some() {
        app.workspace.insert_into_current(text);
        proof {
            lemma_prepend_to_shown_text(old(app).workspace, mid, app.workspace, Seq::empty(), text@);
            assert(text@ + Seq::<char>::empty() =~= text@);
        }
    }

    Ok(())
}

/// What `display_default_keymap` does, as a relation between the editor before, the editor after, and the result.
pub open spec fn display_default_keymap_spec(pre: Application, post: Application, r: Result) -> bool {
    display_text_spec(pre, post, r, DEFAULT_KEYMAP@)
}

/// Shows the default key map in a new buffer.
pub fn display_default_keymap(app: &mut Application) -> (r: Result)
    requires
        old(app).wf(),
    ensures
        final(app).wf(),
        display_default_keymap_spec(*old(app), *final(app), r),
{
    display_in_new_buffer(app, KeyMap::default_data())
}

/// What `display_quick_start_guide` does, as a relation between the editor before, the editor after, and the result.
pub open spec fn display_quick_start_guide_spec(pre: Application, post: Application, r: Result) -> bool {
    display_text_spec(pre, post, r, QUICK_START_GUIDE@)
}

/// Shows the quick start guide in a new buffer.
pub fn display_quick_start_guide(app: &mut Application) -> (r: Result)
    requires
        old(app).wf(),
    ensures
        final(app).wf(),
        display_quick_start_guide_spec(*old(app), *final(app), r),
{
    display_in_new_buffer(app, QUICK_START_GUIDE)
}

/// Whether `text` lists the command names, one per line, in alphabetical
/// order.
pub open spec fn lists_commands(text: Seq<char>) -> bool {
    exists|names: Seq<Seq<char>>| {
        &&& is_sorted(names)
        &&& #[trigger] names.to_multiset() == names_of(registry()).to_multiset()
        &&& text == join_lines(names)
    }
}

/// What `display_available_commands` does, as a relation between the editor before, the editor after, and the result.
pub open spec fn display_available_commands_spec(pre: Application, post: Application, r: Result) -> bool {
    &&& r == ok()
    &&& post == (Application { workspace: post.workspace, ..pre })
    &&& exists|text: Seq<char>| #[trigger] shows_text(pre.workspace, post.workspace, text) && lists_commands(text)
}

/// Lists the names of all commands, in alphabetical order, in a new buffer.
pub fn display_available_commands(app: &mut Application) -> (r: Result)
    requires
        old(app).wf(),
    ensures
        final(app).wf(),
        display_available_commands_spec(*old(app), *final(app), r),
{
    new_buffer(app)?;
    let ghost start = app.workspace;
    proof {
        lemma_empty_buffer_shows_nothing(old(app).workspace, start);
    }

    if app.workspace.current_buffer_index.is_some() {
        let commands = all_commands();
        let names = command_names(&commands);
        let command_keys = sort_names(&names);
        let count = command_keys.len();
        let ghost sorted = texts(command_keys@);
        // Insert the names last to first: each goes in front of the others.
        let mut reversed: Vec<&'static str> = Vec::new();
        for k in 0..count
            invariant
                count == command_keys@.len(),
                reversed@.len() == k,
                forall|m: int| 0 <= m < k ==> reversed@[m] == command_keys@[count - 1 - m],
        {
            reversed.push(command_keys[count - 1 - k]);
        }
        for k in 0..count
            invariant
                count == command_keys@.len(),
                count == reversed@.len(),
                sorted == texts(command_keys@),
                forall|m: int| 0 <= m < count ==> reversed@[m] == command_keys@[count - 1 - m],
                old(app).wf(),
                app.wf(),
                *app == (Application { workspace: app.workspace, ..*old(app) }),
                shows_text(old(app).workspace, app.workspace, join_lines(sorted.skip(count - k))),
                app.workspace.current().cursor == crate::buffer::origin(),
        {
            let ghost mid = app.workspace;
            let line = line_of(reversed[k]);
            app.workspace.insert_into_current(line.as_str());
            proof {
                let i = count - 1 - k;
                lemma_prepend_to_shown_text(
                    old(app).workspace,
                    mid,
                    app.workspace,
                    join_lines(sorted.skip(count - k)),
                    line@,
                );
                assert(sorted[i] == reversed@[k as int]@);
                assert(sorted.skip(i).drop_first() =~= sorted.skip(count - k));
                assert(join_lines(sorted.skip(i)) == sorted.skip(i)[0] + seq!['\n'] + join_lines(sorted.skip(i).drop_first()));
                assert(line@ + join_lines(sorted.skip(count - k)) =~= join_lines(sorted.skip(count - (k + 1))));
            }
        }
        proof {
            assert(sorted.skip(0) =~= sorted);
            assert(lists_commands(join_lines(sorted)));
        }
    }

    Ok(())
}

/// The lines that show the causes of an error: each cause, after "caused
/// by: ", the most distant cause first.
pub open spec fn caused_by_lines(causes: Seq<Seq<char>>) -> Seq<char>
    decreases causes.len(),
{
    if causes.len() == 0 {
        Seq::empty()
    } else {
        "caused by: "@ + causes.last() + caused_by_lines(causes.drop_last())
    }
}

/// How an error report is shown: the causes, then the error itself on a
/// line of its own.
pub open spec fn error_report_text(report: ErrorReport) -> Seq<char> {
    caused_by_lines(report.causes.deep_view()) + report.error@ + seq!['\n']
}

/// What `display_last_error` does, as a relation between the editor before, the editor after, and the result.
pub open spec fn display_last_error_spec(pre: Application, post: Application, r: Result) -> bool {
    match pre.error {
        None => r == Err::<(), Error>(Error::NoErrorToDisplay) && post == pre,
        Some(report) => {
            &&& r == ok()
            &&& post == (Application { error: None, workspace: post.workspace, ..pre })
            &&& shows_text(pre.workspace, post.workspace, error_report_text(report))
        },
    }
}

/// Shows the last error, and what caused it, in a new buffer; the error is
/// then forgotten.
pub fn display_last_error(app: &mut Application) -> (r: Result)
    requires
        old(app).wf(),
    ensures
        final(app).wf(),
        display_last_error_spec(*old(app), *final(app), r),
{
    let error = match app.error.take() {
        Some(error) => error,
        None => return Err(Error::NoErrorToDisplay),
    };
    let ghost causes = error.causes.deep_view();
    let mut error_buffer = Buffer::new();
    // Add the proximate/contextual error.
    let line = line_of(error.error.as_str());
    error_buffer.insert(line.as_str());
    assert(error_buffer.data@ =~= line@);

    // Print the chain of other errors that led to the proximate error.
    for i in 0..error.causes.len()
        invariant
            causes == error.causes.deep_view(),
            error_buffer.data@ == caused_by_lines(causes.take(i as int)) + error.error@ + seq!['\n'],
            is_new_buffer(error_buffer, None),
    {
        let mut cause = String::from_str("caused by: ");
        cause.append(error.causes[i].as_str());
        error_buffer.insert(cause.as_str());
        proof {
            let prefix = causes.take(i + 1);
            assert(prefix.drop_last() =~= causes.take(i as int));
            assert(prefix.last() == error.causes@[i as int]@);
        }
        assert(error_buffer.data@ =~= caused_by_lines(causes.take(i + 1)) + error.error@ + seq!['\n']);
    }
    assert(causes.take(causes.len() as int) =~= causes);

    let ghost made = error_buffer;
    let ghost target = app.workspace.insertion_index();
    app.workspace.add_buffer(error_buffer);
    assert(app.workspace.buffers@[target] == with_syntax(made, old(app).workspace.default_syntax));
    Ok(())
}


/// The commands that the last key pressed is bound to in the current mode.
pub open spec fn bound_commands(app: Application) -> Option<Seq<Command>> {
    match app.view.last_key {
        Some(key) => match app.spec_keymap_mode() {
            Some(mode) => app.preferences.keymap.spec_commands_for(mode, key),
            None => None,
        },
        None => None,
    }
}

/// Whether `states` and `results` trace a run of `commands` from `pre` to
/// `post` that ends with `r`: each command runs from the state the previous
/// one left, and the run stops after the first command that fails (or after
/// the last command).
pub open spec fn is_run(
    commands: Seq<Command>,
    states: Seq<Application>,
    results: Seq<Result>,
    pre: Application,
    post: Application,
    r: Result,
) -> bool {
    let n = results.len();
    &&& states.len() == n + 1
    &&& n <= commands.len()
    &&& states[0] == pre
    &&& states[n as int] == post
    &&& forall|i: int| 0 <= i < n ==> run_spec(commands[i], states[i], #[trigger] states[i + 1], results[i])
    &&& forall|i: int| 0 <= i < n - 1 ==> (#[trigger] results[i]) is Ok
    &&& r == (if n == 0 { ok() } else { results[n - 1] })
    &&& n < commands.len() ==> n > 0 && results[n - 1] is Err
}

/// What running `commands` in order does, stopping at the first that fails.
pub open spec fn runs(commands: Seq<Command>, pre: Application, post: Application, r: Result) -> bool {
    exists|states: Seq<Application>, results: Seq<Result>| #[trigger] is_run(commands, states, results, pre, post, r)
}

/// Whether running `commands` in order never accepts the accept command
/// itself in command mode.
pub open spec fn runs_without_looping(commands: Seq<Command>, pre: Application) -> bool {
    forall|k: int, mid: Application|
        0 <= k < commands.len() && #[trigger] runs(commands.take(k), pre, mid, ok()) && commands[k]
            == Command::Accept ==> !accept_loops(mid)
}

/// What `handle_input` does, as a relation between the editor before, the editor after, and the result.
pub open spec fn handle_input_spec(pre: Application, post: Application, r: Result) -> bool {
    match bound_commands(pre) {
        Some(commands) => runs(commands, pre, post, r),
        None => r == ok() && post == pre,
    }
}

/// Runs the commands that the last key pressed is bound to in the current
/// mode, in order, stopping at the first error.
pub fn handle_input(app: &mut Application) -> (r: Result)
    requires
        old(app).wf(),
        bound_commands(*old(app)) matches Some(commands) ==> runs_without_looping(commands, *old(app)),
    ensures
        final(app).wf(),
        handle_input_spec(*old(app), *final(app), r),
{
    // Listen for and respond to user input.
    let commands = match app.view.last_key {
        Some(key) => match app.keymap_mode() {
            Some(mode) => app.preferences.keymap.commands_for(mode, key),
            None => None,
        },
        None => None,
    };

    if let Some(coms) = commands {
        let ghost pre = *old(app);
        let ghost all = coms@;
        let ghost mut states: Seq<Application> = seq![pre];
        let ghost mut results: Seq<Result> = Seq::empty();
        // Run all commands, stopping at the first error encountered, if any.
        for i in 0..coms.len()
            invariant
                all == coms@,
                bound_commands(pre) == Some(all),
                runs_without_looping(all, pre),
                pre == *old(app),
                app.wf(),
                results.len() == i,
                is_run(all.take(i as int), states, results, pre, *app, ok()),
                forall|j: int| 0 <= j < i ==> (#[trigger] results[j]) is Ok,
        {
            let ghost mid = *app;
            let command = coms[i];
            proof {
                assert(runs(all.take(i as int), pre, mid, ok()));
            }
            let result = run_command(app, command);
            proof {
                states = states.push(*app);
                results = results.push(result);
                assert(all.take(i + 1)[i as int] == all[i as int]);
                assert forall|j: int| 0 <= j < i + 1 implies run_spec(
                    all.take(i + 1)[j],
                    states[j],
                    #[trigger] states[j + 1],
                    results[j],
                ) by {
                    if j < i {
                        assert(all.take(i + 1)[j] == all.take(i as int)[j]);
                    }
                }
            }
            match result {
                Err(e) => {
                    assert(is_run(all, states, results, pre, *app, result));
                    return Err(e);
                },
                Ok(()) => {},
            }
            assert(result->Ok_0 == ());
            assert(result == ok());
            assert(is_run(all.take(i + 1), states, results, pre, *app, ok()));
        }
        assert(all.take(all.len() as int) =~= all);
        assert(is_run(all, states, results, pre, *app, ok()));
    }

    Ok(())
}

} // verus!

//! Commands of the search-select modes (command, open, symbol jump, syntax
//! and theme mode), in which the user picks an item by searching for it.
use vstd::prelude::*;
use crate::application::{is_search_select, Application, ModeKey, Preferences};
use crate::buffer::{gap_buffer_in_bounds, Buffer};
use crate::commands::{run_basic_spec, run_command, Command};
use crate::util::{open_buffers, opens_all};
use crate::workspace::{find_syntax, Workspace};
use crate::commands::application::{switch_to_normal_mode, switch_to_normal_mode_spec};
use crate::errors::{Error, Result};
use crate::commands::view::{scroll_cursor_to_center, scrolled_to};
use crate::view::scroll::centered;
use crate::input::Key;
use crate::modes::{pop_token, search_results, SearchSelect};

verus! {

/// What a command that changes the search state does: in a search-select
/// mode, it changes that mode's search state as `change` says; elsewhere it
/// fails with `outside` and changes nothing.
pub open spec fn on_list(
    pre: Application,
    post: Application,
    r: Result,
    outside: Error,
    change: spec_fn(SearchSelect, SearchSelect) -> bool,
) -> bool {
    if is_search_select(pre.mode) {
        &&& r == Ok::<(), Error>(())
        &&& post == pre.with_list(post.list())
        &&& change(pre.list(), post.list())
    } else {
        r == Err::<(), Error>(outside) && post == pre
    }
}

/// What `search` does, as a relation between the editor before, the editor after, and the result.
pub open spec fn search_spec(pre: Application, post: Application, r: Result) -> bool {
    on_list(pre, post, r, Error::SearchOutsideSearchSelect, |a: SearchSelect, b: SearchSelect| SearchSelect::searched(a, b))
}

/// Runs the search of the current search-select mode for its query.
pub fn search(app: &mut Application) -> (r: Result)
    requires
        old(app).wf(),
    ensures
        final(app).wf(),
        search_spec(*old(app), *final(app), r),
{
    match app.mode {
        ModeKey::Command => app.modes.command.list.search(),
        ModeKey::Open => app.modes.open.search(),
        ModeKey::Theme => app.modes.theme.search(),
        ModeKey::SymbolJump => app.modes.symbol_jump.list.search(),
        ModeKey::Syntax => app.modes.syntax.search(),
        _ => return Err(Error::SearchOutsideSearchSelect),
    }
    Ok(())
}

/// What `select_next` does, as a relation between the editor before, the editor after, and the result.
pub open spec fn select_next_spec(pre: Application, post: Application, r: Result) -> bool {
    on_list(pre, post, r, Error::SelectionOutsideSearchSelect, |a: SearchSelect, b: SearchSelect| b == a.next_selected())
}

/// Selects the next result.
pub fn select_next(app: &mut Application) -> (r: Result)
    requires
        old(app).wf(),
    ensures
        final(app).wf(),
        select_next_spec(*old(app), *final(app), r),
{
    match app.mode {
        ModeKey::Command => app.modes.command.list.select_next(),
        ModeKey::Open => app.modes.open.select_next(),
        ModeKey::Theme => app.modes.theme.select_next(),
        ModeKey::SymbolJump => app.modes.symbol_jump.list.select_next(),
        ModeKey::Syntax => app.modes.syntax.select_next(),
        _ => return Err(Error::SelectionOutsideSearchSelect),
    }
    Ok(())
}

/// What `select_previous` does, as a relation between the editor before, the editor after, and the result.
pub open spec fn select_previous_spec(pre: Application, post: Application, r: Result) -> bool {
    on_list(pre, post, r, Error::SelectionOutsideSearchSelect, |a: SearchSelect, b: SearchSelect| b == a.previous_selected())
}

/// Selects the previous result.
pub fn select_previous(app: &mut Application) -> (r: Result)
    requires
        old(app).wf(),
    ensures
        final(app).wf(),
        select_previous_spec(*old(app), *final(app), r),
{
    match app.mode {
        ModeKey::Command => app.modes.command.list.select_previous(),
        ModeKey::Open => app.modes.open.select_previous(),
        ModeKey::Theme => app.modes.theme.select_previous(),
        ModeKey::SymbolJump => app.modes.symbol_jump.list.select_previous(),
        ModeKey::Syntax => app.modes.syntax.select_previous(),
        _ => return Err(Error::SelectionOutsideSearchSelect),
    }
    Ok(())
}

/// What `set_insert` does, as a relation between the editor before, the editor after, and the result.
pub open spec fn set_insert_spec(pre: Application, post: Application, r: Result, insert: bool) -> bool {
    on_list(pre, post, r, Error::InsertOutsideSearchSelect, |a: SearchSelect, b: SearchSelect| b == a.with_insert(insert))
}

fn set_insert(app: &mut Application, insert: bool) -> (r: Result)
    requires
        old(app).wf(),
    ensures
        final(app).wf(),
        set_insert_spec(*old(app), *final(app), r, insert),
{
    match app.mode {
        ModeKey::Command => app.modes.command.list.set_insert_mode(insert),
        ModeKey::Open => app.modes.open.set_insert_mode(insert),
        ModeKey::Theme => app.modes.theme.set_insert_mode(insert),
        ModeKey::SymbolJump => app.modes.symbol_jump.list.set_insert_mode(insert),
        ModeKey::Syntax => app.modes.syntax.set_insert_mode(insert),
        _ => return Err(Error::InsertOutsideSearchSelect),
    }
    Ok(())
}

/// Sends keys to the query of the current search-select mode.
pub fn enable_insert(app: &mut Application) -> (r: Result)
    requires
        old(app).wf(),
    ensures
        final(app).wf(),
        set_insert_spec(*old(app), *final(app), r, true),
{
    set_insert(app, true)
}

/// Stops sending keys to the query of the current search-select mode.
pub fn disable_insert(app: &mut Application) -> (r: Result)
    requires
        old(app).wf(),
    ensures
        final(app).wf(),
        set_insert_spec(*old(app), *final(app), r, false),
{
    set_insert(app, false)
}

/// What changing the query into `query` and searching for it does.
pub open spec fn requeried(pre: SearchSelect, post: SearchSelect, query: Seq<char>) -> bool {
    &&& post.input@ == query
    &&& post.results@ == search_results(pre.candidate_texts(), query, pre.config.max_results)
    &&& post == (SearchSelect { input: post.input, results: post.results, selected_index: 0, ..pre })
}

/// What `push_search_char` does, as a relation between the editor before, the editor after, and the result.
pub open spec fn push_search_char_spec(pre: Application, post: Application, r: Result) -> bool {
    match pre.view.last_key {
        Some(Key::Char(c)) => on_list(
            pre,
            post,
            r,
            Error::PushOutsideSearchSelect,
            |a: SearchSelect, b: SearchSelect| requeried(a, b, a.input@.push(c)),
        ),
        _ => search_spec(pre, post, r),
    }
}

/// Appends the character of the last key pressed to the query, and searches
/// again.
pub fn push_search_char(app: &mut Application) -> (r: Result)
    requires
        old(app).wf(),
    ensures
        final(app).wf(),
        push_search_char_spec(*old(app), *final(app), r),
{
    if let Some(Key::Char(c)) = app.view.last_key {
        match app.mode {
            ModeKey::Command => app.modes.command.list.push_search_char(c),
            ModeKey::Open => app.modes.open.push_search_char(c),
            ModeKey::Theme => app.modes.theme.push_search_char(c),
            ModeKey::SymbolJump => app.modes.symbol_jump.list.push_search_char(c),
            ModeKey::Syntax => app.modes.syntax.push_search_char(c),
            _ => return Err(Error::PushOutsideSearchSelect),
        }
    }
    // Re-run the search.
    search(app)
}

/// What `pop_search_token` does, as a relation between the editor before, the editor after, and the result.
pub open spec fn pop_search_token_spec(pre: Application, post: Application, r: Result) -> bool {
    on_list(
        pre,
        post,
        r,
        Error::PopOutsideSearchSelect,
        |a: SearchSelect, b: SearchSelect| requeried(a, b, pop_token(a.input@)),
    )
}

/// Erases the last token of the query, and searches again.
pub fn pop_search_token(app: &mut Application) -> (r: Result)
    requires
        old(app).wf(),
    ensures
        final(app).wf(),
        pop_search_token_spec(*old(app), *final(app), r),
{
    match app.mode {
        ModeKey::Command => app.modes.command.list.pop_search_token(),
        ModeKey::Open => app.modes.open.pop_search_token(),
        ModeKey::Theme => app.modes.theme.pop_search_token(),
        ModeKey::SymbolJump => app.modes.symbol_jump.list.pop_search_token(),
        ModeKey::Syntax => app.modes.syntax.pop_search_token(),
        _ => return Err(Error::PopOutsideSearchSelect),
    }
    search(app)?;
    Ok(())
}

/// What `step_back` does, as a relation between the editor before, the editor after, and the result.
pub open spec fn step_back_spec(pre: Application, post: Application, r: Result) -> bool {
    if !is_search_select(pre.mode) {
        r == Err::<(), Error>(Error::PopOutsideSearchSelect) && post == pre
    } else if pre.list().spec_selection_available() {
        set_insert_spec(pre, post, r, false)
    } else {
        switch_to_normal_mode_spec(pre, post, r)
    }
}

/// Steps back out of the query: when there are results for a query, keys
/// stop going into the query so that the results can be browsed; otherwise
/// the editor returns to normal mode.
pub fn step_back(app: &mut Application) -> (r: Result)
    requires
        old(app).wf(),
    ensures
        final(app).wf(),
        step_back_spec(*old(app), *final(app), r),
{
    let selection_available = match app.mode {
        ModeKey::Command => app.modes.command.list.selection_available(),
        ModeKey::Open => app.modes.open.selection_available(),
        ModeKey::Theme => app.modes.theme.selection_available(),
        ModeKey::SymbolJump => app.modes.symbol_jump.list.selection_available(),
        ModeKey::Syntax => app.modes.syntax.selection_available(),
        _ => return Err(Error::PopOutsideSearchSelect),
    };

    if selection_available {
        disable_insert(app)
    } else {
        switch_to_normal_mode(app)
    }
}


/// Whether accepting in command mode would run the accept command itself,
/// over and over: its selected command is accept.
pub open spec fn accept_loops(app: Application) -> bool {
    &&& app.mode == ModeKey::Command
    &&& app.modes.command.list.spec_selection() matches Some(i)
    &&& app.modes.command.commands@[i as int] == Command::Accept
}

/// Whether `post` is `pre`, accepted: back in normal mode, with the view of
/// the current buffer, if there is one, centered on the cursor line.
pub open spec fn accepted(pre: Application, post: Application) -> bool {
    let normal = Application { mode: ModeKey::Normal, ..pre };
    if normal.workspace.has_current_buffer() {
        scrolled_to(normal, post, centered(normal.workspace.current().cursor.line, normal.view.height))
    } else {
        post == normal
    }
}

/// What `accept_command` does, as a relation between the editor before, the editor after, and the result.
pub open spec fn accept_command_spec(pre: Application, post: Application, r: Result) -> bool {
    match pre.modes.command.list.spec_selection() {
        None => r == Err::<(), Error>(Error::NoCommandSelected) && post == pre,
        Some(i) => exists|ran: Application, result: Result| {
            &&& #[trigger] run_basic_spec(pre.modes.command.commands@[i as int], pre, ran, result)
            &&& match result {
                Err(e) => r == Err::<(), Error>(e) && post == ran,
                Ok(_) => r == Ok::<(), Error>(()) && accepted(ran, post),
            }
        },
    }
}

/// What `accept_open` does, as a relation between the editor before, the editor after, and the result:
/// every selected path is opened, in order, until one fails.
pub open spec fn accept_open_spec(pre: Application, post: Application, r: Result) -> bool {
    match pre.modes.open.spec_selection() {
        None => r == Err::<(), Error>(Error::NoBufferSelected) && post == pre,
        Some(i) => exists|opened: Application| {
            &&& #[trigger] opens_all(pre.modes.open.selected_texts(), pre, opened, r)
            &&& (r is Ok ==> accepted(opened, post))
            &&& (r is Err ==> post == opened)
        },
    }
}

/// What `accept_theme` does, as a relation between the editor before, the editor after, and the result.
pub open spec fn accept_theme_spec(pre: Application, post: Application, r: Result) -> bool {
    match pre.modes.theme.spec_selection() {
        None => r == Err::<(), Error>(Error::NoThemeSelected) && post == pre,
        Some(i) => {
            &&& r == Ok::<(), Error>(())
            &&& accepted(
                Application {
                    preferences: Preferences { theme: pre.modes.theme.candidates@[i as int], ..pre.preferences },
                    ..pre
                },
                post,
            )
        },
    }
}

/// What `accept_symbol` does, as a relation between the editor before, the editor after, and the result.
pub open spec fn accept_symbol_spec(pre: Application, post: Application, r: Result) -> bool {
    if !pre.workspace.has_current_buffer() {
        r == Err::<(), Error>(Error::BufferMissing) && post == pre
    } else {
        match pre.modes.symbol_jump.list.spec_selection() {
            None => r == Err::<(), Error>(Error::NoSymbolSelected) && post == pre,
            Some(i) => {
                let position = pre.modes.symbol_jump.positions@[i as int];
                if gap_buffer_in_bounds(pre.workspace.current().data@, position.line, position.offset) {
                    &&& r == Ok::<(), Error>(())
                    &&& post == (Application { mode: ModeKey::Normal, workspace: post.workspace, ..pre })
                    &&& Workspace::updated(
                        pre.workspace,
                        Buffer {
                            cursor: position,
                            line_offset: centered(position.line, pre.view.height),
                            ..pre.workspace.current()
                        },
                        post.workspace,
                    )
                } else {
                    r == Err::<(), Error>(Error::SymbolOutOfBounds) && post == pre
                }
            },
        }
    }
}

/// What `accept_syntax` does, as a relation between the editor before, the editor after, and the result.
pub open spec fn accept_syntax_spec(pre: Application, post: Application, r: Result) -> bool {
    match pre.modes.syntax.spec_selection() {
        None => r == Err::<(), Error>(Error::NoSyntaxSelected) && post == pre,
        Some(i) => if !pre.workspace.has_current_buffer() {
            r == Err::<(), Error>(Error::BufferMissing) && post == pre
        } else {
            &&& r == Ok::<(), Error>(())
            &&& post == (Application { mode: ModeKey::Normal, workspace: post.workspace, ..pre })
            &&& Workspace::updated(
                pre.workspace,
                Buffer {
                    syntax_definition: find_syntax(pre.workspace.syntaxes@, pre.modes.syntax.candidates@[i as int]@),
                    line_offset: centered(pre.workspace.current().cursor.line, pre.view.height),
                    ..pre.workspace.current()
                },
                post.workspace,
            )
        },
    }
}

/// What `accept` does, as a relation between the editor before, the editor after, and the result.
pub open spec fn accept_spec(pre: Application, post: Application, r: Result) -> bool {
    match pre.mode {
        ModeKey::Command => accept_command_spec(pre, post, r),
        ModeKey::Open => accept_open_spec(pre, post, r),
        ModeKey::Theme => accept_theme_spec(pre, post, r),
        ModeKey::SymbolJump => accept_symbol_spec(pre, post, r),
        ModeKey::Syntax => accept_syntax_spec(pre, post, r),
        _ => r == Err::<(), Error>(Error::AcceptOutsideSearchSelect) && post == pre,
    }
}

/// Acts on the selected result of the current search-select mode: runs the
/// selected command, opens every selected path, applies the selected theme or
/// syntax, or moves to the selected symbol; then switches to normal mode and
/// centers the view on the cursor.
pub fn accept(app: &mut Application) -> (r: Result)
    requires
        old(app).wf(),
        !accept_loops(*old(app)),
    ensures
        final(app).wf(),
        accept_spec(*old(app), *final(app), r),
    decreases 1nat,
{
    match app.mode {
        ModeKey::Command => {
            let command = match app.modes.command.list.selection() {
                Some(i) => app.modes.command.commands[i],
                None => return Err(Error::NoCommandSelected),
            };

            // Run the selected command.
            let ghost pre = *app;
            let result = run_command(app, command);
            let ghost ran = *app;
            assert(run_basic_spec(command, pre, ran, result));
            result?;
        },
        ModeKey::Open => {
            if app.modes.open.selection().is_none() {
                return Err(Error::NoBufferSelected);
            }
            let paths = app.modes.open.selections();
            open_buffers(&paths, app)?;
        },
        ModeKey::Theme => {
            let theme_key = match app.modes.theme.selected_text() {
                Some(key) => key,
                None => return Err(Error::NoThemeSelected),
            };
            app.preferences.theme = theme_key;
        },
        ModeKey::SymbolJump => {
            if app.workspace.current_buffer_index.is_none() {
                return Err(Error::BufferMissing);
            }
            let position = match app.modes.symbol_jump.list.selection() {
                Some(i) => app.modes.symbol_jump.positions[i],
                None => return Err(Error::NoSymbolSelected),
            };

            if !app.workspace.move_current_cursor(position) {
                return Err(Error::SymbolOutOfBounds);
            }
        },
        ModeKey::Syntax => {
            let name = match app.modes.syntax.selected_text() {
                Some(name) => name,
                None => return Err(Error::NoSyntaxSelected),
            };
            let syntax = app.workspace.find_syntax_by_name(&name);
            if app.workspace.current_buffer_index.is_none() {
                return Err(Error::BufferMissing);
            }
            app.workspace.set_current_syntax(syntax);
        },
        _ => return Err(Error::AcceptOutsideSearchSelect),
    }

    app.switch_to(ModeKey::Normal);
    let ghost done = app.workspace;
    let _ = scroll_cursor_to_center(app);
    proof {
        if old(app).mode == ModeKey::SymbolJump || old(app).mode == ModeKey::Syntax {
            Workspace::lemma_updated_twice(
                old(app).workspace,
                done.current(),
                done,
                app.workspace.current(),
                app.workspace,
            );
        }
    }

    Ok(())
}

} // verus!

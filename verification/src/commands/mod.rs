//! The commands that keys can be bound to, and running them.
use vstd::prelude::*;
use vstd::string::*;
use crate::application::Application;
use crate::errors::Result;
use crate::modes::{CommandMode, SearchSelectConfig, SearchSelect};

pub mod application;
pub mod buffer;
pub mod search_select;
pub mod view;
pub mod workspace;

verus! {

/// A command that keys can be bound to and that command mode lists.
#[derive(Clone, Copy, Debug, PartialEq, Eq, Structural)]
pub enum Command {
    DisplayAvailableCommands,
    DisplayDefaultKeymap,
    DisplayLastError,
    DisplayQuickStartGuide,
    Exit,
    Suspend,
    SwitchToCommandMode,
    SwitchToInsertMode,
    SwitchToJumpMode,
    SwitchToLineJumpMode,
    SwitchToNormalMode,
    SwitchToOpenMode,
    SwitchToPathMode,
    SwitchToSearchMode,
    SwitchToSecondStageJumpMode,
    SwitchToSelectLineMode,
    SwitchToSelectMode,
    SwitchToSymbolJumpMode,
    SwitchToSyntaxMode,
    SwitchToThemeMode,
    Accept,
    DisableInsert,
    EnableInsert,
    PopSearchToken,
    PushSearchChar,
    Search,
    SelectNext,
    SelectPrevious,
    StepBack,
    NewBuffer,
    NextBuffer,
}

impl Command {
    /// The name under which the command is listed and bound.
    pub open spec fn spec_name(self) -> Seq<char> {
        match self {
            Command::DisplayAvailableCommands => "application::display_available_commands"@,
            Command::DisplayDefaultKeymap => "application::display_default_keymap"@,
            Command::DisplayLastError => "application::display_last_error"@,
            Command::DisplayQuickStartGuide => "application::display_quick_start_guide"@,
            Command::Exit => "application::exit"@,
            Command::Suspend => "application::suspend"@,
            Command::SwitchToCommandMode => "application::switch_to_command_mode"@,
            Command::SwitchToInsertMode => "application::switch_to_insert_mode"@,
            Command::SwitchToJumpMode => "application::switch_to_jump_mode"@,
            Command::SwitchToLineJumpMode => "application::switch_to_line_jump_mode"@,
            Command::SwitchToNormalMode => "application::switch_to_normal_mode"@,
            Command::SwitchToOpenMode => "application::switch_to_open_mode"@,
            Command::SwitchToPathMode => "application::switch_to_path_mode"@,
            Command::SwitchToSearchMode => "application::switch_to_search_mode"@,
            Command::SwitchToSecondStageJumpMode => "application::switch_to_second_stage_jump_mode"@,
            Command::SwitchToSelectLineMode => "application::switch_to_select_line_mode"@,
            Command::SwitchToSelectMode => "application::switch_to_select_mode"@,
            Command::SwitchToSymbolJumpMode => "application::switch_to_symbol_jump_mode"@,
            Command::SwitchToSyntaxMode => "application::switch_to_syntax_mode"@,
            Command::SwitchToThemeMode => "application::switch_to_theme_mode"@,
            Command::Accept => "search_select::accept"@,
            Command::DisableInsert => "search_select::disable_insert"@,
            Command::EnableInsert => "search_select::enable_insert"@,
            Command::PopSearchToken => "search_select::pop_search_token"@,
            Command::PushSearchChar => "search_select::push_search_char"@,
            Command::Search => "search_select::search"@,
            Command::SelectNext => "search_select::select_next"@,
            Command::SelectPrevious => "search_select::select_previous"@,
            Command::StepBack => "search_select::step_back"@,
            Command::NewBuffer => "workspace::new_buffer"@,
            Command::NextBuffer => "workspace::next_buffer"@,
        }
    }

    /// The name under which the command is listed and bound.
    pub fn name(&self) -> (name: &'static str)
        ensures
            name@ == self.spec_name(),
    {
        match self {
            Command::DisplayAvailableCommands => "application::display_available_commands",
            Command::DisplayDefaultKeymap => "application::display_default_keymap",
            Command::DisplayLastError => "application::display_last_error",
            Command::DisplayQuickStartGuide => "application::display_quick_start_guide",
            Command::Exit => "application::exit",
            Command::Suspend => "application::suspend",
            Command::SwitchToCommandMode => "application::switch_to_command_mode",
            Command::SwitchToInsertMode => "application::switch_to_insert_mode",
            Command::SwitchToJumpMode => "application::switch_to_jump_mode",
            Command::SwitchToLineJumpMode => "application::switch_to_line_jump_mode",
            Command::SwitchToNormalMode => "application::switch_to_normal_mode",
            Command::SwitchToOpenMode => "application::switch_to_open_mode",
            Command::SwitchToPathMode => "application::switch_to_path_mode",
            Command::SwitchToSearchMode => "application::switch_to_search_mode",
            Command::SwitchToSecondStageJumpMode => "application::switch_to_second_stage_jump_mode",
            Command::SwitchToSelectLineMode => "application::switch_to_select_line_mode",
            Command::SwitchToSelectMode => "application::switch_to_select_mode",
            Command::SwitchToSymbolJumpMode => "application::switch_to_symbol_jump_mode",
            Command::SwitchToSyntaxMode => "application::switch_to_syntax_mode",
            Command::SwitchToThemeMode => "application::switch_to_theme_mode",
            Command::Accept => "search_select::accept",
            Command::DisableInsert => "search_select::disable_insert",
            Command::EnableInsert => "search_select::enable_insert",
            Command::PopSearchToken => "search_select::pop_search_token",
            Command::PushSearchChar => "search_select::push_search_char",
            Command::Search => "search_select::search",
            Command::SelectNext => "search_select::select_next",
            Command::SelectPrevious => "search_select::select_previous",
            Command::StepBack => "search_select::step_back",
            Command::NewBuffer => "workspace::new_buffer",
            Command::NextBuffer => "workspace::next_buffer",
        }
    }
}

/// Every command, in the order of their definition.
pub open spec fn registry() -> Seq<Command> {
    seq![
        Command::DisplayAvailableCommands,
        Command::DisplayDefaultKeymap,
        Command::DisplayLastError,
        Command::DisplayQuickStartGuide,
        Command::Exit,
        Command::Suspend,
        Command::SwitchToCommandMode,
        Command::SwitchToInsertMode,
        Command::SwitchToJumpMode,
        Command::SwitchToLineJumpMode,
        Command::SwitchToNormalMode,
        Command::SwitchToOpenMode,
        Command::SwitchToPathMode,
        Command::SwitchToSearchMode,
        Command::SwitchToSecondStageJumpMode,
        Command::SwitchToSelectLineMode,
        Command::SwitchToSelectMode,
        Command::SwitchToSymbolJumpMode,
        Command::SwitchToSyntaxMode,
        Command::SwitchToThemeMode,
        Command::Accept,
        Command::DisableInsert,
        Command::EnableInsert,
        Command::PopSearchToken,
        Command::PushSearchChar,
        Command::Search,
        Command::SelectNext,
        Command::SelectPrevious,
        Command::StepBack,
        Command::NewBuffer,
        Command::NextBuffer
    ]
}

/// The names of the commands.
pub open spec fn names_of(commands: Seq<Command>) -> Seq<Seq<char>> {
    commands.map_values(|c: Command| c.spec_name())
}

/// Every command.
pub fn all_commands() -> (commands: Vec<Command>)
    ensures
        commands@ == registry(),
{
    let mut commands: Vec<Command> = Vec::new();
    commands.push(Command::DisplayAvailableCommands);
    commands.push(Command::DisplayDefaultKeymap);
    commands.push(Command::DisplayLastError);
    commands.push(Command::DisplayQuickStartGuide);
    commands.push(Command::Exit);
    commands.push(Command::Suspend);
    commands.push(Command::SwitchToCommandMode);
    commands.push(Command::SwitchToInsertMode);
    commands.push(Command::SwitchToJumpMode);
    commands.push(Command::SwitchToLineJumpMode);
    commands.push(Command::SwitchToNormalMode);
    commands.push(Command::SwitchToOpenMode);
    commands.push(Command::SwitchToPathMode);
    commands.push(Command::SwitchToSearchMode);
    commands.push(Command::SwitchToSecondStageJumpMode);
    commands.push(Command::SwitchToSelectLineMode);
    commands.push(Command::SwitchToSelectMode);
    commands.push(Command::SwitchToSymbolJumpMode);
    commands.push(Command::SwitchToSyntaxMode);
    commands.push(Command::SwitchToThemeMode);
    commands.push(Command::Accept);
    commands.push(Command::DisableInsert);
    commands.push(Command::EnableInsert);
    commands.push(Command::PopSearchToken);
    commands.push(Command::PushSearchChar);
    commands.push(Command::Search);
    commands.push(Command::SelectNext);
    commands.push(Command::SelectPrevious);
    commands.push(Command::StepBack);
    commands.push(Command::NewBuffer);
    commands.push(Command::NextBuffer);
    assert(commands@ =~= registry());
    commands
}

/// The names of the given commands.
pub fn command_names(commands: &Vec<Command>) -> (names: Vec<&'static str>)
    ensures
        crate::text::texts(names@) == names_of(commands@),
{
    let mut names: Vec<&'static str> = Vec::new();
    for i in 0..commands.len()
        invariant
            crate::text::texts(names@) == names_of(commands@.take(i as int)),
    {
        let ghost before = names@;
        let name = commands[i].name();
        names.push(name);
        assert(crate::text::texts(names@) =~= crate::text::texts(before).push(name@));
        assert(commands@.take(i + 1) =~= commands@.take(i as int).push(commands@[i as int]));
        assert(names_of(commands@.take(i + 1)) =~= names_of(commands@.take(i as int)).push(commands@[i as int].spec_name()));
    }
    assert(commands@.take(commands@.len() as int) =~= commands@);
    names
}

/// Lists every command in command mode, with an empty query, and searches.
pub fn reset_command_mode(mode: &mut CommandMode, config: SearchSelectConfig)
    ensures
        final(mode).wf(),
        SearchSelect::was_reset(final(mode).list, names_of(registry()), config),
        final(mode).commands@ == registry(),
{
    let commands = all_commands();
    let names = command_names(&commands);
    let mut candidates: Vec<String> = Vec::new();
    for i in 0..names.len()
        invariant
            candidates.deep_view() == crate::text::texts(names@).take(i as int),
    {
        let ghost before = candidates.deep_view();
        let candidate = String::from_str(names[i]);
        candidates.push(candidate);
        assert(candidates.deep_view() =~= before.push(candidate@));
        assert(crate::text::texts(names@).take(i + 1) =~= crate::text::texts(names@).take(i as int).push(names@[i as int]@));
    }
    assert(crate::text::texts(names@).take(names@.len() as int) =~= crate::text::texts(names@));
    mode.list.reset(candidates, config);
    mode.commands = commands;
}


/// What running a command other than accept does.
pub open spec fn run_basic_spec(command: Command, pre: Application, post: Application, r: Result) -> bool {
    match command {
        Command::DisplayAvailableCommands => application::display_available_commands_spec(pre, post, r),
        Command::DisplayDefaultKeymap => application::display_default_keymap_spec(pre, post, r),
        Command::DisplayLastError => application::display_last_error_spec(pre, post, r),
        Command::DisplayQuickStartGuide => application::display_quick_start_guide_spec(pre, post, r),
        Command::Exit => application::exit_spec(pre, post, r),
        Command::Suspend => application::suspend_spec(pre, post, r),
        Command::SwitchToCommandMode => application::switch_to_command_mode_spec(pre, post, r),
        Command::SwitchToInsertMode => application::switch_to_insert_mode_spec(pre, post, r),
        Command::SwitchToJumpMode => application::switch_to_jump_mode_spec(pre, post, r),
        Command::SwitchToLineJumpMode => application::switch_to_line_jump_mode_spec(pre, post, r),
        Command::SwitchToNormalMode => application::switch_to_normal_mode_spec(pre, post, r),
        Command::SwitchToOpenMode => application::switch_to_open_mode_spec(pre, post, r),
        Command::SwitchToPathMode => application::switch_to_path_mode_spec(pre, post, r),
        Command::SwitchToSearchMode => application::switch_to_search_mode_spec(pre, post, r),
        Command::SwitchToSecondStageJumpMode => application::switch_to_second_stage_jump_mode_spec(pre, post, r),
        Command::SwitchToSelectLineMode => application::switch_to_select_line_mode_spec(pre, post, r),
        Command::SwitchToSelectMode => application::switch_to_select_mode_spec(pre, post, r),
        Command::SwitchToSymbolJumpMode => application::switch_to_symbol_jump_mode_spec(pre, post, r),
        Command::SwitchToSyntaxMode => application::switch_to_syntax_mode_spec(pre, post, r),
        Command::SwitchToThemeMode => application::switch_to_theme_mode_spec(pre, post, r),
        Command::Accept => false,
        Command::DisableInsert => search_select::set_insert_spec(pre, post, r, false),
        Command::EnableInsert => search_select::set_insert_spec(pre, post, r, true),
        Command::PopSearchToken => search_select::pop_search_token_spec(pre, post, r),
        Command::PushSearchChar => search_select::push_search_char_spec(pre, post, r),
        Command::Search => search_select::search_spec(pre, post, r),
        Command::SelectNext => search_select::select_next_spec(pre, post, r),
        Command::SelectPrevious => search_select::select_previous_spec(pre, post, r),
        Command::StepBack => search_select::step_back_spec(pre, post, r),
        Command::NewBuffer => workspace::new_buffer_spec(pre, post, r),
        Command::NextBuffer => workspace::next_buffer_spec(pre, post, r),
    }
}

/// What running a command does.
pub open spec fn run_spec(command: Command, pre: Application, post: Application, r: Result) -> bool {
    if command == Command::Accept {
        search_select::accept_spec(pre, post, r)
    } else {
        run_basic_spec(command, pre, post, r)
    }
}

/// Runs a command. Accepting must not select the accept command itself in
/// command mode: that would run it over and over.
pub fn run_command(app: &mut Application, command: Command) -> (r: Result)
    requires
        old(app).wf(),
        command == Command::Accept ==> !search_select::accept_loops(*old(app)),
    ensures
        final(app).wf(),
        run_spec(command, *old(app), *final(app), r),
    decreases if command == Command::Accept { 2nat } else { 0nat },
{
    match command {
        Command::DisplayAvailableCommands => application::display_available_commands(app),
        Command::DisplayDefaultKeymap => application::display_default_keymap(app),
        Command::DisplayLastError => application::display_last_error(app),
        Command::DisplayQuickStartGuide => application::display_quick_start_guide(app),
        Command::Exit => application::exit(app),
        Command::Suspend => application::suspend(app),
        Command::SwitchToCommandMode => application::switch_to_command_mode(app),
        Command::SwitchToInsertMode => application::switch_to_insert_mode(app),
        Command::SwitchToJumpMode => application::switch_to_jump_mode(app),
        Command::SwitchToLineJumpMode => application::switch_to_line_jump_mode(app),
        Command::SwitchToNormalMode => application::switch_to_normal_mode(app),
        Command::SwitchToOpenMode => application::switch_to_open_mode(app),
        Command::SwitchToPathMode => application::switch_to_path_mode(app),
        Command::SwitchToSearchMode => application::switch_to_search_mode(app),
        Command::SwitchToSecondStageJumpMode => application::switch_to_second_stage_jump_mode(app),
        Command::SwitchToSelectLineMode => application::switch_to_select_line_mode(app),
        Command::SwitchToSelectMode => application::switch_to_select_mode(app),
        Command::SwitchToSymbolJumpMode => application::switch_to_symbol_jump_mode(app),
        Command::SwitchToSyntaxMode => application::switch_to_syntax_mode(app),
        Command::SwitchToThemeMode => application::switch_to_theme_mode(app),
        Command::Accept => search_select::accept(app),
        Command::DisableInsert => search_select::disable_insert(app),
        Command::EnableInsert => search_select::enable_insert(app),
        Command::PopSearchToken => search_select::pop_search_token(app),
        Command::PushSearchChar => search_select::push_search_char(app),
        Command::Search => search_select::search(app),
        Command::SelectNext => search_select::select_next(app),
        Command::SelectPrevious => search_select::select_previous(app),
        Command::StepBack => search_select::step_back(app),
        Command::NewBuffer => workspace::new_buffer(app),
        Command::NextBuffer => workspace::next_buffer(app),
    }
}

} // verus!

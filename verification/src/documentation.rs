//! The help texts that ship with the editor.
use vstd::prelude::*;

verus! {

/// The default key map, in the format of the key map file: a section per
/// mode, each binding a key to the commands it runs.
pub const DEFAULT_KEYMAP: &'static str = "normal:
  space: application::switch_to_open_mode
  0: application::switch_to_command_mode
  i: application::switch_to_insert_mode
  f: application::switch_to_jump_mode
  F: application::switch_to_second_stage_jump_mode
  g: application::switch_to_line_jump_mode
  v: application::switch_to_select_mode
  V: application::switch_to_select_line_mode
  s: application::switch_to_search_mode
  p: application::switch_to_path_mode
  '#': application::switch_to_syntax_mode
  '@': application::switch_to_symbol_jump_mode
  ctrl-t: application::switch_to_theme_mode
  '?': application::display_default_keymap
  H: application::display_quick_start_guide
  e: application::display_last_error
  n: workspace::new_buffer
  tab: workspace::next_buffer
  ctrl-z: application::suspend
  Q: application::exit
insert:
  escape: application::switch_to_normal_mode
jump:
  escape: application::switch_to_normal_mode
line_jump:
  escape: application::switch_to_normal_mode
path:
  escape: application::switch_to_normal_mode
search:
  escape: application::switch_to_normal_mode
  i: application::switch_to_search_mode
search_insert:
  escape: application::switch_to_normal_mode
select:
  escape: application::switch_to_normal_mode
select_line:
  escape: application::switch_to_normal_mode
search_select:
  escape: application::switch_to_normal_mode
  enter: search_select::accept
  i: search_select::enable_insert
  j: search_select::select_next
  k: search_select::select_previous
  backspace: search_select::pop_search_token
search_select_insert:
  _: search_select::push_search_char
  enter: search_select::accept
  escape: search_select::step_back
  backspace: search_select::pop_search_token
  down: search_select::select_next
  up: search_select::select_previous
  ctrl-j: search_select::select_next
  ctrl-k: search_select::select_previous
  tab: search_select::disable_insert
";

/// The quick start guide.
pub const QUICK_START_GUIDE: &'static str = "Welcome to the quick start guide.

The editor is modal: what a key does depends on the mode you are in. It
starts in normal mode, where keys move around and run commands rather
than insert text.

Editing
  i        enter insert mode, to type into the current buffer
  escape   go back to normal mode

Finding things
  space    open a file of the workspace, by typing part of its path
  0        run any command, by typing part of its name
  @        jump to a symbol of the current buffer
  f        jump to a word on screen, by its label
  g        jump to a line, by its number
  s        search the current buffer

In the lists that these modes show, type to narrow the results, use the
up and down keys to pick one, and press enter to accept it. Escape stops
typing into the query, and leaves the mode when there is nothing to pick.

Buffers
  n        new buffer
  tab      next buffer

Help
  ?        show the key map
  H        show this guide
  e        show the last error

Leaving
  ctrl-z   suspend
  Q        exit
";

} // verus!

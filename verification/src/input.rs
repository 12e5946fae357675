//! Keys, and the key map that binds them to commands in each mode.
use vstd::prelude::*;
use crate::commands::Command;
use crate::documentation::DEFAULT_KEYMAP;

verus! {

/// A key press, as the terminal reports it.
#[derive(Clone, Copy, Debug, PartialEq, Eq, Structural)]
pub enum Key {
    Backspace,
    Left,
    Right,
    Up,
    Down,
    Home,
    End,
    PageUp,
    PageDown,
    Delete,
    Insert,
    Esc,
    Tab,
    Enter,
    Char(char),
    Ctrl(char),
    /// In a key map: any character key that has no binding of its own.
    AnyChar,
}

/// The name under which the key map lists a mode's bindings. The
/// search-select modes share theirs, and so do their insert states.
#[derive(Clone, Copy, Debug, PartialEq, Eq, Structural)]
pub enum KeymapMode {
    Normal,
    Insert,
    Jump,
    LineJump,
    Path,
    Search,
    SearchInsert,
    SearchSelect,
    SearchSelectInsert,
    Select,
    SelectLine,
}

impl KeymapMode {
    /// The name of the mode's section in the key map.
    pub open spec fn spec_name(self) -> Seq<char> {
        match self {
            KeymapMode::Normal => "normal"@,
            KeymapMode::Insert => "insert"@,
            KeymapMode::Jump => "jump"@,
            KeymapMode::LineJump => "line_jump"@,
            KeymapMode::Path => "path"@,
            KeymapMode::Search => "search"@,
            KeymapMode::SearchInsert => "search_insert"@,
            KeymapMode::SearchSelect => "search_select"@,
            KeymapMode::SearchSelectInsert => "search_select_insert"@,
            KeymapMode::Select => "select"@,
            KeymapMode::SelectLine => "select_line"@,
        }
    }

    /// The name of the mode's section in the key map.
    pub fn as_str(&self) -> (name: &'static str)
        ensures
            name@ == self.spec_name(),
    {
        match self {
            KeymapMode::Normal => "normal",
            KeymapMode::Insert => "insert",
            KeymapMode::Jump => "jump",
            KeymapMode::LineJump => "line_jump",
            KeymapMode::Path => "path",
            KeymapMode::Search => "search",
            KeymapMode::SearchInsert => "search_insert",
            KeymapMode::SearchSelect => "search_select",
            KeymapMode::SearchSelectInsert => "search_select_insert",
            KeymapMode::Select => "select",
            KeymapMode::SelectLine => "select_line",
        }
    }
}

/// The commands that a key runs in a mode, in order.
#[derive(Debug)]
pub struct KeyBinding {
    pub mode: KeymapMode,
    pub key: Key,
    pub commands: Vec<Command>,
}

/// Key bindings, looked up in order.
#[derive(Debug)]
pub struct KeyMap {
    pub bindings: Vec<KeyBinding>,
}

/// The commands of the first of `bindings` that binds `key` in `mode`.
pub open spec fn commands_in(bindings: Seq<KeyBinding>, mode: KeymapMode, key: Key) -> Option<Seq<Command>>
    decreases bindings.len(),
{
    if bindings.len() == 0 {
        None
    } else if bindings[0].mode == mode && bindings[0].key == key {
        Some(bindings[0].commands@)
    } else {
        commands_in(bindings.drop_first(), mode, key)
    }
}

/// A copy of a list of commands.
pub fn copy_commands(commands: &Vec<Command>) -> (copy: Vec<Command>)
    ensures
        copy@ == commands@,
{
    let mut copy: Vec<Command> = Vec::new();
    for i in 0..commands.len()
        invariant
            copy@ == commands@.take(i as int),
    {
        copy.push(commands[i]);
        assert(copy@ =~= commands@.take(i + 1));
    }
    assert(commands@.take(commands.len() as int) =~= commands@);
    copy
}

impl KeyMap {
    /// The text of the default key map.
    pub fn default_data() -> (data: &'static str)
        ensures
            data@ == DEFAULT_KEYMAP@,
    {
        DEFAULT_KEYMAP
    }

    /// An empty key map.
    pub fn new() -> (keymap: KeyMap)
        ensures
            keymap.bindings@.len() == 0,
    {
        KeyMap { bindings: Vec::new() }
    }

    /// The commands bound to `key` in `mode`; a character key without a
    /// binding of its own runs what any character is bound to.
    pub open spec fn spec_commands_for(&self, mode: KeymapMode, key: Key) -> Option<Seq<Command>> {
        match commands_in(self.bindings@, mode, key) {
            Some(commands) => Some(commands),
            None => if key is Char {
                commands_in(self.bindings@, mode, Key::AnyChar)
            } else {
                None
            },
        }
    }

    /// The commands of the first binding of `key` in `mode`.
    fn lookup(&self, mode: KeymapMode, key: Key) -> (commands: Option<Vec<Command>>)
        ensures
            match commands_in(self.bindings@, mode, key) {
                Some(c) => commands matches Some(v) && v@ == c,
                None => commands is None,
            },
    {
        let mut i: usize = 0;
        assert(self.bindings@.skip(0) =~= self.bindings@);
        while i < self.bindings.len()
            invariant
                i <= self.bindings@.len(),
                commands_in(self.bindings@, mode, key) == commands_in(self.bindings@.skip(i as int), mode, key),
            decreases self.bindings@.len() - i,
        {
            let binding = &self.bindings[i];
            assert(self.bindings@.skip(i as int)[0] == self.bindings@[i as int]);
            if binding.mode == mode && binding.key == key {
                return Some(copy_commands(&binding.commands));
            }
            assert(self.bindings@.skip(i as int).drop_first() =~= self.bindings@.skip(i + 1));
            i += 1;
        }
        None
    }

    /// Binds `key` in `mode` to `commands`, after the bindings already there.
    pub fn bind(&mut self, mode: KeymapMode, key: Key, commands: Vec<Command>)
        ensures
            final(self).bindings@ == old(self).bindings@.push(KeyBinding { mode, key, commands }),
    {
        self.bindings.push(KeyBinding { mode, key, commands });
    }

    /// The commands that `key` runs in `mode`, if it is bound there; a
    /// character key without a binding of its own runs what any character is
    /// bound to.
    pub fn commands_for(&self, mode: KeymapMode, key: Key) -> (commands: Option<Vec<Command>>)
        ensures
            match self.spec_commands_for(mode, key) {
                Some(c) => commands matches Some(v) && v@ == c,
                None => commands is None,
            },
    {
        match self.lookup(mode, key) {
            Some(commands) => Some(commands),
            None => {
                if let Key::Char(_) = key {
                    // Fall back to a binding for any character.
                    self.lookup(mode, Key::AnyChar)
                } else {
                    None
                }
            },
        }
    }
}

} // verus!

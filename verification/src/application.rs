//! The editor's state: its mode, the state each mode keeps, the workspace,
//! the view and the preferences.
use vstd::prelude::*;
use vstd::string::*;
use crate::buffer::Buffer;
use crate::commands::Command;
use crate::errors::Error;
use crate::input::{Key, KeyMap, KeymapMode};
use crate::modes::{
    CommandMode, JumpMode, LineJumpMode, PathMode, SearchMode, SearchSelect, SearchSelectConfig,
    SelectLineMode, SelectMode, SymbolJumpMode,
};
use crate::buffer::Position;
use crate::workspace::Workspace;
use crate::text::is_strictly_sorted;

verus! {

/// The editor's modes.
#[derive(Clone, Copy, Debug, PartialEq, Eq, Structural)]
pub enum ModeKey {
    Command,
    Exit,
    Insert,
    Jump,
    LineJump,
    Normal,
    Open,
    Path,
    Search,
    Select,
    SelectLine,
    SymbolJump,
    Syntax,
    Theme,
}

/// The state of every mode. A mode's state outlives a switch to another
/// mode, and is there again when the editor switches back.
#[derive(Debug)]
pub struct Modes {
    pub command: CommandMode,
    pub jump: JumpMode,
    pub line_jump: LineJumpMode,
    pub open: SearchSelect,
    pub path: PathMode,
    pub search: SearchMode,
    pub select: SelectMode,
    pub select_line: SelectLineMode,
    pub symbol_jump: SymbolJumpMode,
    pub syntax: SearchSelect,
    pub theme: SearchSelect,
}

/// What the terminal view holds: the last key pressed, the names of the
/// installed themes, whether the user asked to suspend the editor, and how
/// many lines of a buffer it shows at once.
#[derive(Debug)]
pub struct ViewState {
    pub last_key: Option<Key>,
    pub themes: Vec<String>,
    pub suspend_requested: bool,
    pub height: usize,
}

/// A preference for the syntax of files with a given extension.
#[derive(Debug)]
pub struct SyntaxType {
    pub extension: String,
    pub syntax: String,
}

/// The user's preferences: the key map, the options of the search-select
/// modes, the paths that open mode leaves out (`None` when the configured
/// patterns are invalid: paths starting with one of them are left out), the
/// syntaxes preferred for file extensions, and the theme.
#[derive(Debug)]
pub struct Preferences {
    pub keymap: KeyMap,
    pub search_select_config: SearchSelectConfig,
    pub open_mode_exclusions: Option<Vec<String>>,
    pub syntax_types: Vec<SyntaxType>,
    pub theme: String,
}

/// The last error that a command reported, with the errors that caused it,
/// the most direct cause first.
#[derive(Debug)]
pub struct ErrorReport {
    pub error: String,
    pub causes: Vec<String>,
}

/// The editor.
#[derive(Debug)]
pub struct Application {
    pub mode: ModeKey,
    pub modes: Modes,
    pub workspace: Workspace,
    pub view: ViewState,
    pub preferences: Preferences,
    pub error: Option<ErrorReport>,
}

/// Whether `mode` is one of the modes in which the user picks an item by
/// searching for it.
pub open spec fn is_search_select(mode: ModeKey) -> bool {
    ||| mode == ModeKey::Command
    ||| mode == ModeKey::Open
    ||| mode == ModeKey::SymbolJump
    ||| mode == ModeKey::Syntax
    ||| mode == ModeKey::Theme
}

impl Application {
    /// Every mode's state and the workspace are well formed, and the themes
    /// are listed in order, each once.
    pub open spec fn wf(&self) -> bool {
        &&& self.workspace.wf()
        &&& is_strictly_sorted(self.view.themes.deep_view())
        &&& self.modes.command.wf()
        &&& self.modes.symbol_jump.wf()
        &&& self.modes.open.wf()
        &&& self.modes.syntax.wf()
        &&& self.modes.theme.wf()
    }

    /// The search state of the current mode, in a search-select mode.
    pub open spec fn list(&self) -> SearchSelect {
        match self.mode {
            ModeKey::Command => self.modes.command.list,
            ModeKey::Open => self.modes.open,
            ModeKey::SymbolJump => self.modes.symbol_jump.list,
            ModeKey::Syntax => self.modes.syntax,
            _ => self.modes.theme,
        }
    }

    /// The application with the search state of the current search-select
    /// mode replaced by `list`.
    pub open spec fn with_list(self, list: SearchSelect) -> Application {
        let modes = match self.mode {
            ModeKey::Command => Modes { command: CommandMode { list, ..self.modes.command }, ..self.modes },
            ModeKey::Open => Modes { open: list, ..self.modes },
            ModeKey::SymbolJump => Modes {
                symbol_jump: SymbolJumpMode { list, ..self.modes.symbol_jump },
                ..self.modes
            },
            ModeKey::Syntax => Modes { syntax: list, ..self.modes },
            _ => Modes { theme: list, ..self.modes },
        };
        Application { modes, ..self }
    }

    /// The key map section that applies in the current mode; none on exit.
    pub open spec fn spec_keymap_mode(&self) -> Option<KeymapMode> {
        match self.mode {
            ModeKey::Exit => None,
            ModeKey::Insert => Some(KeymapMode::Insert),
            ModeKey::Jump => Some(KeymapMode::Jump),
            ModeKey::LineJump => Some(KeymapMode::LineJump),
            ModeKey::Normal => Some(KeymapMode::Normal),
            ModeKey::Path => Some(KeymapMode::Path),
            ModeKey::Search => Some(
                if self.modes.search.insert {
                    KeymapMode::SearchInsert
                } else {
                    KeymapMode::Search
                },
            ),
            ModeKey::Select => Some(KeymapMode::Select),
            ModeKey::SelectLine => Some(KeymapMode::SelectLine),
            _ => Some(
                if self.list().insert {
                    KeymapMode::SearchSelectInsert
                } else {
                    KeymapMode::SearchSelect
                },
            ),
        }
    }

    /// The key map section that applies in the current mode.
    pub fn keymap_mode(&self) -> (mode: Option<KeymapMode>)
        ensures
            mode == self.spec_keymap_mode(),
    {
        let insert = match self.mode {
            ModeKey::Command => self.modes.command.list.insert,
            ModeKey::Open => self.modes.open.insert,
            ModeKey::SymbolJump => self.modes.symbol_jump.list.insert,
            ModeKey::Syntax => self.modes.syntax.insert,
            ModeKey::Theme => self.modes.theme.insert,
            ModeKey::Search => self.modes.search.insert,
            _ => false,
        };
        match self.mode {
            ModeKey::Exit => None,
            ModeKey::Insert => Some(KeymapMode::Insert),
            ModeKey::Jump => Some(KeymapMode::Jump),
            ModeKey::LineJump => Some(KeymapMode::LineJump),
            ModeKey::Normal => Some(KeymapMode::Normal),
            ModeKey::Path => Some(KeymapMode::Path),
            ModeKey::Search => Some(if insert { KeymapMode::SearchInsert } else { KeymapMode::Search }),
            ModeKey::Select => Some(KeymapMode::Select),
            ModeKey::SelectLine => Some(KeymapMode::SelectLine),
            _ => Some(if insert { KeymapMode::SearchSelectInsert } else { KeymapMode::SearchSelect }),
        }
    }

    /// The name of the key map section that applies in the current mode.
    pub fn mode_str(&self) -> (name: Option<&'static str>)
        ensures
            match self.spec_keymap_mode() {
                Some(mode) => name matches Some(n) && n@ == mode.spec_name(),
                None => name is None,
            },
    {
        match self.keymap_mode() {
            Some(mode) => Some(mode.as_str()),
            None => None,
        }
    }

    /// Makes `mode` the current mode; every mode's state stays as it was.
    pub fn switch_to(&mut self, mode: ModeKey)
        ensures
            *final(self) == (Application { mode, ..*old(self) }),
    {
        self.mode = mode;
    }

    /// Whether `app` is a new editor: in normal mode, with an empty buffer
    /// for each of the given paths (the last one current), every mode's state
    /// empty, nothing bound to keys, no themes, no error, and
    /// a workspace at the current directory with no files and no syntaxes.
    pub open spec fn is_new(app: Application, args: Seq<String>) -> bool {
        &&& app.wf()
        &&& app.mode == ModeKey::Normal
        &&& app.workspace.path@ == seq!['.']
        &&& app.workspace.buffers@.len() == args.len()
        &&& app.workspace.current_buffer_index == (if args.len() == 0 {
            None
        } else {
            Some((args.len() - 1) as usize)
        })
        &&& forall|i: int| 0 <= i < args.len() ==> {
            &&& (#[trigger] app.workspace.buffers@[i]).path == Some(args[i])
            &&& app.workspace.buffers@[i].data@.len() == 0
            &&& app.workspace.buffers@[i].cursor == crate::buffer::origin()
            &&& app.workspace.buffers@[i].syntax_definition is None
            &&& !app.workspace.buffers@[i].operation_group_open
            &&& app.workspace.buffers@[i].line_offset == 0
        }
        &&& app.workspace.files@.len() == 0
        &&& app.workspace.syntaxes@.len() == 0
        &&& app.workspace.default_syntax is None
        &&& app.modes.command.list.candidates@.len() == 0
        &&& app.modes.open.candidates@.len() == 0
        &&& app.modes.symbol_jump.list.candidates@.len() == 0
        &&& app.modes.syntax.candidates@.len() == 0
        &&& app.modes.theme.candidates@.len() == 0
        &&& app.view.last_key is None
        &&& app.view.themes@.len() == 0
        &&& !app.view.suspend_requested
        &&& app.view.height == 0
        &&& app.preferences.keymap.bindings@.len() == 0
        &&& app.preferences.search_select_config.max_results == 5
        &&& app.preferences.open_mode_exclusions matches Some(exclusions) && exclusions@.len() == 0
        &&& app.preferences.syntax_types@.len() == 0
        &&& app.error is None
    }

    /// A new editor, with an empty buffer for each of the given paths. The
    /// search-select modes show at most five results.
    pub fn new(args: &Vec<String>) -> (result: core::result::Result<Application, Error>)
        ensures
            result matches Ok(app) && Application::is_new(app, args@),
    {
        let config = SearchSelectConfig { max_results: 5 };
        proof {
            reveal_strlit(".");
        }
        let mut workspace = Workspace {
            path: String::from_str("."),
            buffers: Vec::new(),
            current_buffer_index: None,
            files: Vec::new(),
            syntaxes: Vec::new(),
            default_syntax: None,
        };
        for i in 0..args.len()
            invariant
                workspace.wf(),
                workspace.default_syntax is None,
                workspace.buffers@.len() == i,
                i > 0 ==> workspace.current_buffer_index == Some((i - 1) as usize),
                workspace.path@ == seq!['.'],
                workspace.files@.len() == 0,
                workspace.syntaxes@.len() == 0,
                forall|k: int| 0 <= k < i ==> {
                    &&& (#[trigger] workspace.buffers@[k]).path == Some(args@[k])
                    &&& workspace.buffers@[k].data@.len() == 0
                    &&& workspace.buffers@[k].cursor == crate::buffer::origin()
                    &&& workspace.buffers@[k].syntax_definition is None
                    &&& !workspace.buffers@[k].operation_group_open
                    &&& workspace.buffers@[k].line_offset == 0
                },
        {
            let mut buffer = Buffer::new();
            buffer.path = Some(args[i].clone());
            workspace.add_buffer(buffer);
        }
        Ok(Application {
            mode: ModeKey::Normal,
            modes: Modes {
                command: CommandMode { list: SearchSelect::new(config), commands: Vec::new() },
                jump: JumpMode { input: Vec::new(), first_phase: true, cursor_line: 0 },
                line_jump: LineJumpMode { input: Vec::new() },
                open: SearchSelect::new(config),
                path: PathMode { input: String::new() },
                search: SearchMode { insert: true },
                select: SelectMode { anchor: Position { line: 0, offset: 0 } },
                select_line: SelectLineMode { anchor: 0 },
                symbol_jump: SymbolJumpMode { list: SearchSelect::new(config), positions: Vec::new() },
                syntax: SearchSelect::new(config),
                theme: SearchSelect::new(config),
            },
            workspace,
            view: ViewState { last_key: None, themes: Vec::new(), suspend_requested: false, height: 0 },
            preferences: Preferences {
                keymap: KeyMap::new(),
                search_select_config: config,
                open_mode_exclusions: Some(Vec::new()),
                syntax_types: Vec::new(),
                theme: String::new(),
            },
            error: None,
        })
    }
}


/// Whether `path` ends with a dot and then `extension`.
pub open spec fn has_extension(path: Seq<char>, extension: Seq<char>) -> bool {
    &&& path.len() > extension.len()
    &&& path[path.len() - extension.len() - 1] == '.'
    &&& path.subrange(path.len() - extension.len(), path.len() as int) == extension
}

/// The syntax that the first of `types` whose extension `path` has names.
pub open spec fn preferred_syntax(types: Seq<SyntaxType>, path: Seq<char>) -> Option<String>
    decreases types.len(),
{
    if types.len() == 0 {
        None
    } else if has_extension(path, types[0].extension@) {
        Some(types[0].syntax)
    } else {
        preferred_syntax(types.drop_first(), path)
    }
}

/// Whether `path` ends with a dot and then `extension`.
fn path_has_extension(path: &str, extension: &str) -> (has: bool)
    ensures
        has == has_extension(path@, extension@),
{
    let path_len = path.unicode_len();
    let extension_len = extension.unicode_len();
    if path_len <= extension_len {
        return false;
    }
    let start = path_len - extension_len;
    if path.get_char(start - 1) != '.' {
        return false;
    }
    let mut i: usize = 0;
    while i < extension_len
        invariant
            path_len == path@.len(),
            extension_len == extension@.len(),
            start == path_len - extension_len,
            i <= extension_len,
            forall|k: int| 0 <= k < i ==> path@[start + k] == extension@[k],
        decreases extension_len - i,
    {
        if path.get_char(start + i) != extension.get_char(i) {
            assert(path@.subrange(start as int, path_len as int)[i as int] != extension@[i as int]);
            return false;
        }
        i += 1;
    }
    assert(path@.subrange(start as int, path_len as int) =~= extension@);
    true
}

impl Preferences {
    /// The syntax preferred for the file at `path`, by its extension.
    pub fn syntax_definition_name(&self, path: &String) -> (syntax: Option<String>)
        ensures
            syntax == preferred_syntax(self.syntax_types@, path@),
    {
        let mut i: usize = 0;
        assert(self.syntax_types@.skip(0) =~= self.syntax_types@);
        while i < self.syntax_types.len()
            invariant
                i <= self.syntax_types@.len(),
                preferred_syntax(self.syntax_types@, path@) == preferred_syntax(self.syntax_types@.skip(i as int), path@),
            decreases self.syntax_types@.len() - i,
        {
            let entry = &self.syntax_types[i];
            assert(self.syntax_types@.skip(i as int)[0] == self.syntax_types@[i as int]);
            if path_has_extension(path.as_str(), entry.extension.as_str()) {
                return Some(entry.syntax.clone());
            }
            assert(self.syntax_types@.skip(i as int).drop_first() =~= self.syntax_types@.skip(i + 1));
            i += 1;
        }
        None
    }
}

} // verus!

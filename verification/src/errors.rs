//! The ways in which an application command can fail.
use vstd::prelude::*;

verus! {

/// Why a command failed.
#[derive(Clone, Copy, Debug, PartialEq, Eq, Structural)]
pub enum Error {
    /// The command needs an open buffer and there is none.
    BufferMissing,
    /// The current buffer could not be tokenized.
    BufferTokensFailed,
    /// Syntax mode was asked for without an open buffer.
    SyntaxRequiresBuffer,
    /// The second jump stage was asked for outside of jump mode.
    NotInJumpMode,
    /// The open-mode exclusion patterns in the preferences are invalid.
    InvalidOpenModeExclusion,
    /// A selected path could not be opened.
    OpenBufferFailed,
    /// Accepting in command mode without a selected command.
    NoCommandSelected,
    /// Accepting in open mode without a selected path.
    NoBufferSelected,
    /// Accepting in theme mode without a selected theme.
    NoThemeSelected,
    /// Accepting in symbol jump mode without a selected symbol.
    NoSymbolSelected,
    /// The selected symbol's position lies outside of the buffer.
    SymbolOutOfBounds,
    /// Accepting in syntax mode without a selected syntax.
    NoSyntaxSelected,
    /// Accepting outside of the search-select modes.
    AcceptOutsideSearchSelect,
    /// Searching outside of the search-select modes.
    SearchOutsideSearchSelect,
    /// Moving the selection outside of the search-select modes.
    SelectionOutsideSearchSelect,
    /// Changing the insert state outside of the search-select modes.
    InsertOutsideSearchSelect,
    /// Typing a search character outside of the search-select modes.
    PushOutsideSearchSelect,
    /// Erasing a search token outside of the search-select modes (also the
    /// answer to stepping back outside of them).
    PopOutsideSearchSelect,
    /// There is no error to display.
    NoErrorToDisplay,
}

impl Error {
    /// The message shown to the user.
    pub open spec fn spec_message(self) -> Seq<char> {
        match self {
            Error::BufferMissing => "No buffer available"@,
            Error::BufferTokensFailed => "Failed to tokenize buffer"@,
            Error::SyntaxRequiresBuffer => "Switching syntaxes requires an open buffer"@,
            Error::NotInJumpMode => "Cannot enter second stage jump mode from other modes."@,
            Error::InvalidOpenModeExclusion => "Invalid open mode exclusion pattern"@,
            Error::OpenBufferFailed => "Couldn't open a buffer for the specified path."@,
            Error::NoCommandSelected => "No command selected"@,
            Error::NoBufferSelected => "No buffer selected"@,
            Error::NoThemeSelected => "No theme selected"@,
            Error::NoSymbolSelected => "Couldn't find a position for the selected symbol"@,
            Error::SymbolOutOfBounds => "Couldn't move to the selected symbol's position"@,
            Error::NoSyntaxSelected => "No syntax selected"@,
            Error::AcceptOutsideSearchSelect => "Can't accept selection outside of search select mode."@,
            Error::SearchOutsideSearchSelect => "Can't search outside of search select mode."@,
            Error::SelectionOutsideSearchSelect => "Can't change selection outside of search select mode."@,
            Error::InsertOutsideSearchSelect => "Can't change search insert state outside of search select mode"@,
            Error::PushOutsideSearchSelect => "Can't push search character outside of search select mode"@,
            Error::PopOutsideSearchSelect => "Can't pop search token outside of search select mode"@,
            Error::NoErrorToDisplay => "No error to display"@,
        }
    }

    /// The message shown to the user.
    pub fn message(&self) -> (message: &'static str)
        ensures
            message@ == self.spec_message(),
    {
        match self {
            Error::BufferMissing => "No buffer available",
            Error::BufferTokensFailed => "Failed to tokenize buffer",
            Error::SyntaxRequiresBuffer => "Switching syntaxes requires an open buffer",
            Error::NotInJumpMode => "Cannot enter second stage jump mode from other modes.",
            Error::InvalidOpenModeExclusion => "Invalid open mode exclusion pattern",
            Error::OpenBufferFailed => "Couldn't open a buffer for the specified path.",
            Error::NoCommandSelected => "No command selected",
            Error::NoBufferSelected => "No buffer selected",
            Error::NoThemeSelected => "No theme selected",
            Error::NoSymbolSelected => "Couldn't find a position for the selected symbol",
            Error::SymbolOutOfBounds => "Couldn't move to the selected symbol's position",
            Error::NoSyntaxSelected => "No syntax selected",
            Error::AcceptOutsideSearchSelect => "Can't accept selection outside of search select mode.",
            Error::SearchOutsideSearchSelect => "Can't search outside of search select mode.",
            Error::SelectionOutsideSearchSelect => "Can't change selection outside of search select mode.",
            Error::InsertOutsideSearchSelect => "Can't change search insert state outside of search select mode",
            Error::PushOutsideSearchSelect => "Can't push search character outside of search select mode",
            Error::PopOutsideSearchSelect => "Can't pop search token outside of search select mode",
            Error::NoErrorToDisplay => "No error to display",
        }
    }
}

/// What a command returns: nothing, or why it failed.
pub type Result = core::result::Result<(), Error>;

} // verus!

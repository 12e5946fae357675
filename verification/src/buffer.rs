//! In-memory text buffers, as far as the application commands read and change them.
use vstd::prelude::*;
use scribe::buffer::GapBuffer;

verus! {

/// A zero-based line and offset within a buffer. Offsets count grapheme
/// clusters and point between them.
#[derive(Clone, Copy, Debug, PartialEq, Eq, Structural)]
pub struct Position {
    pub line: usize,
    pub offset: usize,
}

/// The text that `scribe`'s gap buffer holds after inserting `text` at
/// (`line`, `offset`) into a gap buffer that held `data`.
pub uninterp spec fn gap_buffer_insert(data: Seq<char>, line: usize, offset: usize, text: Seq<char>) -> Seq<char>;

/// Whether `scribe`'s gap buffer holding `data` counts (`line`, `offset`) as
/// a position within its data.
pub uninterp spec fn gap_buffer_in_bounds(data: Seq<char>, line: usize, offset: usize) -> bool;

/// Calls `scribe::buffer::GapBuffer::insert` on a gap buffer made from `data`
/// (`GapBuffer::new`), and reads the result back (`Display`). The contract
/// names the result, and states two facts that the gap buffer's source and
/// documentation show: the first position is always in bounds, so text
/// inserted there ends up in front of the old data; and inserting at a
/// position out of bounds leaves the data unchanged.
#[verifier::external_body]
fn gap_insert(data: &str, at: Position, text: &str) -> (result: String)
    ensures
        result@ == gap_buffer_insert(data@, at.line, at.offset, text@),
        at.line == 0 && at.offset == 0 ==> result@ == text@ + data@,
        !gap_buffer_in_bounds(data@, at.line, at.offset) ==> result@ == data@,
{
    let mut buffer = GapBuffer::new(data);
    buffer.insert(text, &scribe::buffer::Position { line: at.line, offset: at.offset });
    buffer.to_string()
}

/// Calls `scribe::buffer::GapBuffer::in_bounds` on a gap buffer made from
/// `data`. The contract names the result, and states that the first position
/// is always in bounds, as the gap buffer's source shows.
#[verifier::external_body]
fn gap_in_bounds(data: &str, at: Position) -> (in_bounds: bool)
    ensures
        in_bounds == gap_buffer_in_bounds(data@, at.line, at.offset),
        at.line == 0 && at.offset == 0 ==> in_bounds,
{
    GapBuffer::new(data).in_bounds(&scribe::buffer::Position { line: at.line, offset: at.offset })
}

/// An open buffer: its text, the path it belongs to, its cursor, the name of
/// the syntax it is highlighted with, whether an undo group is open on it,
/// and the first of its lines that the view shows.
#[derive(Debug)]
pub struct Buffer {
    pub data: String,
    pub path: Option<String>,
    pub cursor: Position,
    pub syntax_definition: Option<String>,
    pub operation_group_open: bool,
    pub line_offset: usize,
}

/// The start of a buffer.
pub open spec fn origin() -> Position {
    Position { line: 0, offset: 0 }
}

/// Whether `position` lies within the text of `buffer`.
pub fn in_bounds(buffer: &Buffer, position: Position) -> (inside: bool)
    ensures
        inside == gap_buffer_in_bounds(buffer.data@, position.line, position.offset),
        position == origin() ==> inside,
{
    gap_in_bounds(buffer.data.as_str(), position)
}

impl Buffer {
    /// Creates an empty buffer with its cursor at the start.
    pub fn new() -> (buffer: Buffer)
        ensures
            buffer.data@ == Seq::<char>::empty(),
            buffer.path is None,
            buffer.cursor == origin(),
            buffer.syntax_definition is None,
            !buffer.operation_group_open,
            buffer.line_offset == 0,
    {
        Buffer {
            data: String::new(),
            path: None,
            cursor: Position { line: 0, offset: 0 },
            syntax_definition: None,
            operation_group_open: false,
            line_offset: 0,
        }
    }

    /// The buffer's text.
    pub fn data(&self) -> (data: String)
        ensures
            data@ == self.data@,
    {
        self.data.clone()
    }

    /// Inserts `text` at the cursor. The cursor stays where it was.
    pub fn insert(&mut self, text: &str)
        ensures
            final(self).data@ == gap_buffer_insert(old(self).data@, old(self).cursor.line, old(self).cursor.offset, text@),
            old(self).cursor == origin() ==> final(self).data@ == text@ + old(self).data@,
            !gap_buffer_in_bounds(old(self).data@, old(self).cursor.line, old(self).cursor.offset)
                ==> final(self).data@ == old(self).data@,
            final(self).path == old(self).path,
            final(self).cursor == old(self).cursor,
            final(self).syntax_definition == old(self).syntax_definition,
            final(self).operation_group_open == old(self).operation_group_open,
            final(self).line_offset == old(self).line_offset,
    {
        let data = gap_insert(self.data.as_str(), self.cursor, text);
        self.data = data;
    }

    /// Moves the cursor to `position` if that lies within the buffer's text,
    /// and says whether it did.
    pub fn move_cursor_to(&mut self, position: Position) -> (moved: bool)
        ensures
            moved == gap_buffer_in_bounds(old(self).data@, position.line, position.offset),
            position == origin() ==> moved,
            final(self).cursor == (if moved { position } else { old(self).cursor }),
            final(self).data == old(self).data,
            final(self).path == old(self).path,
            final(self).syntax_definition == old(self).syntax_definition,
            final(self).operation_group_open == old(self).operation_group_open,
            final(self).line_offset == old(self).line_offset,
    {
        let moved = gap_in_bounds(self.data.as_str(), position);
        if moved {
            self.cursor = position;
        }
        moved
    }
}

} // verus!

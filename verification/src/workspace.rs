//! The set of open buffers and the files that can be opened.
use vstd::prelude::*;
use crate::buffer::{gap_buffer_in_bounds, gap_buffer_insert, origin, Buffer, Position};
use crate::errors::{Error, Result};

verus! {

/// A file of the workspace that can be opened as a buffer: its path, its
/// contents, and the syntax it is highlighted with, as the workspace was
/// given it.
#[derive(Debug)]
pub struct FileEntry {
    pub path: String,
    pub contents: String,
    pub syntax: Option<String>,
}

/// The open buffers, in order, with the index of the current one; the files
/// of the workspace directory; the names of the known syntaxes, and the
/// syntax given to buffers that come without one.
#[derive(Debug)]
pub struct Workspace {
    pub path: String,
    pub buffers: Vec<Buffer>,
    pub current_buffer_index: Option<usize>,
    pub files: Vec<FileEntry>,
    pub syntaxes: Vec<String>,
    pub default_syntax: Option<String>,
}

/// A copy of an optional string.
pub fn clone_opt_string(value: &Option<String>) -> (copy: Option<String>)
    ensures
        copy == *value,
{
    match value {
        Some(s) => Some(s.clone()),
        None => None,
    }
}

/// Whether `path` is the path of `buffer`.
pub open spec fn has_path(buffer: Buffer, path: Seq<char>) -> bool {
    buffer.path matches Some(p) && p@ == path
}

/// Whether two texts are equal.
pub fn same_text(a: &String, b: &String) -> (same: bool)
    ensures
        same == (a@ == b@),
{
    a.eq(b)
}

/// A buffer with the workspace's default syntax given to it, where it has none.
pub open spec fn with_syntax(buffer: Buffer, default_syntax: Option<String>) -> Buffer {
    if buffer.syntax_definition is None {
        Buffer { syntax_definition: default_syntax, ..buffer }
    } else {
        buffer
    }
}

impl Workspace {
    /// The current buffer index points into the buffers, and there is one
    /// exactly when there are buffers.
    pub open spec fn wf(&self) -> bool {
        match self.current_buffer_index {
            None => self.buffers@.len() == 0,
            Some(i) => i < self.buffers@.len(),
        }
    }

    /// Whether there is a current buffer.
    pub open spec fn has_current_buffer(&self) -> bool {
        self.current_buffer_index is Some
    }

    /// The current buffer (meaningful when there is one).
    pub open spec fn current(&self) -> Buffer {
        self.buffers@[self.current_buffer_index->0 as int]
    }

    /// Where a new buffer goes: right after the current one.
    pub open spec fn insertion_index(&self) -> int {
        match self.current_buffer_index {
            Some(i) => i + 1,
            None => 0,
        }
    }

    /// What adding `buffer` does: it goes in right after the current buffer,
    /// with the default syntax where it has none, and becomes current.
    pub open spec fn added(pre: Workspace, buffer: Buffer, post: Workspace) -> bool {
        &&& post.buffers@ == pre.buffers@.insert(pre.insertion_index(), with_syntax(buffer, pre.default_syntax))
        &&& post.current_buffer_index matches Some(k) && k == pre.insertion_index()
        &&& post == Workspace {
            buffers: post.buffers,
            current_buffer_index: post.current_buffer_index,
            ..pre
        }
    }

    /// What closing the current buffer does: it leaves the buffers, and the
    /// one before it (or, for the first buffer, the one after it) becomes
    /// current. Without a current buffer, nothing changes.
    pub open spec fn closed(pre: Workspace, post: Workspace) -> bool {
        match pre.current_buffer_index {
            None => post == pre,
            Some(i) => {
                &&& post.buffers@ == pre.buffers@.remove(i as int)
                &&& post.current_buffer_index == (if post.buffers@.len() == 0 {
                    None
                } else if i == 0 {
                    Some(0usize)
                } else {
                    Some((i - 1) as usize)
                })
                &&& post == (Workspace {
                    buffers: post.buffers,
                    current_buffer_index: post.current_buffer_index,
                    ..pre
                })
            },
        }
    }

    /// What changing the current buffer into `buffer` does to the workspace.
    pub open spec fn updated(pre: Workspace, buffer: Buffer, post: Workspace) -> bool {
        &&& pre.has_current_buffer()
        &&& post.buffers@ == pre.buffers@.update(pre.current_buffer_index->0 as int, buffer)
        &&& post == Workspace { buffers: post.buffers, ..pre }
    }

    /// Changing the current buffer twice is changing it once, into the
    /// second buffer.
    pub proof fn lemma_updated_twice(pre: Workspace, first: Buffer, mid: Workspace, second: Buffer, post: Workspace)
        requires
            pre.wf(),
            Workspace::updated(pre, first, mid),
            Workspace::updated(mid, second, post),
        ensures
            Workspace::updated(pre, second, post),
            mid.current() == first,
    {
        assert(post.buffers@ =~= pre.buffers@.update(pre.current_buffer_index->0 as int, second));
    }

    /// The current buffer, if there is one.
    pub fn current_buffer(&self) -> (buffer: Option<&Buffer>)
        requires
            self.wf(),
        ensures
            buffer is Some <==> self.has_current_buffer(),
            match buffer {
                Some(b) => *b == self.current(),
                None => true,
            },
    {
        match self.current_buffer_index {
            Some(i) => Some(&self.buffers[i]),
            None => None,
        }
    }

    /// Adds `buffer` right after the current buffer and makes it current.
    /// A buffer without a syntax gets the workspace's default syntax.
    pub fn add_buffer(&mut self, buffer: Buffer)
        requires
            old(self).wf(),
        ensures
            final(self).wf(),
            Workspace::added(*old(self), buffer, *final(self)),
    {
        let mut buffer = buffer;
        if buffer.syntax_definition.is_none() {
            buffer.syntax_definition = clone_opt_string(&self.default_syntax);
        }
        let len = self.buffers.len();
        let target = match self.current_buffer_index {
            Some(i) => i + 1,
            None => 0,
        };
        assert(target <= len);
        self.buffers.insert(target, buffer);
        self.current_buffer_index = Some(target);
    }

    /// Closes the current buffer; the one before it (or, for the first
    /// buffer, the one after it) becomes current.
    pub fn close_current_buffer(&mut self)
        requires
            old(self).wf(),
        ensures
            final(self).wf(),
            Workspace::closed(*old(self), *final(self)),
    {
        if let Some(index) = self.current_buffer_index {
            self.buffers.remove(index);
            if self.buffers.len() == 0 {
                self.current_buffer_index = None;
            } else if index == 0 {
                self.current_buffer_index = Some(0);
            } else {
                self.current_buffer_index = Some(index - 1);
            }
        }
    }

    /// Makes the buffer after the current one current, wrapping around to the first.
    pub fn next_buffer(&mut self)
        requires
            old(self).wf(),
        ensures
            final(self).wf(),
            *final(self) == (Workspace {
                current_buffer_index: match old(self).current_buffer_index {
                    None => None,
                    Some(i) => if i + 1 == old(self).buffers@.len() {
                        Some(0usize)
                    } else {
                        Some((i + 1) as usize)
                    },
                },
                ..*old(self)
            }),
    {
        let len = self.buffers.len();
        if let Some(index) = self.current_buffer_index {
            if index + 1 == len {
                self.current_buffer_index = Some(0);
            } else {
                self.current_buffer_index = Some(index + 1);
            }
        }
    }

    /// Replaces the current buffer, which must exist, by running it through
    /// `take` and `put`: removes it here, for the caller to change.
    fn take_current(&mut self) -> (taken: (Buffer, usize))
        requires
            old(self).wf(),
            old(self).has_current_buffer(),
        ensures
            taken.1 == old(self).current_buffer_index->0,
            taken.0 == old(self).current(),
            final(self).buffers@ == old(self).buffers@.remove(taken.1 as int),
            *final(self) == (Workspace { buffers: final(self).buffers, ..*old(self) }),
    {
        let index = self.current_buffer_index.unwrap();
        let buffer = self.buffers.remove(index);
        (buffer, index)
    }

    /// Puts a buffer back where `take_current` took the current one.
    fn put_current(&mut self, buffer: Buffer, index: usize)
        requires
            old(self).current_buffer_index == Some(index),
            index <= old(self).buffers@.len(),
        ensures
            final(self).buffers@ == old(self).buffers@.insert(index as int, buffer),
            *final(self) == (Workspace { buffers: final(self).buffers, ..*old(self) }),
    {
        self.buffers.insert(index, buffer);
    }

    /// Opens or closes an undo group on the current buffer, if there is one.
    pub fn set_current_operation_group(&mut self, open: bool)
        requires
            old(self).wf(),
        ensures
            final(self).wf(),
            old(self).has_current_buffer() ==> Workspace::updated(
                *old(self),
                (Buffer { operation_group_open: open, ..old(self).current() }),
                *final(self),
            ),
            !old(self).has_current_buffer() ==> *final(self) == *old(self),
    {
        if self.current_buffer_index.is_some() {
            let (mut buffer, index) = self.take_current();
            buffer.operation_group_open = open;
            self.put_current(buffer, index);
            assert(self.buffers@ =~= old(self).buffers@.update(index as int, buffer));
        }
    }

    /// Sets the first line that the view shows of the current buffer, which
    /// must exist.
    pub fn set_current_line_offset(&mut self, offset: usize)
        requires
            old(self).wf(),
            old(self).has_current_buffer(),
        ensures
            final(self).wf(),
            Workspace::updated(
                *old(self),
                (Buffer { line_offset: offset, ..old(self).current() }),
                *final(self),
            ),
    {
        let (mut buffer, index) = self.take_current();
        buffer.line_offset = offset;
        self.put_current(buffer, index);
        assert(self.buffers@ =~= old(self).buffers@.update(index as int, buffer));
    }

    /// Sets the syntax of the current buffer, which must exist.
    pub fn set_current_syntax(&mut self, syntax: Option<String>)
        requires
            old(self).wf(),
            old(self).has_current_buffer(),
        ensures
            final(self).wf(),
            Workspace::updated(
                *old(self),
                (Buffer { syntax_definition: syntax, ..old(self).current() }),
                *final(self),
            ),
    {
        let (mut buffer, index) = self.take_current();
        buffer.syntax_definition = syntax;
        self.put_current(buffer, index);
        assert(self.buffers@ =~= old(self).buffers@.update(index as int, buffer));
    }

    /// Moves the cursor of the current buffer, which must exist, to
    /// `position` if that lies within its text; says whether it did.
    pub fn move_current_cursor(&mut self, position: Position) -> (moved: bool)
        requires
            old(self).wf(),
            old(self).has_current_buffer(),
        ensures
            final(self).wf(),
            moved == gap_buffer_in_bounds(old(self).current().data@, position.line, position.offset),
            position == origin() ==> moved,
            moved ==> Workspace::updated(
                *old(self),
                (Buffer { cursor: position, ..old(self).current() }),
                *final(self),
            ),
            !moved ==> *final(self) == *old(self),
    {
        let index = self.current_buffer_index.unwrap();
        let moved = {
            let current = &self.buffers[index];
            crate::buffer::in_bounds(current, position)
        };
        if moved {
            let (mut buffer, index) = self.take_current();
            buffer.cursor = position;
            self.put_current(buffer, index);
            assert(self.buffers@ =~= old(self).buffers@.update(index as int, buffer));
        }
        moved
    }

    /// What inserting `text` at the cursor of the current buffer does: that
    /// buffer's text changes as the gap buffer's insertion says, and nothing
    /// else changes.
    pub open spec fn inserted(pre: Workspace, post: Workspace, text: Seq<char>) -> bool {
        &&& pre.has_current_buffer()
        &&& post.current_buffer_index == pre.current_buffer_index
        &&& post.buffers@.len() == pre.buffers@.len()
        &&& forall|j: int| 0 <= j < pre.buffers@.len() && j != pre.current_buffer_index->0 ==>
            post.buffers@[j] == pre.buffers@[j]
        &&& post.current() == (Buffer { data: post.current().data, ..pre.current() })
        &&& post.current().data@ == gap_buffer_insert(
            pre.current().data@,
            pre.current().cursor.line,
            pre.current().cursor.offset,
            text,
        )
        &&& post == (Workspace { buffers: post.buffers, ..pre })
    }

    /// Inserts `text` at the cursor of the current buffer, which must exist.
    pub fn insert_into_current(&mut self, text: &str)
        requires
            old(self).wf(),
            old(self).has_current_buffer(),
        ensures
            final(self).wf(),
            Workspace::inserted(*old(self), *final(self), text@),
            old(self).current().cursor == origin() ==> final(self).current().data@ == text@ + old(self).current().data@,
    {
        let (mut buffer, index) = self.take_current();
        buffer.insert(text);
        self.put_current(buffer, index);
        assert(self.buffers@ =~= old(self).buffers@.update(index as int, buffer));
    }

    /// The index of an open buffer with the given path, if there is one.
    fn find_buffer(&self, path: &String) -> (found: Option<usize>)
        ensures
            match found {
                Some(j) => j < self.buffers@.len() && has_path(self.buffers@[j as int], path@),
                None => forall|j: int| 0 <= j < self.buffers@.len() ==> !has_path(#[trigger] self.buffers@[j], path@),
            },
    {
        let mut j: usize = 0;
        while j < self.buffers.len()
            invariant
                j <= self.buffers@.len(),
                forall|k: int| 0 <= k < j ==> !has_path(#[trigger] self.buffers@[k], path@),
            decreases self.buffers@.len() - j,
        {
            match &self.buffers[j].path {
                Some(p) => {
                    if same_text(p, path) {
                        return Some(j);
                    }
                },
                None => {},
            }
            j += 1;
        }
        None
    }

    /// The index of the workspace file with the given path, if there is one.
    fn find_file(&self, path: &String) -> (found: Option<usize>)
        ensures
            match found {
                Some(j) => j < self.files@.len() && self.files@[j as int].path@ == path@,
                None => forall|j: int| 0 <= j < self.files@.len() ==> (#[trigger] self.files@[j]).path@ != path@,
            },
    {
        let mut j: usize = 0;
        while j < self.files.len()
            invariant
                j <= self.files@.len(),
                forall|k: int| 0 <= k < j ==> (#[trigger] self.files@[k]).path@ != path@,
            decreases self.files@.len() - j,
        {
            if same_text(&self.files[j].path, path) {
                return Some(j);
            }
            j += 1;
        }
        None
    }

    /// What opening `path` does: it selects the buffer of that path if one
    /// is open (the current one first); otherwise it adds a buffer holding
    /// the file of that path, and fails if the workspace has no such file.
    pub open spec fn opened(pre: Workspace, path: Seq<char>, post: Workspace, r: Result) -> bool {
        if pre.has_current_buffer() && has_path(pre.current(), path) {
            r == Ok::<(), Error>(()) && post == pre
        } else if exists|j: int| 0 <= j < pre.buffers@.len() && has_path(#[trigger] pre.buffers@[j], path) {
            &&& r == Ok::<(), Error>(())
            &&& post == Workspace { current_buffer_index: post.current_buffer_index, ..pre }
            &&& post.current_buffer_index matches Some(j) && j < pre.buffers@.len() && has_path(pre.buffers@[j as int], path)
        } else if exists|j: int| 0 <= j < pre.files@.len() && (#[trigger] pre.files@[j]).path@ == path {
            &&& r == Ok::<(), Error>(())
            &&& Workspace::added(pre, post.current(), post)
            &&& exists|j: int| 0 <= j < pre.files@.len() && (#[trigger] pre.files@[j]).path@ == path
                && opened_file(pre.files@[j], post.current())
        } else {
            r == Err::<(), Error>(Error::OpenBufferFailed) && post == pre
        }
    }

    /// Opens the buffer of `path`: selects it if it is open, and otherwise
    /// adds a buffer holding the workspace file of that path.
    pub fn open_buffer(&mut self, path: &String) -> (r: Result)
        requires
            old(self).wf(),
        ensures
            final(self).wf(),
            Workspace::opened(*old(self), path@, *final(self), r),
    {
        if let Some(index) = self.current_buffer_index {
            match &self.buffers[index].path {
                Some(p) => {
                    if same_text(p, path) {
                        return Ok(());
                    }
                },
                None => {},
            }
        }
        if let Some(j) = self.find_buffer(path) {
            self.current_buffer_index = Some(j);
            return Ok(());
        }
        match self.find_file(path) {
            Some(j) => {
                let file = &self.files[j];
                let buffer = Buffer {
                    data: file.contents.clone(),
                    path: Some(file.path.clone()),
                    cursor: Position { line: 0, offset: 0 },
                    syntax_definition: clone_opt_string(&file.syntax),
                    operation_group_open: false,
                    line_offset: 0,
                };
                let ghost made = buffer;
                assert(opened_file(self.files@[j as int], with_syntax(made, self.default_syntax)));
                let ghost target = old(self).insertion_index();
                self.add_buffer(buffer);
                assert(self.buffers@[target] == with_syntax(made, old(self).default_syntax));
                assert(self.current() == with_syntax(made, old(self).default_syntax));
                Ok(())
            },
            None => Err(Error::OpenBufferFailed),
        }
    }
}

/// Whether `buffer` is what opening `file` gives: the file's contents and
/// path, the cursor at the start, the file's syntax (or the default one),
/// and the view at the first line.
pub open spec fn opened_file(file: FileEntry, buffer: Buffer) -> bool {
    &&& buffer.data@ == file.contents@
    &&& buffer.path matches Some(p) && p@ == file.path@
    &&& buffer.cursor == origin()
    &&& !buffer.operation_group_open
    &&& buffer.line_offset == 0
    &&& (file.syntax is Some ==> buffer.syntax_definition == file.syntax)
}


/// A copy of a list of strings.
pub fn clone_strings(strings: &Vec<String>) -> (copy: Vec<String>)
    ensures
        copy@ == strings@,
{
    let mut copy: Vec<String> = Vec::new();
    for i in 0..strings.len()
        invariant
            copy@ == strings@.take(i as int),
    {
        copy.push(strings[i].clone());
        assert(copy@ =~= strings@.take(i + 1));
    }
    assert(strings@.take(strings.len() as int) =~= strings@);
    copy
}

/// Whether `text` starts with `prefix`.
pub fn starts_with(text: &str, prefix: &str) -> (starts: bool)
    ensures
        starts == prefix@.is_prefix_of(text@),
{
    let text_len = text.unicode_len();
    let prefix_len = prefix.unicode_len();
    if prefix_len > text_len {
        return false;
    }
    let mut i: usize = 0;
    while i < prefix_len
        invariant
            text_len == text@.len(),
            prefix_len == prefix@.len(),
            prefix_len <= text_len,
            i <= prefix_len,
            forall|k: int| 0 <= k < i ==> prefix@[k] == text@[k],
        decreases prefix_len - i,
    {
        if prefix.get_char(i) != text.get_char(i) {
            return false;
        }
        i += 1;
    }
    assert(prefix@ =~= text@.subrange(0, prefix@.len() as int));
    true
}

/// Whether one of the exclusions is a prefix of `path`.
pub open spec fn is_excluded(path: Seq<char>, exclusions: Seq<Seq<char>>) -> bool {
    exists|j: int| 0 <= j < exclusions.len() && (#[trigger] exclusions[j]).is_prefix_of(path)
}

/// The paths of the first `n` files, less the excluded ones.
pub open spec fn open_paths(files: Seq<FileEntry>, exclusions: Seq<Seq<char>>, n: nat) -> Seq<Seq<char>>
    decreases n,
{
    if n == 0 {
        Seq::empty()
    } else {
        let earlier = open_paths(files, exclusions, (n - 1) as nat);
        if is_excluded(files[n - 1].path@, exclusions) {
            earlier
        } else {
            earlier.push(files[n - 1].path@)
        }
    }
}

/// The paths of the workspace files, less those that an exclusion is a
/// prefix of.
pub fn open_candidates(files: &Vec<FileEntry>, exclusions: &Vec<String>) -> (paths: Vec<String>)
    ensures
        paths.deep_view() == open_paths(files@, exclusions.deep_view(), files@.len()),
{
    let ghost ex = exclusions.deep_view();
    let mut paths: Vec<String> = Vec::new();
    for i in 0..files.len()
        invariant
            ex == exclusions.deep_view(),
            paths.deep_view() == open_paths(files@, ex, i as nat),
    {
        let path = &files[i].path;
        let mut excluded = false;
        for j in 0..exclusions.len()
            invariant
                ex == exclusions.deep_view(),
                excluded <==> exists|k: int| 0 <= k < j && (#[trigger] ex[k]).is_prefix_of(path@),
        {
            if starts_with(path.as_str(), exclusions[j].as_str()) {
                assert(ex[j as int] == exclusions@[j as int]@);
                excluded = true;
            } else {
                assert(ex[j as int] == exclusions@[j as int]@);
            }
        }
        if !excluded {
            let ghost before = paths.deep_view();
            paths.push(path.clone());
            assert(paths.deep_view() =~= before.push(path@));
        }
    }
    paths
}


/// The first of the syntax names that is `name`.
pub open spec fn find_syntax(syntaxes: Seq<String>, name: Seq<char>) -> Option<String>
    decreases syntaxes.len(),
{
    if syntaxes.len() == 0 {
        None
    } else if syntaxes[0]@ == name {
        Some(syntaxes[0])
    } else {
        find_syntax(syntaxes.drop_first(), name)
    }
}

impl Workspace {
    /// The known syntax called `name`, if there is one.
    pub fn find_syntax_by_name(&self, name: &String) -> (syntax: Option<String>)
        ensures
            syntax == find_syntax(self.syntaxes@, name@),
    {
        let mut i: usize = 0;
        assert(self.syntaxes@.skip(0) =~= self.syntaxes@);
        while i < self.syntaxes.len()
            invariant
                i <= self.syntaxes@.len(),
                find_syntax(self.syntaxes@, name@) == find_syntax(self.syntaxes@.skip(i as int), name@),
            decreases self.syntaxes@.len() - i,
        {
            assert(self.syntaxes@.skip(i as int)[0] == self.syntaxes@[i as int]);
            if same_text(&self.syntaxes[i], name) {
                return Some(self.syntaxes[i].clone());
            }
            assert(self.syntaxes@.skip(i as int).drop_first() =~= self.syntaxes@.skip(i + 1));
            i += 1;
        }
        None
    }
}

} // verus!

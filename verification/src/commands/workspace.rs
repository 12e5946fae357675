//! Commands on the set of open buffers.
use vstd::prelude::*;
use crate::application::Application;
use crate::buffer::{origin, Buffer};
use crate::errors::{Error, Result};
use crate::workspace::Workspace;

verus! {

/// Whether `post` is `pre` with a new, empty buffer added after the current
/// one and made current.
pub open spec fn added_empty_buffer(pre: Workspace, post: Workspace) -> bool {
    &&& Workspace::added(pre, post.current(), post)
    &&& is_empty_buffer(post.current(), pre.default_syntax)
}

/// Whether `buffer` is a new buffer that holds nothing and has no path,
/// with the given syntax.
pub open spec fn is_empty_buffer(buffer: Buffer, syntax: Option<String>) -> bool {
    &&& buffer.data@.len() == 0
    &&& is_new_buffer(buffer, syntax)
}

/// Whether `buffer` is a new buffer without a path, with the given syntax.
pub open spec fn is_new_buffer(buffer: Buffer, syntax: Option<String>) -> bool {
    &&& buffer.path is None
    &&& buffer.cursor == origin()
    &&& buffer.syntax_definition == syntax
    &&& !buffer.operation_group_open
    &&& buffer.line_offset == 0
}

/// What `new_buffer` does, as a relation between the editor before, the editor after, and the result.
pub open spec fn new_buffer_spec(pre: Application, post: Application, r: Result) -> bool {
    &&& r == Ok::<(), Error>(())
    &&& post == (Application { workspace: post.workspace, ..pre })
    &&& added_empty_buffer(pre.workspace, post.workspace)
}

/// Whether `post` is `pre` with a new buffer, holding `text` and no path,
/// added after the current one and made current.
pub open spec fn shows_text(pre: Workspace, post: Workspace, text: Seq<char>) -> bool {
    &&& Workspace::added(pre, post.current(), post)
    &&& post.current().data@ == text
    &&& is_new_buffer(post.current(), pre.default_syntax)
}

/// An empty buffer that was just added shows the empty text.
pub proof fn lemma_empty_buffer_shows_nothing(pre: Workspace, post: Workspace)
    requires
        added_empty_buffer(pre, post),
    ensures
        shows_text(pre, post, Seq::empty()),
{
    assert(post.current().data@ =~= Seq::<char>::empty());
}

/// Inserting text at the start of a shown buffer puts it in front of what
/// the buffer shows.
pub proof fn lemma_prepend_to_shown_text(pre: Workspace, mid: Workspace, post: Workspace, shown: Seq<char>, text: Seq<char>)
    requires
        pre.wf(),
        shows_text(pre, mid, shown),
        Workspace::inserted(mid, post, text),
        post.current().data@ == text + mid.current().data@,
    ensures
        shows_text(pre, post, text + shown),
{
    let k = pre.insertion_index();
    assert(mid.buffers@ == pre.buffers@.insert(k, mid.current()));
    assert(post.buffers@ =~= pre.buffers@.insert(k, post.current()));
}

/// Adds an empty buffer after the current one and makes it current.
pub fn new_buffer(app: &mut Application) -> (r: Result)
    requires
        old(app).wf(),
    ensures
        final(app).wf(),
        new_buffer_spec(*old(app), *final(app), r),
{
    let buffer = Buffer::new();
    let ghost made = buffer;
    let ghost target = app.workspace.insertion_index();
    app.workspace.add_buffer(buffer);
    assert(app.workspace.buffers@[target] == crate::workspace::with_syntax(made, old(app).workspace.default_syntax));
    Ok(())
}

/// What `next_buffer` does, as a relation between the editor before, the editor after, and the result.
pub open spec fn next_buffer_spec(pre: Application, post: Application, r: Result) -> bool {
    &&& r == Ok::<(), Error>(())
    &&& post == (Application {
        workspace: Workspace {
            current_buffer_index: match pre.workspace.current_buffer_index {
                None => None,
                Some(i) => if i + 1 == pre.workspace.buffers@.len() {
                    Some(0usize)
                } else {
                    Some((i + 1) as usize)
                },
            },
            ..pre.workspace
        },
        ..pre
    })
}

/// Makes the next buffer current, wrapping around after the last one.
pub fn next_buffer(app: &mut Application) -> (r: Result)
    requires
        old(app).wf(),
    ensures
        final(app).wf(),
        next_buffer_spec(*old(app), *final(app), r),
{
    app.workspace.next_buffer();
    Ok(())
}

} // verus!

//! Commands that scroll the view of the current buffer.
use vstd::prelude::*;
use crate::application::Application;
use crate::buffer::Buffer;
use crate::errors::{Error, Result};
use crate::view::scroll::{center_on, centered, scroll_into_view, scrolled_into_view};
use crate::workspace::Workspace;

verus! {

/// What changing the first line that the view shows of the current buffer
/// into `offset` does: nothing else changes.
pub open spec fn scrolled_to(pre: Application, post: Application, offset: usize) -> bool {
    &&& post == (Application { workspace: post.workspace, ..pre })
    &&& Workspace::updated(pre.workspace, Buffer { line_offset: offset, ..pre.workspace.current() }, post.workspace)
}

/// What `scroll_to_cursor` does, as a relation between the editor before, the editor after, and the result.
pub open spec fn scroll_to_cursor_spec(pre: Application, post: Application, r: Result) -> bool {
    if pre.workspace.has_current_buffer() {
        let buffer = pre.workspace.current();
        &&& r == Ok::<(), Error>(())
        &&& scrolled_to(pre, post, scrolled_into_view(buffer.line_offset, buffer.cursor.line, pre.view.height))
    } else {
        r == Err::<(), Error>(Error::BufferMissing) && post == pre
    }
}

/// Scrolls the view of the current buffer just enough to show the cursor.
pub fn scroll_to_cursor(app: &mut Application) -> (r: Result)
    requires
        old(app).wf(),
    ensures
        final(app).wf(),
        scroll_to_cursor_spec(*old(app), *final(app), r),
{
    let offset = match app.workspace.current_buffer() {
        Some(buffer) => scroll_into_view(buffer.line_offset, buffer.cursor.line, app.view.height),
        None => return Err(Error::BufferMissing),
    };
    app.workspace.set_current_line_offset(offset);
    Ok(())
}

/// What `scroll_cursor_to_center` does, as a relation between the editor before, the editor after, and the result.
pub open spec fn scroll_cursor_to_center_spec(pre: Application, post: Application, r: Result) -> bool {
    if pre.workspace.has_current_buffer() {
        &&& r == Ok::<(), Error>(())
        &&& scrolled_to(pre, post, centered(pre.workspace.current().cursor.line, pre.view.height))
    } else {
        r == Err::<(), Error>(Error::BufferMissing) && post == pre
    }
}

/// Scrolls the view of the current buffer so that the cursor line is in the
/// middle.
pub fn scroll_cursor_to_center(app: &mut Application) -> (r: Result)
    requires
        old(app).wf(),
    ensures
        final(app).wf(),
        scroll_cursor_to_center_spec(*old(app), *final(app), r),
{
    let offset = match app.workspace.current_buffer() {
        Some(buffer) => center_on(buffer.cursor.line, app.view.height),
        None => return Err(Error::BufferMissing),
    };
    app.workspace.set_current_line_offset(offset);
    Ok(())
}

} // verus!

//! Commands on the current buffer.
use vstd::prelude::*;
use crate::application::Application;
use crate::buffer::Buffer;
use crate::errors::{Error, Result};
use crate::workspace::Workspace;

verus! {

/// What opening (`open`) or closing an undo group on the current buffer
/// does: the buffer's group is open or closed; without a buffer, the command
/// fails and nothing changes.
pub open spec fn command_group_spec(pre: Application, post: Application, r: Result, open: bool) -> bool {
    if pre.workspace.has_current_buffer() {
        &&& r == Ok::<(), Error>(())
        &&& post == (Application { workspace: post.workspace, ..pre })
        &&& Workspace::updated(
            pre.workspace,
            Buffer { operation_group_open: open, ..pre.workspace.current() },
            post.workspace,
        )
    } else {
        r == Err::<(), Error>(Error::BufferMissing) && post == pre
    }
}

/// Opens an undo group on the current buffer: the changes that follow are
/// undone together.
pub fn start_command_group(app: &mut Application) -> (r: Result)
    requires
        old(app).wf(),
    ensures
        final(app).wf(),
        command_group_spec(*old(app), *final(app), r, true),
{
    if app.workspace.current_buffer_index.is_none() {
        return Err(Error::BufferMissing);
    }
    app.workspace.set_current_operation_group(true);
    Ok(())
}

/// Closes the undo group of the current buffer.
pub fn end_command_group(app: &mut Application) -> (r: Result)
    requires
        old(app).wf(),
    ensures
        final(app).wf(),
        command_group_spec(*old(app), *final(app), r, false),
{
    if app.workspace.current_buffer_index.is_none() {
        return Err(Error::BufferMissing);
    }
    app.workspace.set_current_operation_group(false);
    Ok(())
}

} // verus!

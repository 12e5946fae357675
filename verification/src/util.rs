//! Helpers that several commands share.
use vstd::prelude::*;
use crate::application::{preferred_syntax, Application};
use crate::buffer::Buffer;
use crate::errors::{Error, Result};
use crate::workspace::{find_syntax, has_path, Workspace};

verus! {

/// The syntax that opening `path` gives the opened buffer: the one the
/// preferences name for its extension, if the workspace knows it.
pub open spec fn chosen_syntax(app: Application, path: Seq<char>) -> Option<String> {
    match preferred_syntax(app.preferences.syntax_types@, path) {
        Some(name) => find_syntax(app.workspace.syntaxes@, name@),
        None => None,
    }
}

/// Whether the workspace can open `path`: a buffer of that path is open, or
/// the workspace has a file of that path.
pub open spec fn can_open(workspace: Workspace, path: Seq<char>) -> bool {
    ||| (workspace.has_current_buffer() && has_path(workspace.current(), path))
    ||| exists|j: int| 0 <= j < workspace.buffers@.len() && has_path(#[trigger] workspace.buffers@[j], path)
    ||| exists|j: int| 0 <= j < workspace.files@.len() && (#[trigger] workspace.files@[j]).path@ == path
}

/// Whether `post` is `opened` with `syntax` given to its current buffer,
/// when there is one to give.
pub open spec fn syntax_applied(opened: Workspace, post: Workspace, syntax: Option<String>) -> bool {
    if syntax is Some {
        Workspace::updated(opened, Buffer { syntax_definition: syntax, ..opened.current() }, post)
    } else {
        post == opened
    }
}

/// What `open_buffer` does, as a relation between the editor before, the editor after, and the result.
pub open spec fn open_buffer_spec(pre: Application, path: Seq<char>, post: Application, r: Result) -> bool {
    if can_open(pre.workspace, path) {
        &&& r == Ok::<(), Error>(())
        &&& post == (Application { workspace: post.workspace, ..pre })
        &&& exists|opened: Workspace| {
            &&& #[trigger] Workspace::opened(pre.workspace, path, opened, Ok::<(), Error>(()))
            &&& syntax_applied(opened, post.workspace, chosen_syntax(pre, path))
        }
    } else {
        r == Err::<(), Error>(Error::OpenBufferFailed) && post == pre
    }
}

/// Opens the buffer of `path`, with the syntax that the preferences name for
/// it, if the workspace knows that syntax.
pub fn open_buffer(path: &String, app: &mut Application) -> (r: Result)
    requires
        old(app).wf(),
    ensures
        final(app).wf(),
        open_buffer_spec(*old(app), path@, *final(app), r),
{
    let syntax_definition = match app.preferences.syntax_definition_name(path) {
        Some(name) => app.workspace.find_syntax_by_name(&name),
        None => None,
    };

    let ghost before = app.workspace;
    if app.workspace.open_buffer(path).is_err() {
        return Err(Error::OpenBufferFailed);
    }
    let ghost opened = app.workspace;

    // Only override the default syntax definition if the user provided
    // a valid one in their preferences.
    if syntax_definition.is_some() {
        app.workspace.set_current_syntax(syntax_definition);
    }
    assert(Workspace::opened(before, path@, opened, Ok::<(), Error>(())));
    Ok(())
}

/// Whether `states` and `results` trace opening `paths` in order from `pre`
/// to `post`, ending with `r`: each path is opened in the state that the
/// previous opening left, and the openings stop after the first that fails
/// (or after the last path).
pub open spec fn opens_in_turn(
    paths: Seq<Seq<char>>,
    states: Seq<Application>,
    results: Seq<Result>,
    pre: Application,
    post: Application,
    r: Result,
) -> bool {
    let n = results.len();
    &&& states.len() == n + 1
    &&& n <= paths.len()
    &&& states[0] == pre
    &&& states[n as int] == post
    &&& forall|i: int| 0 <= i < n ==> open_buffer_spec(states[i], paths[i], #[trigger] states[i + 1], results[i])
    &&& forall|i: int| 0 <= i < n - 1 ==> (#[trigger] results[i]) is Ok
    &&& r == (if n == 0 { Ok::<(), Error>(()) } else { results[n - 1] })
    &&& n < paths.len() ==> n > 0 && results[n - 1] is Err
}

/// What opening `paths` in order does, stopping at the first that fails:
/// the buffers opened before it stay open.
pub open spec fn opens_all(paths: Seq<Seq<char>>, pre: Application, post: Application, r: Result) -> bool {
    exists|states: Seq<Application>, results: Seq<Result>| #[trigger] opens_in_turn(paths, states, results, pre, post, r)
}

/// Opens the buffers of `paths`, in order, stopping at the first that
/// cannot be opened; the last one opened is current.
pub fn open_buffers(paths: &Vec<String>, app: &mut Application) -> (r: Result)
    requires
        old(app).wf(),
    ensures
        final(app).wf(),
        opens_all(paths.deep_view(), *old(app), *final(app), r),
{
    let ghost all = paths.deep_view();
    let ghost pre = *old(app);
    let ghost mut states: Seq<Application> = seq![pre];
    let ghost mut results: Seq<Result> = Seq::empty();
    for i in 0..paths.len()
        invariant
            all == paths.deep_view(),
            pre == *old(app),
            app.wf(),
            results.len() == i,
            opens_in_turn(all.take(i as int), states, results, pre, *app, Ok::<(), Error>(())),
            forall|j: int| 0 <= j < i ==> (#[trigger] results[j]) is Ok,
    {
        let ghost mid = *app;
        let result = open_buffer(&paths[i], app);
        proof {
            assert(all[i as int] == paths@[i as int]@);
            states = states.push(*app);
            results = results.push(result);
            assert(all.take(i + 1)[i as int] == all[i as int]);
            assert forall|j: int| 0 <= j < i + 1 implies open_buffer_spec(
                states[j],
                all.take(i + 1)[j],
                #[trigger] states[j + 1],
                results[j],
            ) by {
                if j < i {
                    assert(all.take(i + 1)[j] == all.take(i as int)[j]);
                }
            }
        }
        if result.is_err() {
            proof {
                assert forall|j: int| 0 <= j < results.len() implies open_buffer_spec(
                    states[j],
                    all[j],
                    #[trigger] states[j + 1],
                    results[j],
                ) by {
                    assert(all.take(i + 1)[j] == all[j]);
                }
                assert(opens_in_turn(all, states, results, pre, *app, result));
            }
            return result;
        }
        assert(opens_in_turn(all.take(i + 1), states, results, pre, *app, Ok::<(), Error>(())));
    }
    proof {
        assert(all.take(all.len() as int) =~= all);
        assert(opens_in_turn(all, states, results, pre, *app, Ok::<(), Error>(())));
    }
    Ok(())
}

} // verus!

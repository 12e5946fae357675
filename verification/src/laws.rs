//! Properties that hold across calls of the library's operations.
use vstd::prelude::*;
use crate::application::{is_search_select, Application, ModeKey};
use crate::buffer::Buffer;
use crate::commands::search_select::{accept_spec, step_back_spec};
use crate::commands::{run_basic_spec, Command};
use crate::errors::{Error, Result};
use crate::input::{commands_in, KeyBinding};
use crate::modes::{
    fuzzy_match, is_whitespace, matching_indices, min, pop_token, search_results, SearchSelect,
};
use crate::workspace::{find_syntax, has_path, open_paths, FileEntry, Workspace};
use crate::view::color::{spec_map_colors, Colors, RGBColor, Theme};

verus! {

proof fn lemma_matching_indices_properties(candidates: Seq<Seq<char>>, query: Seq<char>, n: nat)
    requires
        n <= candidates.len(),
        candidates.len() <= usize::MAX,
    ensures
        forall|k: int| 0 <= k < matching_indices(candidates, query, n).len() ==> {
            let i = #[trigger] matching_indices(candidates, query, n)[k];
            &&& i < n
            &&& fuzzy_match(query, candidates[i as int])
        },
        forall|k: int, l: int|
            0 <= k < l < matching_indices(candidates, query, n).len() ==> #[trigger] matching_indices(
                candidates,
                query,
                n,
            )[k] < #[trigger] matching_indices(candidates, query, n)[l],
        forall|i: int|
            0 <= i < n && fuzzy_match(query, #[trigger] candidates[i]) ==> matching_indices(
                candidates,
                query,
                n,
            ).contains(i as usize),
    decreases n,
{
    if n > 0 {
        lemma_matching_indices_properties(candidates, query, (n - 1) as nat);
        let earlier = matching_indices(candidates, query, (n - 1) as nat);
        let m = matching_indices(candidates, query, n);
        if fuzzy_match(query, candidates[n - 1]) {
            assert(m == earlier.push((n - 1) as usize));
            assert(earlier.push((n - 1) as usize)[earlier.len() as int] == (n - 1) as usize);
            assert forall|k: int| 0 <= k < earlier.len() implies #[trigger] m[k] == earlier[k] by {}
            assert forall|k: int| 0 <= k < m.len() implies {
                let i = #[trigger] m[k];
                &&& i < n
                &&& fuzzy_match(query, candidates[i as int])
            } by {
                if k < earlier.len() {
                    assert(m[k] == earlier[k]);
                }
            }
            assert forall|k: int, l: int| 0 <= k < l < m.len() implies #[trigger] m[k] < #[trigger] m[l] by {
                assert(m[k] == earlier[k]);
                if l < earlier.len() {
                    assert(m[l] == earlier[l]);
                }
            }
            assert forall|i: int| 0 <= i < n && fuzzy_match(query, #[trigger] candidates[i]) implies earlier.push(
                (n - 1) as usize,
            ).contains(i as usize) by {
                if i < n - 1 {
                    let k = choose|k: int| 0 <= k < earlier.len() && earlier[k] == i as usize;
                    assert(earlier.push((n - 1) as usize)[k] == i as usize);
                } else {
                    assert(earlier.push((n - 1) as usize)[earlier.len() as int] == i as usize);
                }
            }
        } else {
            assert forall|i: int| 0 <= i < n && fuzzy_match(query, #[trigger] candidates[i]) implies earlier.contains(
                i as usize,
            ) by {
                assert(i < n - 1);
            }
        }
    }
}

/// A search finds only candidates that match the query, lists them in the
/// order of the candidates, and finds no more than `max_results` of them.
/// When fewer than `max_results` are found, every matching candidate is
/// among them.
pub proof fn lemma_search_results(candidates: Seq<Seq<char>>, query: Seq<char>, max_results: usize)
    requires
        candidates.len() <= usize::MAX,
    ensures
        search_results(candidates, query, max_results).len() <= max_results,
        forall|k: int| 0 <= k < search_results(candidates, query, max_results).len() ==> {
            let i = #[trigger] search_results(candidates, query, max_results)[k];
            &&& i < candidates.len()
            &&& fuzzy_match(query, candidates[i as int])
        },
        forall|k: int, l: int|
            0 <= k < l < search_results(candidates, query, max_results).len() ==> #[trigger] search_results(
                candidates,
                query,
                max_results,
            )[k] < #[trigger] search_results(candidates, query, max_results)[l],
        search_results(candidates, query, max_results).len() < max_results ==> forall|i: int|
            0 <= i < candidates.len() && fuzzy_match(query, #[trigger] candidates[i]) ==> search_results(
                candidates,
                query,
                max_results,
            ).contains(i as usize),
{
    let all = matching_indices(candidates, query, candidates.len());
    lemma_matching_indices_properties(candidates, query, candidates.len());
    let found = search_results(candidates, query, max_results);
    assert(found == all.take(min(all.len() as int, max_results as int)));
    assert forall|k: int| 0 <= k < found.len() implies {
        let i = #[trigger] found[k];
        &&& i < candidates.len()
        &&& fuzzy_match(query, candidates[i as int])
    } by {
        assert(found[k] == all[k]);
    }
    assert forall|k: int, l: int| 0 <= k < l < found.len() implies #[trigger] found[k] < #[trigger] found[l] by {
        assert(found[k] == all[k]);
        assert(found[l] == all[l]);
    }
    if found.len() < max_results {
        assert(found =~= all);
    }
}

/// An empty query matches every text.
pub proof fn lemma_empty_query_matches(text: Seq<char>)
    ensures
        fuzzy_match(Seq::empty(), text),
{
}

/// Moving the selection down and then up again comes back to where it was,
/// whenever there was a result below.
pub proof fn lemma_next_then_previous(list: SearchSelect)
    requires
        list.results@.len() <= usize::MAX,
        list.selected_index + 1 < list.results@.len(),
    ensures
        list.next_selected().previous_selected() == list,
{
}

/// Erasing a token leaves a prefix of the query, shorter than the query
/// unless the query is empty.
pub proof fn lemma_pop_token_shortens(query: Seq<char>)
    ensures
        pop_token(query).is_prefix_of(query),
        query.len() > 0 ==> pop_token(query).len() < query.len(),
    decreases query.len(),
{
    if query.len() > 1 && is_whitespace(query.last()) == is_whitespace(query[query.len() - 2]) {
        lemma_pop_token_shortens(query.drop_last());
        assert(pop_token(query.drop_last()) =~= query.subrange(0, pop_token(query.drop_last()).len() as int));
    } else if query.len() > 1 {
        assert(query.drop_last() =~= query.subrange(0, query.len() - 1));
    }
}

/// Typing a character that starts a new token (a non-space after spaces, a
/// space after other characters, or anything into an empty query) and then
/// erasing the last token gives back the query.
pub proof fn lemma_pop_token_undoes_new_token(query: Seq<char>, c: char)
    requires
        query.len() == 0 || is_whitespace(query.last()) != is_whitespace(c),
    ensures
        pop_token(query.push(c)) == query,
{
    let pushed = query.push(c);
    assert(pushed.drop_last() =~= query);
    if query.len() > 0 {
        assert(pushed[pushed.len() - 2] == query.last());
    }
}

/// Accepting a selection that succeeds always ends in normal mode.
pub proof fn lemma_accept_ends_in_normal_mode(pre: Application, post: Application)
    requires
        accept_spec(pre, post, Ok::<(), Error>(())),
    ensures
        post.mode == ModeKey::Normal,
{
    if pre.mode == ModeKey::Command {
        let i = pre.modes.command.list.spec_selection()->0;
        let (ran, result) = choose|ran: Application, result: Result| {
            &&& #[trigger] run_basic_spec(pre.modes.command.commands@[i as int], pre, ran, result)
            &&& match result {
                Err(e) => Ok::<(), Error>(()) == Err::<(), Error>(e) && post == ran,
                Ok(_) => Ok::<(), Error>(()) == Ok::<(), Error>(()) && post == (Application { mode: ModeKey::Normal, ..ran }),
            }
        };
    }
}

/// Stepping back in a search-select mode either stops keys from going into
/// the query, staying in the mode, or returns to normal mode.
pub proof fn lemma_step_back_outcomes(pre: Application, post: Application, r: Result)
    requires
        is_search_select(pre.mode),
        step_back_spec(pre, post, r),
    ensures
        r is Ok,
        post.mode == pre.mode && !post.list().insert || post.mode == ModeKey::Normal,
{
}

/// Key bindings are looked up in order: a new binding takes effect for a
/// key and mode that nothing bound yet, and changes nothing otherwise.
pub proof fn lemma_later_bindings_yield(bindings: Seq<KeyBinding>, binding: KeyBinding)
    ensures
        commands_in(bindings, binding.mode, binding.key) is None ==> commands_in(
            bindings.push(binding),
            binding.mode,
            binding.key,
        ) == Some(binding.commands@),
        commands_in(bindings, binding.mode, binding.key) is Some ==> commands_in(
            bindings.push(binding),
            binding.mode,
            binding.key,
        ) == commands_in(bindings, binding.mode, binding.key),
    decreases bindings.len(),
{
    if bindings.len() > 0 {
        assert(bindings.push(binding).drop_first() =~= bindings.drop_first().push(binding));
        lemma_later_bindings_yield(bindings.drop_first(), binding);
    }
}

/// Opening a path a second time changes nothing: the first opening left the
/// buffer of that path current.
pub proof fn lemma_open_buffer_twice(pre: Workspace, path: Seq<char>, mid: Workspace, post: Workspace, r: Result)
    requires
        pre.wf(),
        mid.wf(),
        Workspace::opened(pre, path, mid, Ok::<(), Error>(())),
        Workspace::opened(mid, path, post, r),
    ensures
        r == Ok::<(), Error>(()),
        post == mid,
{
    if pre.has_current_buffer() && has_path(pre.current(), path) {
    } else if exists|j: int| 0 <= j < pre.buffers@.len() && has_path(#[trigger] pre.buffers@[j], path) {
        assert(mid.has_current_buffer() && has_path(mid.current(), path));
    } else {
        let j = choose|j: int| 0 <= j < pre.files@.len() && (#[trigger] pre.files@[j]).path@ == path
            && crate::workspace::opened_file(pre.files@[j], mid.current());
        assert(mid.has_current_buffer() && has_path(mid.current(), path));
    }
}

/// Closing a buffer that was just added gives back the workspace as it
/// was: the same buffers, the same current buffer, and the rest unchanged.
pub proof fn lemma_close_undoes_add(pre: Workspace, buffer: Buffer, mid: Workspace, post: Workspace)
    requires
        pre.wf(),
        Workspace::added(pre, buffer, mid),
        Workspace::closed(mid, post),
    ensures
        post.buffers@ == pre.buffers@,
        post.current_buffer_index == pre.current_buffer_index,
        post == (Workspace { buffers: post.buffers, ..pre }),
{
    assert(post.buffers@ =~= pre.buffers@);
}

/// Looking a syntax up by name finds exactly that name: the result, when
/// there is one, is one of the known syntaxes and has the requested name,
/// and there is a result whenever a known syntax has that name.
pub proof fn lemma_find_syntax_finds_the_name(syntaxes: Seq<String>, name: Seq<char>)
    ensures
        find_syntax(syntaxes, name) matches Some(s) ==> s@ == name && syntaxes.contains(s),
        find_syntax(syntaxes, name) is Some <==> exists|i: int| 0 <= i < syntaxes.len() && (#[trigger] syntaxes[i])@ == name,
    decreases syntaxes.len(),
{
    if syntaxes.len() > 0 {
        let rest = syntaxes.drop_first();
        lemma_find_syntax_finds_the_name(rest, name);
        if syntaxes[0]@ != name {
            if find_syntax(rest, name) is Some {
                let s = find_syntax(rest, name)->0;
                let k = choose|k: int| 0 <= k < rest.len() && rest[k] == s;
                assert(syntaxes[k + 1] == s);
                let i = choose|i: int| 0 <= i < rest.len() && (#[trigger] rest[i])@ == name;
                assert(syntaxes[i + 1]@ == name);
            }
            if exists|i: int| 0 <= i < syntaxes.len() && (#[trigger] syntaxes[i])@ == name {
                let i = choose|i: int| 0 <= i < syntaxes.len() && (#[trigger] syntaxes[i])@ == name;
                assert(i > 0);
                assert(rest[i - 1]@ == name);
            }
        } else {
            assert(syntaxes[0]@ == name);
        }
    }
}

proof fn lemma_open_paths_are_the_unexcluded_files(files: Seq<FileEntry>, exclusions: Seq<Seq<char>>, n: nat, path: Seq<char>)
    requires
        n <= files.len(),
    ensures
        open_paths(files, exclusions, n).contains(path) <==> {
            &&& exists|i: int| 0 <= i < n && (#[trigger] files[i]).path@ == path
            &&& forall|j: int| 0 <= j < exclusions.len() ==> !(#[trigger] exclusions[j]).is_prefix_of(path)
        },
    decreases n,
{
    if n > 0 {
        lemma_open_paths_are_the_unexcluded_files(files, exclusions, (n - 1) as nat, path);
        let earlier = open_paths(files, exclusions, (n - 1) as nat);
        let last = files[n - 1].path@;
        if open_paths(files, exclusions, n).contains(path) {
            if !earlier.contains(path) {
                let k = choose|k: int| 0 <= k < open_paths(files, exclusions, n).len() && open_paths(files, exclusions, n)[k] == path;
                assert(open_paths(files, exclusions, n) == earlier.push(last));
                assert(k == earlier.len());
                assert(path == last);
                assert(files[n - 1].path@ == path);
            } else {
                let i = choose|i: int| 0 <= i < n - 1 && (#[trigger] files[i]).path@ == path;
                assert(files[i].path@ == path);
            }
        }
        if (exists|i: int| 0 <= i < n && (#[trigger] files[i]).path@ == path)
            && (forall|j: int| 0 <= j < exclusions.len() ==> !(#[trigger] exclusions[j]).is_prefix_of(path)) {
            let i = choose|i: int| 0 <= i < n && (#[trigger] files[i]).path@ == path;
            if i == n - 1 {
                assert(!crate::workspace::is_excluded(path, exclusions));
                assert(open_paths(files, exclusions, n) == earlier.push(last));
                assert(open_paths(files, exclusions, n)[earlier.len() as int] == path);
            } else {
                assert(files[i].path@ == path);
                let k = choose|k: int| 0 <= k < earlier.len() && earlier[k] == path;
                if !crate::workspace::is_excluded(last, exclusions) {
                    assert(open_paths(files, exclusions, n)[k] == path);
                }
            }
        }
    }
}

/// Open mode lists a path exactly when a workspace file has it and no
/// exclusion, whichever of them, is a prefix of it.
pub proof fn lemma_open_mode_leaves_out_every_exclusion(files: Seq<FileEntry>, exclusions: Seq<Seq<char>>, path: Seq<char>)
    ensures
        open_paths(files, exclusions, files.len()).contains(path) <==> {
            &&& exists|i: int| 0 <= i < files.len() && (#[trigger] files[i]).path@ == path
            &&& forall|j: int| 0 <= j < exclusions.len() ==> !(#[trigger] exclusions[j]).is_prefix_of(path)
        },
{
    lemma_open_paths_are_the_unexcluded_files(files, exclusions, files.len(), path);
}

/// Erasing a token erases exactly the trailing run of characters of the
/// last one's kind (white space, or not): what is left is a prefix of the
/// query, everything erased is of that kind, and what is left does not end
/// in that kind.
pub proof fn lemma_pop_token_erases_the_last_run(query: Seq<char>)
    requires
        query.len() > 0,
    ensures
        pop_token(query) =~= query.take(pop_token(query).len() as int),
        pop_token(query).len() < query.len(),
        forall|k: int| pop_token(query).len() <= k < query.len() ==> is_whitespace(#[trigger] query[k]) == is_whitespace(query.last()),
        pop_token(query).len() > 0 ==> is_whitespace(pop_token(query).last()) != is_whitespace(query.last()),
    decreases query.len(),
{
    if query.len() > 1 {
        let shorter = query.drop_last();
        if is_whitespace(query.last()) == is_whitespace(query[query.len() - 2]) {
            lemma_pop_token_erases_the_last_run(shorter);
            assert(shorter.last() == query[query.len() - 2]);
            let r = pop_token(shorter);
            assert forall|k: int| r.len() <= k < query.len() implies is_whitespace(#[trigger] query[k]) == is_whitespace(query.last()) by {
                if k < query.len() - 1 {
                    assert(shorter[k] == query[k]);
                }
            }
            if r.len() > 0 {
                assert(r.last() == query[r.len() - 1]);
            }
        } else {
            assert(query.drop_last().last() == query[query.len() - 2]);
        }
    }
}

/// Stepping back in a search-select mode whose last search found nothing,
/// or whose query is empty, returns to normal mode; when a query found
/// results, the mode stays and keys stop going into the query.
pub proof fn lemma_step_back_without_results_leaves_the_mode(pre: Application, post: Application, r: Result)
    requires
        is_search_select(pre.mode),
        step_back_spec(pre, post, r),
    ensures
        r is Ok,
        pre.list().results@.len() == 0 || pre.list().input@.len() == 0 ==> post.mode == ModeKey::Normal,
        pre.list().results@.len() > 0 && pre.list().input@.len() > 0 ==> post.mode == pre.mode && !post.list().insert,
{
}

/// A theme's own colors are the ones used: where the theme sets its text,
/// background or focused-line color, the combinations drawn with them
/// (default, focused, inverted, and custom foregrounds on the default or
/// focused background) come out in that color, whatever the transparency.
pub proof fn lemma_theme_colors_are_used(theme: Theme, transparent_background: bool, custom: RGBColor)
    ensures
        theme.settings.line_highlight matches Some(c) ==> {
            &&& spec_map_colors(theme, Colors::Focused, transparent_background) matches Colors::Custom(_, bg)
                && bg == RGBColor(c.r, c.g, c.b)
            &&& spec_map_colors(theme, Colors::CustomFocusedForeground(custom), transparent_background)
                == Colors::Custom(custom, RGBColor(c.r, c.g, c.b))
        },
        theme.settings.foreground matches Some(c) ==> {
            &&& spec_map_colors(theme, Colors::Focused, transparent_background) matches Colors::Custom(fg, _)
                && fg == RGBColor(c.r, c.g, c.b)
            &&& spec_map_colors(theme, Colors::Inverted, transparent_background) matches Colors::Custom(_, bg)
                && bg == RGBColor(c.r, c.g, c.b)
            &&& spec_map_colors(theme, Colors::Default, false) matches Colors::Custom(fg, _)
                && fg == RGBColor(c.r, c.g, c.b)
        },
        theme.settings.background matches Some(c) ==> {
            &&& spec_map_colors(theme, Colors::Inverted, transparent_background) matches Colors::Custom(fg, _)
                && fg == RGBColor(c.r, c.g, c.b)
            &&& spec_map_colors(theme, Colors::Default, false) matches Colors::Custom(_, bg)
                && bg == RGBColor(c.r, c.g, c.b)
            &&& spec_map_colors(theme, Colors::CustomForeground(custom), false) == Colors::Custom(custom, RGBColor(c.r, c.g, c.b))
        },
        spec_map_colors(theme, Colors::Focused, transparent_background)
            == spec_map_colors(theme, Colors::CustomFocusedForeground(crate::view::color::spec_theme_foreground(theme)), transparent_background),
{
}

} // verus!

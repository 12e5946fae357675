//! The state that each editor mode keeps while the editor is in another mode.
use vstd::prelude::*;
use vstd::string::*;
use crate::buffer::Position;
use crate::commands::Command;

verus! {

/// Unicode's `White_Space` property, which `char::is_whitespace` documents
/// that it follows.
pub open spec fn is_whitespace(c: char) -> bool {
    let v = c as u32;
    ||| 0x9 <= v <= 0xd
    ||| v == 0x20
    ||| v == 0x85
    ||| v == 0xa0
    ||| v == 0x1680
    ||| 0x2000 <= v <= 0x200a
    ||| v == 0x2028
    ||| v == 0x2029
    ||| v == 0x202f
    ||| v == 0x205f
    ||| v == 0x3000
}

/// Whether `c` is white space.
pub fn char_is_whitespace(c: char) -> (ws: bool)
    ensures
        ws == is_whitespace(c),
{
    let v = c as u32;
    (0x9 <= v && v <= 0xd) || v == 0x20 || v == 0x85 || v == 0xa0 || v == 0x1680 || (0x2000 <= v
        && v <= 0x200a) || v == 0x2028 || v == 0x2029 || v == 0x202f || v == 0x205f || v == 0x3000
}

/// Whether `text` matches the search `query`: the query's characters, white
/// space aside, appear in `text` in the same order.
pub open spec fn fuzzy_match(query: Seq<char>, text: Seq<char>) -> bool
    decreases query.len() + text.len(),
{
    if query.len() == 0 {
        true
    } else if is_whitespace(query[0]) {
        fuzzy_match(query.drop_first(), text)
    } else if text.len() == 0 {
        false
    } else if query[0] == text[0] {
        fuzzy_match(query.drop_first(), text.drop_first())
    } else {
        fuzzy_match(query, text.drop_first())
    }
}

/// The indices, in order, of the first `n` candidates that match `query`.
pub open spec fn matching_indices(candidates: Seq<Seq<char>>, query: Seq<char>, n: nat) -> Seq<usize>
    decreases n,
{
    if n == 0 {
        Seq::empty()
    } else {
        let earlier = matching_indices(candidates, query, (n - 1) as nat);
        if fuzzy_match(query, candidates[n - 1]) {
            earlier.push((n - 1) as usize)
        } else {
            earlier
        }
    }
}

/// The smaller of two integers.
pub open spec fn min(a: int, b: int) -> int {
    if a <= b { a } else { b }
}

/// What a search finds: the candidates that match the query, in their own
/// order, as many as `max_results` allows.
pub open spec fn search_results(candidates: Seq<Seq<char>>, query: Seq<char>, max_results: usize) -> Seq<usize> {
    let all = matching_indices(candidates, query, candidates.len());
    all.take(min(all.len() as int, max_results as int))
}

/// The query without its last token: the trailing run of white space, or of
/// other characters, is erased.
pub open spec fn pop_token(query: Seq<char>) -> Seq<char>
    decreases query.len(),
{
    if query.len() <= 1 {
        Seq::empty()
    } else if is_whitespace(query.last()) == is_whitespace(query[query.len() - 2]) {
        pop_token(query.drop_last())
    } else {
        query.drop_last()
    }
}

proof fn lemma_matching_indices_bounded(candidates: Seq<Seq<char>>, query: Seq<char>, n: nat)
    ensures
        matching_indices(candidates, query, n).len() <= n,
        forall|k: int|
            0 <= k < matching_indices(candidates, query, n).len() ==> #[trigger] matching_indices(
                candidates,
                query,
                n,
            )[k] < n,
    decreases n,
{
    if n > 0 {
        lemma_matching_indices_bounded(candidates, query, (n - 1) as nat);
    }
}

/// Whether `text` matches the search `query`.
fn fuzzy_match_from(query: &Vec<char>, text: &str) -> (found: bool)
    ensures
        found == fuzzy_match(query@, text@),
{
    let query_len = query.len();
    let text_len = text.unicode_len();
    let mut i: usize = 0;
    let mut j: usize = 0;
    assert(query@.skip(0) =~= query@);
    assert(text@.skip(0) =~= text@);
    while i < query_len
        invariant
            query_len == query@.len(),
            text_len == text@.len(),
            i <= query_len,
            j <= text_len,
            fuzzy_match(query@, text@) == fuzzy_match(query@.skip(i as int), text@.skip(j as int)),
        decreases query_len - i + text_len - j,
    {
        let q = query[i];
        assert(query@.skip(i as int)[0] == q);
        assert(query@.skip(i as int).drop_first() =~= query@.skip(i + 1));
        if char_is_whitespace(q) {
            i += 1;
        } else if j == text_len {
            assert(text@.skip(j as int).len() == 0);
            return false;
        } else {
            let t = text.get_char(j);
            assert(text@.skip(j as int)[0] == t);
            assert(text@.skip(j as int).drop_first() =~= text@.skip(j + 1));
            if q == t {
                i += 1;
                j += 1;
            } else {
                j += 1;
            }
        }
    }
    assert(query@.skip(i as int).len() == 0);
    true
}

/// The options of the search-select modes.
#[derive(Clone, Copy, Debug, PartialEq, Eq, Structural)]
pub struct SearchSelectConfig {
    pub max_results: usize,
}

/// The shared state of the search-select modes: a query typed by the user,
/// whether keys go into it, the candidates to choose from, the candidates
/// the last search found (as indices into the candidates), the selected
/// one among them, and the candidates marked for selection besides it (as
/// indices, in the order they were marked).
#[derive(Debug)]
pub struct SearchSelect {
    pub input: Vec<char>,
    pub insert: bool,
    pub candidates: Vec<String>,
    pub results: Vec<usize>,
    pub selected_index: usize,
    pub config: SearchSelectConfig,
    pub marked: Vec<usize>,
}

impl SearchSelect {
    /// Results and marks point at candidates, no candidate is marked twice,
    /// and the selection points at a result (or is zero when there are no
    /// results).
    pub open spec fn wf(&self) -> bool {
        &&& forall|k: int| 0 <= k < self.results@.len() ==> #[trigger] self.results@[k] < self.candidates@.len()
        &&& (self.selected_index == 0 || self.selected_index < self.results@.len())
        &&& forall|k: int| 0 <= k < self.marked@.len() ==> #[trigger] self.marked@[k] < self.candidates@.len()
        &&& forall|k: int, l: int| 0 <= k < l < self.marked@.len() ==> #[trigger] self.marked@[k] != #[trigger] self.marked@[l]
    }

    /// The texts of the candidates.
    pub open spec fn candidate_texts(&self) -> Seq<Seq<char>> {
        self.candidates.deep_view()
    }

    /// The index, among the candidates, of the selected result.
    pub open spec fn spec_selection(&self) -> Option<usize> {
        if self.selected_index < self.results@.len() {
            Some(self.results@[self.selected_index as int])
        } else {
            None
        }
    }

    /// An empty search: no query, keys going into it, nothing to choose from.
    pub fn new(config: SearchSelectConfig) -> (list: SearchSelect)
        ensures
            list.wf(),
            list.input@.len() == 0,
            list.insert,
            list.candidates@.len() == 0,
            list.results@.len() == 0,
            list.selected_index == 0,
            list.config == config,
            list.marked@.len() == 0,
    {
        SearchSelect {
            input: Vec::new(),
            insert: true,
            candidates: Vec::new(),
            results: Vec::new(),
            selected_index: 0,
            config,
            marked: Vec::new(),
        }
    }

    /// What a reset leaves: new candidates and options, an empty query that
    /// keys go into, no results and no marks.
    pub open spec fn was_reset(post: SearchSelect, candidates: Seq<Seq<char>>, config: SearchSelectConfig) -> bool {
        &&& post.input@ == Seq::<char>::empty()
        &&& post.insert
        &&& post.candidate_texts() == candidates
        &&& post.results@.len() == 0
        &&& post.selected_index == 0
        &&& post.config == config
        &&& post.marked@.len() == 0
    }

    /// Starts over with new candidates and options.
    pub fn reset(&mut self, candidates: Vec<String>, config: SearchSelectConfig)
        ensures
            final(self).wf(),
            SearchSelect::was_reset(*final(self), candidates.deep_view(), config),
            final(self).candidates == candidates,
    {
        self.input = Vec::new();
        assert(self.input@ =~= Seq::<char>::empty());
        self.insert = true;
        self.candidates = candidates;
        self.results = Vec::new();
        self.selected_index = 0;
        self.config = config;
        self.marked = Vec::new();
    }

    /// What a search leaves: the results for the current query, the first
    /// of them selected.
    pub open spec fn searched(pre: SearchSelect, post: SearchSelect) -> bool {
        &&& post.results@ == search_results(pre.candidate_texts(), pre.input@, pre.config.max_results)
        &&& post == (SearchSelect { results: post.results, selected_index: 0, ..pre })
    }

    /// The state after moving the selection one result down, where there is
    /// a result below.
    pub open spec fn next_selected(self) -> SearchSelect {
        SearchSelect {
            selected_index: if self.selected_index + 1 < self.results@.len() {
                (self.selected_index + 1) as usize
            } else {
                self.selected_index
            },
            ..self
        }
    }

    /// The state after moving the selection one result up, where there is
    /// a result above.
    pub open spec fn previous_selected(self) -> SearchSelect {
        SearchSelect {
            selected_index: if self.selected_index > 0 {
                (self.selected_index - 1) as usize
            } else {
                0
            },
            ..self
        }
    }

    /// The state with keys going into the query, or not.
    pub open spec fn with_insert(self, insert: bool) -> SearchSelect {
        SearchSelect { insert, ..self }
    }

    /// What typing `c` does: it is appended to the query.
    pub open spec fn pushed(pre: SearchSelect, post: SearchSelect, c: char) -> bool {
        &&& post.input@ == pre.input@.push(c)
        &&& post == (SearchSelect { input: post.input, ..pre })
    }

    /// What erasing a token does: the query loses its last token.
    pub open spec fn popped(pre: SearchSelect, post: SearchSelect) -> bool {
        &&& post.input@ == pop_token(pre.input@)
        &&& post == (SearchSelect { input: post.input, ..pre })
    }

    /// What a reset followed by a search leaves: an empty query that keys go
    /// into, the given candidates and options, the results of searching for
    /// nothing, the first selected, and no marks.
    pub open spec fn fresh(list: SearchSelect, candidates: Seq<Seq<char>>, config: SearchSelectConfig) -> bool {
        &&& list.marked@.len() == 0
        &&& list.input@ == Seq::<char>::empty()
        &&& list.insert
        &&& list.candidate_texts() == candidates
        &&& list.config == config
        &&& list.selected_index == 0
        &&& list.results@ == search_results(candidates, Seq::empty(), config.max_results)
    }

    /// Looks the query up among the candidates.
    pub fn search(&mut self)
        requires
            old(self).wf(),
        ensures
            final(self).wf(),
            SearchSelect::searched(*old(self), *final(self)),
    {
        let ghost texts = self.candidate_texts();
        let max = self.config.max_results;
        let mut results: Vec<usize> = Vec::new();
        let count = self.candidates.len();
        for j in 0..count
            invariant
                count == self.candidates@.len(),
                texts == self.candidate_texts(),
                texts.len() == count,
                results@ == matching_indices(texts, self.input@, j as nat).take(
                    min(matching_indices(texts, self.input@, j as nat).len() as int, max as int),
                ),
        {
            let ghost earlier = matching_indices(texts, self.input@, j as nat);
            proof {
                lemma_matching_indices_bounded(texts, self.input@, j as nat);
            }
            assert(texts[j as int] == self.candidates@[j as int]@);
            let found = fuzzy_match_from(&self.input, self.candidates[j].as_str());
            if found && results.len() < max {
                results.push(j);
                assert(results@ =~= earlier.push(j).take(min(earlier.push(j).len() as int, max as int)));
            } else if found {
                assert(results@ =~= earlier.push(j).take(min(earlier.push(j).len() as int, max as int)));
            }
        }
        proof {
            lemma_matching_indices_bounded(texts, self.input@, count as nat);
        }
        self.results = results;
        self.selected_index = 0;
    }

    /// Moves the selection one result down, staying on the last one.
    pub fn select_next(&mut self)
        requires
            old(self).wf(),
        ensures
            final(self).wf(),
            *final(self) == old(self).next_selected(),
    {
        if self.selected_index < self.results.len() && self.selected_index + 1 < self.results.len() {
            self.selected_index = self.selected_index + 1;
        }
    }

    /// Moves the selection one result up, staying on the first one.
    pub fn select_previous(&mut self)
        requires
            old(self).wf(),
        ensures
            final(self).wf(),
            *final(self) == old(self).previous_selected(),
    {
        if self.selected_index > 0 {
            self.selected_index = self.selected_index - 1;
        }
    }

    /// Sets whether keys go into the query.
    pub fn set_insert_mode(&mut self, insert: bool)
        requires
            old(self).wf(),
        ensures
            final(self).wf(),
            *final(self) == old(self).with_insert(insert),
    {
        self.insert = insert;
    }

    /// Appends a character to the query.
    pub fn push_search_char(&mut self, c: char)
        requires
            old(self).wf(),
        ensures
            final(self).wf(),
            SearchSelect::pushed(*old(self), *final(self), c),
    {
        self.input.push(c);
    }

    /// Erases the last token of the query.
    pub fn pop_search_token(&mut self)
        requires
            old(self).wf(),
        ensures
            final(self).wf(),
            SearchSelect::popped(*old(self), *final(self)),
    {
        let len = self.input.len();
        let mut boundary: usize = len;
        // Walk back over the trailing run of characters of the last one's kind.
        if len > 0 {
            boundary = len - 1;
            assert(self.input@.take(len as int) =~= self.input@);
            let last_ws = char_is_whitespace(self.input[len - 1]);
            while boundary > 0 && char_is_whitespace(self.input[boundary - 1]) == last_ws
                invariant
                    len == self.input@.len(),
                    len > 0,
                    boundary < len,
                    last_ws == is_whitespace(self.input@[len - 1]),
                    pop_token(self.input@) == pop_token(self.input@.take(boundary as int + 1)),
                    forall|k: int| boundary <= k < len ==> is_whitespace(#[trigger] self.input@[k]) == last_ws,
                decreases boundary,
            {
                let ghost prefix = self.input@.take(boundary as int + 1);
                assert(prefix.drop_last() =~= self.input@.take(boundary as int));
                assert(prefix.last() == self.input@[boundary as int]);
                assert(prefix[prefix.len() - 2] == self.input@[boundary - 1]);
                boundary = boundary - 1;
            }
            let ghost prefix = self.input@.take(boundary as int + 1);
            if boundary > 0 {
                assert(prefix.drop_last() =~= self.input@.take(boundary as int));
                assert(prefix[prefix.len() - 2] == self.input@[boundary - 1]);
            }
        }
        self.input.truncate(boundary);
        assert(len == 0 ==> self.input@ =~= pop_token(old(self).input@));
        assert(len > 0 ==> self.input@ =~= old(self).input@.take(boundary as int));
        assert(self.input@ == pop_token(old(self).input@));
    }

    /// The index, among the candidates, of the selected result.
    pub fn selection(&self) -> (index: Option<usize>)
        requires
            self.wf(),
        ensures
            index == self.spec_selection(),
            index matches Some(i) ==> i < self.candidates@.len(),
    {
        if self.selected_index < self.results.len() {
            Some(self.results[self.selected_index])
        } else {
            None
        }
    }

    /// The text of the selected result.
    pub fn selected_text(&self) -> (text: Option<String>)
        requires
            self.wf(),
        ensures
            match self.spec_selection() {
                Some(i) => text matches Some(t) && t == self.candidates@[i as int],
                None => text is None,
            },
    {
        match self.selection() {
            Some(i) => Some(self.candidates[i].clone()),
            None => None,
        }
    }

    /// What marking does: the selected candidate, if there is one, is
    /// marked at the end of the marks, or unmarked where it was marked.
    pub open spec fn mark_toggled(pre: SearchSelect, post: SearchSelect) -> bool {
        &&& post == (SearchSelect { marked: post.marked, ..pre })
        &&& match pre.spec_selection() {
            None => post.marked@ == pre.marked@,
            Some(i) => if pre.marked@.contains(i) {
                exists|k: int| 0 <= k < pre.marked@.len() && pre.marked@[k] == i && post.marked@ == pre.marked@.remove(k)
            } else {
                post.marked@ == pre.marked@.push(i)
            },
        }
    }

    /// Marks the selected candidate, or unmarks it if it is marked.
    pub fn toggle_mark(&mut self)
        requires
            old(self).wf(),
        ensures
            final(self).wf(),
            SearchSelect::mark_toggled(*old(self), *final(self)),
    {
        let i = match self.selection() {
            Some(i) => i,
            None => return,
        };
        let mut k: usize = 0;
        while k < self.marked.len()
            invariant
                *self == *old(self),
                old(self).wf(),
                old(self).spec_selection() == Some(i),
                i < old(self).candidates@.len(),
                k <= self.marked@.len(),
                forall|m: int| 0 <= m < k ==> self.marked@[m] != i,
            decreases self.marked@.len() - k,
        {
            if self.marked[k] == i {
                self.marked.remove(k);
                assert(self.marked@ == old(self).marked@.remove(k as int));
                assert forall|a: int, b: int| 0 <= a < b < self.marked@.len() implies #[trigger] self.marked@[a] != #[trigger] self.marked@[b] by {
                    let a0 = if a < k { a } else { a + 1 };
                    let b0 = if b < k { b } else { b + 1 };
                    assert(self.marked@[a] == old(self).marked@[a0]);
                    assert(self.marked@[b] == old(self).marked@[b0]);
                }
                assert forall|a: int| 0 <= a < self.marked@.len() implies #[trigger] self.marked@[a] < self.candidates@.len() by {
                    let a0 = if a < k { a } else { a + 1 };
                    assert(self.marked@[a] == old(self).marked@[a0]);
                }
                assert(old(self).marked@.contains(i));
                return;
            }
            k += 1;
        }
        assert(!old(self).marked@.contains(i));
        self.marked.push(i);
        assert forall|a: int, b: int| 0 <= a < b < self.marked@.len() implies #[trigger] self.marked@[a] != #[trigger] self.marked@[b] by {
            if b == self.marked@.len() - 1 {
                assert(old(self).marked@[a] != i);
            }
        }
    }

    /// The texts of the marked candidates, in the order they were marked.
    pub open spec fn marked_texts(self) -> Seq<Seq<char>> {
        self.marked@.map_values(|i: usize| self.candidates@[i as int]@)
    }

    /// The texts of everything selected: the marked candidates, in the order
    /// they were marked, then the selected result unless it is marked.
    pub open spec fn selected_texts(self) -> Seq<Seq<char>> {
        match self.spec_selection() {
            Some(i) => if self.marked@.contains(i) {
                self.marked_texts()
            } else {
                self.marked_texts().push(self.candidates@[i as int]@)
            },
            None => self.marked_texts(),
        }
    }

    /// The texts of everything selected: the marked candidates, in the order
    /// they were marked, then the selected result unless it is marked.
    pub fn selections(&self) -> (texts: Vec<String>)
        requires
            self.wf(),
        ensures
            texts.deep_view() == self.selected_texts(),
    {
        let mut texts: Vec<String> = Vec::new();
        let mut selected_is_marked = false;
        let selection = self.selection();
        for k in 0..self.marked.len()
            invariant
                self.wf(),
                selection == self.spec_selection(),
                texts.deep_view() == self.marked_texts().take(k as int),
                selected_is_marked <==> (selection matches Some(i) && exists|m: int| 0 <= m < k && self.marked@[m] == i),
        {
            let index = self.marked[k];
            let ghost before = texts.deep_view();
            texts.push(self.candidates[index].clone());
            assert(texts.deep_view() =~= before.push(self.candidates@[index as int]@));
            assert(self.marked_texts().take(k + 1) =~= self.marked_texts().take(k as int).push(self.marked_texts()[k as int]));
            if let Some(i) = selection {
                if index == i {
                    selected_is_marked = true;
                }
            }
        }
        assert(self.marked_texts().take(self.marked@.len() as int) =~= self.marked_texts());
        if let Some(i) = selection {
            if selected_is_marked {
                proof {
                    let m = choose|m: int| 0 <= m < self.marked@.len() && self.marked@[m] == i;
                    assert(self.marked@.contains(i));
                }
            } else {
                let ghost before = texts.deep_view();
                texts.push(self.candidates[i].clone());
                assert(texts.deep_view() =~= before.push(self.candidates@[i as int]@));
            }
        }
        texts
    }

    /// Whether a result can be selected: the last search found something for
    /// a query that is not empty.
    pub open spec fn spec_selection_available(&self) -> bool {
        self.results@.len() > 0 && self.input@.len() > 0
    }

    pub fn selection_available(&self) -> (available: bool)
        ensures
            available == self.spec_selection_available(),
    {
        self.results.len() > 0 && self.input.len() > 0
    }
}

/// Jump mode: labels are shown over the words of the buffer.
#[derive(Debug)]
pub struct JumpMode {
    pub input: Vec<char>,
    pub first_phase: bool,
    pub cursor_line: usize,
}

/// Line jump mode: the user types a line number.
#[derive(Debug)]
pub struct LineJumpMode {
    pub input: Vec<char>,
}

/// Select mode: a selection runs from the anchor to the cursor.
#[derive(Clone, Copy, Debug, PartialEq, Eq, Structural)]
pub struct SelectMode {
    pub anchor: Position,
}

/// Select line mode: a selection runs from the anchor line to the cursor's.
#[derive(Clone, Copy, Debug, PartialEq, Eq, Structural)]
pub struct SelectLineMode {
    pub anchor: usize,
}

/// Path mode: the user edits the path of the current buffer.
#[derive(Debug)]
pub struct PathMode {
    pub input: String,
}

/// Search mode: the user searches the current buffer.
#[derive(Clone, Copy, Debug, PartialEq, Eq, Structural)]
pub struct SearchMode {
    pub insert: bool,
}

/// Command mode: the user picks a command by name.
#[derive(Debug)]
pub struct CommandMode {
    pub list: SearchSelect,
    pub commands: Vec<Command>,
}

/// Symbol jump mode: the user picks a symbol of the current buffer.
#[derive(Debug)]
pub struct SymbolJumpMode {
    pub list: SearchSelect,
    pub positions: Vec<Position>,
}

impl CommandMode {
    /// Each candidate names the command at the same index.
    pub open spec fn wf(&self) -> bool {
        &&& self.list.wf()
        &&& self.commands@.len() == self.list.candidates@.len()
    }
}

impl SymbolJumpMode {
    /// Each candidate names the symbol at the position of the same index.
    pub open spec fn wf(&self) -> bool {
        &&& self.list.wf()
        &&& self.positions@.len() == self.list.candidates@.len()
    }
}

} // verus!

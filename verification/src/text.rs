//! Ordering and joining of names.
use vstd::prelude::*;
use vstd::string::*;

verus! {

broadcast use vstd::seq_lib::group_seq_properties;

/// Lexicographic order on texts, by code point; it is the order of Rust's
/// `str`, since UTF-8 keeps the order of code points.
pub open spec fn lex_le(a: Seq<char>, b: Seq<char>) -> bool
    decreases a.len(),
{
    if a.len() == 0 {
        true
    } else if b.len() == 0 {
        false
    } else if (a[0] as u32) < (b[0] as u32) {
        true
    } else if (a[0] as u32) > (b[0] as u32) {
        false
    } else {
        lex_le(a.drop_first(), b.drop_first())
    }
}

/// Whether the texts are in lexicographic order.
pub open spec fn is_sorted(s: Seq<Seq<char>>) -> bool {
    forall|i: int, j: int| 0 <= i < j < s.len() ==> lex_le(#[trigger] s[i], #[trigger] s[j])
}

/// Whether the texts are in lexicographic order with none of them twice.
pub open spec fn is_strictly_sorted(s: Seq<Seq<char>>) -> bool {
    forall|i: int, j: int| 0 <= i < j < s.len() ==> lex_le(#[trigger] s[i], #[trigger] s[j]) && s[i] != s[j]
}

/// The texts of the given strings.
pub open spec fn texts(s: Seq<&str>) -> Seq<Seq<char>> {
    s.map_values(|t: &str| t@)
}

pub proof fn lemma_lex_le_total(a: Seq<char>, b: Seq<char>)
    ensures
        lex_le(a, b) || lex_le(b, a),
    decreases a.len(),
{
    if a.len() > 0 && b.len() > 0 && (a[0] as u32) == (b[0] as u32) {
        lemma_lex_le_total(a.drop_first(), b.drop_first());
    }
}

pub proof fn lemma_lex_le_transitive(a: Seq<char>, b: Seq<char>, c: Seq<char>)
    requires
        lex_le(a, b),
        lex_le(b, c),
    ensures
        lex_le(a, c),
    decreases a.len(),
{
    if a.len() > 0 && b.len() > 0 && c.len() > 0 && (a[0] as u32) == (b[0] as u32) && (b[0] as u32)
        == (c[0] as u32) {
        lemma_lex_le_transitive(a.drop_first(), b.drop_first(), c.drop_first());
    }
}

/// Whether `a` comes before `b`, or equals it, in lexicographic order.
pub fn str_le(a: &str, b: &str) -> (le: bool)
    ensures
        le == lex_le(a@, b@),
{
    let a_len = a.unicode_len();
    let b_len = b.unicode_len();
    let mut i: usize = 0;
    assert(a@.skip(0) =~= a@);
    assert(b@.skip(0) =~= b@);
    while i < a_len
        invariant
            a_len == a@.len(),
            b_len == b@.len(),
            i <= a_len,
            i <= b_len,
            lex_le(a@, b@) == lex_le(a@.skip(i as int), b@.skip(i as int)),
        decreases a_len - i,
    {
        if i == b_len {
            return false;
        }
        let x = a.get_char(i);
        let y = b.get_char(i);
        assert(a@.skip(i as int)[0] == x);
        assert(b@.skip(i as int)[0] == y);
        if (x as u32) < (y as u32) {
            return true;
        }
        if (x as u32) > (y as u32) {
            return false;
        }
        assert(a@.skip(i as int).drop_first() =~= a@.skip(i + 1));
        assert(b@.skip(i as int).drop_first() =~= b@.skip(i + 1));
        i += 1;
    }
    true
}

proof fn lemma_insert_multiset<A>(s: Seq<A>, k: int, x: A)
    requires
        0 <= k <= s.len(),
    ensures
        s.insert(k, x).to_multiset() =~= s.to_multiset().insert(x),
{
    broadcast use vstd::multiset::group_multiset_axioms;

    let t = s.insert(k, x);
    assert(t.remove(k) =~= s);
    t.to_multiset_ensures();
    assert(t.to_multiset().remove(x) =~= s.to_multiset());
    assert(t.to_multiset().count(x) > 0) by {
        assert(t[k] == x);
        assert(t.contains(x));
    }
}

/// The names in lexicographic order.
pub fn sort_names(names: &Vec<&'static str>) -> (sorted: Vec<&'static str>)
    ensures
        sorted@.len() == names@.len(),
        is_sorted(texts(sorted@)),
        texts(sorted@).to_multiset() == texts(names@).to_multiset(),
{
    let mut sorted: Vec<&'static str> = Vec::new();
    for i in 0..names.len()
        invariant
            sorted@.len() == i,
            is_sorted(texts(sorted@)),
            texts(sorted@).to_multiset() == texts(names@.take(i as int)).to_multiset(),
    {
        let name = names[i];
        // Find where the name goes: before the first name that comes after it.
        let mut k: usize = 0;
        while k < sorted.len() && str_le(sorted[k], name)
            invariant
                k <= sorted@.len(),
                forall|j: int| 0 <= j < k ==> lex_le(#[trigger] texts(sorted@)[j], name@),
            decreases sorted@.len() - k,
        {
            k += 1;
        }
        let ghost before = sorted@;
        sorted.insert(k, name);
        proof {
            assert(texts(sorted@) =~= texts(before).insert(k as int, name@));
            assert forall|a: int, b: int| 0 <= a < b < texts(sorted@).len() implies lex_le(
                #[trigger] texts(sorted@)[a],
                #[trigger] texts(sorted@)[b],
            ) by {
                let s = texts(sorted@);
                let t = texts(before);
                if a < k && b == k {
                } else if a == k && b > k {
                    // The name goes before the name that was at k, which comes after it.
                    lemma_lex_le_total(name@, t[k as int]);
                    if b > k + 1 {
                        lemma_lex_le_transitive(name@, t[k as int], t[b - 1]);
                    }
                } else if a < k && b > k {
                } else {
                }
            }
            lemma_insert_multiset(texts(before), k as int, name@);
            assert(texts(names@.take(i + 1)) =~= texts(names@.take(i as int)).push(name@));
            texts(names@.take(i as int)).to_multiset_ensures();
        }
    }
    assert(names@.take(names@.len() as int) =~= names@);
    sorted
}

/// The texts, each followed by a line break.
pub open spec fn join_lines(lines: Seq<Seq<char>>) -> Seq<char>
    decreases lines.len(),
{
    if lines.len() == 0 {
        Seq::empty()
    } else {
        lines[0] + seq!['\n'] + join_lines(lines.drop_first())
    }
}

/// A text followed by a line break.
pub fn line_of(text: &str) -> (line: String)
    ensures
        line@ == text@ + seq!['\n'],
{
    let mut line = String::from_str(text);
    proof {
        reveal_strlit("\n");
    }
    line.append("\n");
    line
}


/// The line that runs from `start` up to the line break at `end`, without
/// the carriage return that may come before the break.
pub open spec fn line_before(text: Seq<char>, start: int, end: int) -> Seq<char> {
    if end > start && text[end - 1] == '\r' {
        text.subrange(start, end - 1)
    } else {
        text.subrange(start, end)
    }
}

/// The lines of `text` from the line that starts at `start`, scanning from
/// `i` on: lines end at a line feed (after which a carriage return is
/// dropped too), and the last line needs none. An empty last line is none.
pub open spec fn lines_from(text: Seq<char>, start: int, i: int) -> Seq<Seq<char>>
    recommends
        0 <= start <= i <= text.len(),
    decreases text.len() - i,
{
    if i >= text.len() {
        if start < text.len() {
            seq![text.subrange(start, text.len() as int)]
        } else {
            Seq::empty()
        }
    } else if text[i] == '\n' {
        seq![line_before(text, start, i)] + lines_from(text, i + 1, i + 1)
    } else {
        lines_from(text, start, i + 1)
    }
}

/// The lines of a text, as `str::lines` gives them.
pub open spec fn lines(text: Seq<char>) -> Seq<Seq<char>> {
    lines_from(text, 0, 0)
}

/// The lines of `text`, as `str::lines` gives them.
pub fn split_lines(text: &str) -> (result: Vec<String>)
    ensures
        result.deep_view() == lines(text@),
{
    let len = text.unicode_len();
    let mut result: Vec<String> = Vec::new();
    let mut start: usize = 0;
    let mut i: usize = 0;
    while i < len
        invariant
            len == text@.len(),
            start <= i <= len,
            result.deep_view() + lines_from(text@, start as int, i as int) == lines(text@),
        decreases len - i,
    {
        if text.get_char(i) == '\n' {
            let mut end = i;
            if end > start && text.get_char(end - 1) == '\r' {
                end = end - 1;
            }
            let line = String::from_str(text.substring_char(start, end));
            let ghost before = result.deep_view();
            result.push(line);
            assert(result.deep_view() =~= before.push(line_before(text@, start as int, i as int)));
            assert(before + lines_from(text@, start as int, i as int) =~= result.deep_view() + lines_from(
                text@,
                i + 1,
                i + 1,
            ));
            start = i + 1;
        }
        i += 1;
    }
    if start < len {
        let line = String::from_str(text.substring_char(start, len));
        let ghost before = result.deep_view();
        result.push(line);
        assert(result.deep_view() =~= before + lines_from(text@, start as int, len as int));
    } else {
        assert(result.deep_view() =~= result.deep_view() + lines_from(text@, start as int, len as int));
    }
    result
}

} // verus!

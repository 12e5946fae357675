//! The tokens of a buffer's text, as syntax highlighting splits it, and the
//! symbols (the names of functions where they are defined) among them.
use vstd::prelude::*;
use vstd::string::*;
use scribe::buffer::{Token, TokenSet};
use syntect::parsing::SyntaxSet;
use crate::buffer::Position;
use crate::workspace::starts_with;

verus! {

/// The tokens that `scribe`'s `TokenSet` yields for `data`, highlighted with
/// the syntax called `syntax` among `syntect`'s default syntaxes: for each
/// lexeme its text, the names of its scopes (outermost first), its line and
/// its offset; for each line break, nothing. There are no tokens when no
/// syntax has that name, or when the first line cannot be parsed.
pub uninterp spec fn syntax_tokens(data: Seq<char>, syntax: Seq<char>) -> Option<Seq<Option<(Seq<char>, Seq<Seq<char>>, usize, usize)>>>;

/// Calls `scribe::buffer::TokenSet::iter` on a token set made
/// (`TokenSet::new`) from `data` and the syntax called `syntax` in
/// `syntect`'s default syntax set (`SyntaxSet::load_defaults_newlines`,
/// `SyntaxSet::find_syntax_by_name`), and hands each token back as plain
/// values. The contract only names the result: what the tokens are is the
/// work of `syntect`'s parser, which nothing here states.
#[verifier::external_body]
fn tokenize(data: &str, syntax: &str) -> (tokens: Option<Vec<Option<(String, Vec<String>, usize, usize)>>>)
    ensures
        tokens.deep_view() == syntax_tokens(data@, syntax@),
{
    let syntaxes = SyntaxSet::load_defaults_newlines();
    let definition = syntaxes.find_syntax_by_name(syntax)?;
    let token_set = TokenSet::new(data.to_string(), definition, &syntaxes);
    let mut tokens = Vec::new();
    for token in token_set.iter().ok()? {
        tokens.push(match token {
            Token::Lexeme(l) => Some((l.value.to_string(), l.scope.as_slice().iter().map(|s| s.build_string()).collect(), l.position.line, l.position.offset)),
            Token::Newline => None,
        });
    }
    Some(tokens)
}

/// The scope that marks the name of a function where it is defined.
pub open spec fn symbol_scope() -> Seq<char> {
    "entity.name.function"@
}

/// Whether `scope` is the symbol scope or one below it (such as
/// `entity.name.function.rust`).
pub open spec fn is_symbol_scope(scope: Seq<char>) -> bool {
    &&& symbol_scope().is_prefix_of(scope)
    &&& (scope.len() == symbol_scope().len() || scope[symbol_scope().len() as int] == '.')
}

/// Whether one of `scopes` is a symbol scope.
pub open spec fn has_symbol_scope(scopes: Seq<Seq<char>>) -> bool {
    exists|k: int| 0 <= k < scopes.len() && is_symbol_scope(#[trigger] scopes[k])
}

/// The symbol that a token gives: a lexeme in one of the symbol scopes gives
/// its text at its position.
pub open spec fn token_symbol(token: Option<(Seq<char>, Seq<Seq<char>>, usize, usize)>) -> Option<(Seq<char>, Position)> {
    match token {
        Some((value, scopes, line, offset)) => if has_symbol_scope(scopes) {
            Some((value, Position { line, offset }))
        } else {
            None
        },
        None => None,
    }
}

/// The symbols among `tokens`, in order.
pub open spec fn symbols_of(tokens: Seq<Option<(Seq<char>, Seq<Seq<char>>, usize, usize)>>) -> Seq<(Seq<char>, Position)>
    decreases tokens.len(),
{
    if tokens.len() == 0 {
        Seq::empty()
    } else {
        let earlier = symbols_of(tokens.drop_last());
        match token_symbol(tokens.last()) {
            Some(symbol) => earlier.push(symbol),
            None => earlier,
        }
    }
}

/// The symbols of `data` highlighted with the syntax called `syntax`; none
/// when it cannot be tokenized.
pub open spec fn text_symbols(data: Seq<char>, syntax: Seq<char>) -> Option<Seq<(Seq<char>, Position)>> {
    match syntax_tokens(data, syntax) {
        Some(tokens) => Some(symbols_of(tokens)),
        None => None,
    }
}

/// Whether `scope` is the symbol scope or one below it.
fn scope_is_symbol(scope: &String) -> (is: bool)
    ensures
        is == is_symbol_scope(scope@),
{
    proof {
        reveal_strlit("entity.name.function");
    }
    let name = "entity.name.function";
    if !starts_with(scope.as_str(), name) {
        return false;
    }
    let len = scope.as_str().unicode_len();
    let name_len = name.unicode_len();
    len == name_len || scope.as_str().get_char(name_len) == '.'
}

/// The symbols of `data` highlighted with the syntax called `syntax`: their
/// names, and their positions in the same order; none when it cannot be
/// tokenized.
pub fn symbols(data: &str, syntax: &str) -> (found: Option<(Vec<String>, Vec<Position>)>)
    ensures
        match text_symbols(data@, syntax@) {
            Some(symbols) => found matches Some((names, positions)) && names.deep_view() == symbols.map_values(
                |s: (Seq<char>, Position)| s.0,
            ) && positions@ == symbols.map_values(|s: (Seq<char>, Position)| s.1),
            None => found is None,
        },
{
    let tokens = match tokenize(data, syntax) {
        Some(tokens) => tokens,
        None => return None,
    };
    let ghost all = tokens.deep_view();
    let mut names: Vec<String> = Vec::new();
    let mut positions: Vec<Position> = Vec::new();
    for k in 0..tokens.len()
        invariant
            all == tokens.deep_view(),
            names.deep_view() == symbols_of(all.take(k as int)).map_values(|s: (Seq<char>, Position)| s.0),
            positions@ == symbols_of(all.take(k as int)).map_values(|s: (Seq<char>, Position)| s.1),
    {
        let ghost before = symbols_of(all.take(k as int));
        assert(all.take(k + 1).drop_last() =~= all.take(k as int));
        assert(all.take(k + 1).last() == all[k as int]);
        assert(all[k as int] == tokens@[k as int].deep_view());
        match &tokens[k] {
            Some((value, scopes, line, offset)) => {
                let ghost sv = scopes.deep_view();
                assert(value.deep_view() == value@);
                assert(all[k as int] == Some((value@, sv, *line, *offset)));
                let mut is_symbol = false;
                for j in 0..scopes.len()
                    invariant
                        sv == scopes.deep_view(),
                        is_symbol <==> exists|m: int| 0 <= m < j && is_symbol_scope(#[trigger] sv[m]),
                        j <= sv.len(),
                {
                    assert(sv[j as int] == scopes@[j as int]@);
                    if scope_is_symbol(&scopes[j]) {
                        is_symbol = true;
                    }
                }
                assert(sv.len() == scopes@.len());
                if is_symbol {
                    proof {
                        let m = choose|m: int| 0 <= m < scopes@.len() && is_symbol_scope(#[trigger] sv[m]);
                        assert(is_symbol_scope(sv[m]));
                        assert(0 <= m < sv.len());
                        assert(has_symbol_scope(sv));
                    }
                    let ghost names_before = names.deep_view();
                    names.push(value.clone());
                    positions.push(Position { line: *line, offset: *offset });
                    assert(names.deep_view() =~= names_before.push(value@));
                    let ghost symbol = (value@, Position { line: *line, offset: *offset });
                    assert(token_symbol(all[k as int]) == Some(symbol));
                    assert(symbols_of(all.take(k + 1)) == before.push(symbol));
                    assert(names.deep_view() =~= before.push(symbol).map_values(|s: (Seq<char>, Position)| s.0));
                    assert(positions@ =~= before.push(symbol).map_values(|s: (Seq<char>, Position)| s.1));
                } else {
                    assert(token_symbol(all[k as int]) is None);
                    assert(symbols_of(all.take(k + 1)) == before);
                }
            },
            None => {
                assert(symbols_of(all.take(k + 1)) == before);
            },
        }
    }
    assert(all.take(tokens@.len() as int) =~= all);
    Some((names, positions))
}

} // verus!

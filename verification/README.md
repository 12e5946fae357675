# amp

The application commands of a modal terminal text editor, verified with Verus.

- `src/` is the library. Every command (`commands::application`,
  `commands::search_select`, `commands::workspace`, `commands::buffer`) states,
  as a relation between the editor before and after the call and its result,
  exactly what it does; `laws` holds the properties that span several calls.
  Each buffer keeps its text as a `String`; inserting text and checking
  positions go through `scribe`'s gap buffer, which `buffer` builds from the
  text for each call, behind two trusted wrappers. The symbols that symbol
  jump mode lists come from `scribe`'s tokenizer, run with `syntect`'s
  default syntaxes behind one trusted wrapper in `tokens`.
- `tests/` runs the library on concrete editors.
- `app/` builds an editor from a directory and from `syntect`'s syntaxes and
  themes, and runs an external file manager.

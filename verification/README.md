# worm

Front end of the worm language, verified with Verus.

- `src/token.rs` — tokens, spans and the source file they index.
- `src/ast.rs` — the syntax tree, and its mathematical form (each `Vec`
  viewed as a `Seq`).
- `src/grammar.rs` — the grammar as spec functions over the token sequence:
  what each parsing function gives, value and end position, or the error at
  which it stops.
- `src/parser.rs`, `src/parse_*.rs` — the recursive-descent parser. Every
  parsing function is proved to compute its grammar function and never to
  read outside the input. Each one that succeeds consumes at least one
  token, but for `generic_params` (and the generic arguments of a type
  hint), which consume nothing when no `<` follows.
- `src/lists.rs` — laws of the comma-separated lists: each list of the
  grammar is one list form over its item grammar, and that form reads
  exactly the items it is given.
- `src/tir.rs`, `src/ty.rs` — the typed intermediate representation and the
  types of the type checker.
- `src/tyctxt.rs` — the type context, three `id_arena` arenas behind trusted
  wrappers, with the laws of reading back what was inserted or written.
- `src/package.rs` — packages, modules and compile sessions.
- `app/lib.rs` — miette diagnostics for parse errors, and the driver that
  prints them and exits.

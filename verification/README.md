# mq_docs

Generates reference documentation for the functions, macros and selectors of
the mq query language, as Markdown tables, plain text or a single HTML page,
and keeps the state of a terminal documentation browser. The library is written
in Verus. Its verified functions carry contracts that Verus proves; the calls
into other crates and a few standard-library functions stand behind
`#[verifier::external_body]` wrappers whose contracts are assumed, not proved,
and whose doc comments say what they claim (`src/hir.rs`, `src/markdown.rs`,
`src/text.rs`).

Layout:

- `src/generate.rs` decides which modules to document, loads each one and
  renders the result (`generate_docs`).
- `src/hir.rs` holds the calls into `mq-hir`, `url` and `itertools`, with the
  assumed contracts that the rest of the library relies on.
- `src/symbols.rs` turns the symbols of a module into table rows.
- `src/markdown.rs`, `src/plain.rs`, `src/html.rs` and `src/template.rs` render
  the rows; `src/text.rs` holds the string helpers they share.
- `src/browser.rs` is the browser state and its key handling; `src/detail.rs`
  and `src/screen.rs` compute the text that the browser shows.
- `app/` is the `mq-docs` command line and the terminal drawing.
- `tests/` exercises the library on concrete values.

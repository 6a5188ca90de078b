# wish_core

The logic of the Wish world tools as a Verus library: the functions in
`src/` carry `requires`/`ensures` contracts that Verus proves, except a
few small wrappers marked `#[verifier::external_body]` around outside
calls (the clock, SHA-256, std hashing and formatting, character
classes), whose contracts are trusted as their sources document them.

- `src/` — the library. Repository extraction (`codegraph`,
  `repo_extract`, `languages`, `architecture`), the semantic canvas
  (`canvas`, `patch`, `canvas_pane`, `layout`, `export`, `glyphs`),
  its projections (`repo_canvas`, `agent_dag`), the provenance ledger
  (`ledger`), tensors (`tensor`), perspectives (`perspective`),
  language servers (`lsp`), the Hermon client's decisions (`hermon*`:
  errors, retries, tokens, and the table of API operations with the
  request each sends; `sse`), trust cells (`cells`) and the
  `wish-world` command grammar (`cli`).
- `tests/` — tests of the library, run against the compiled crate.
- `app/` — the `wish-world` binary: file-system walks, ledger files,
  floating-point layout and SVG drawing, JSON in and out, and the async
  HTTP transport of the Hermon client.

Numbers that are `f32`/`f64` in the data model are held in the library
as their IEEE-754 bit patterns; arithmetic on them happens in `app/`.

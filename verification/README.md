# rustc_ast attributes, verified

Attributes and meta items of the Rust syntax tree (`#[name]`,
`#[name = "value"]`, `#[name(a, b = "c")]`, doc comments), with the
functions that query them, read meta items from token trees, make new
attributes, and look attributes up by name. The functions state their
behaviour in `requires`/`ensures` and are proved by Verus. Attribute ids
come from a counter that threads may share: a maker states that the id it
gives is what some value of the counter makes, not which value that is.

Layout of `src/`:

- `ast.rs` — the syntax tree: paths, literals, attribute arguments,
  attributes, meta items, and the values (`SPath`, `SMetaItem`, ...) that
  contracts speak of.
- `token.rs` — tokens, token trees and streams; tree-by-tree copies.
- `symbol.rs`, `kw.rs`, `sym.rs` — interned strings (`Symbol`), the
  `Interner` that holds their text, the predefined keywords and names,
  identifiers.
- `span.rs` — spans, held as `rustc_span::Span`.
- `lists.rs` — the `thin_vec`, `smallvec` and `rustc_index` collections
  that the tree keeps its sequences in.
- `parse.rs` — the meta item reader and its specification.
- `attr.rs` — attribute and meta item queries, attribute makers, lookups
  by name, marked attributes, attribute ids.
- `literal.rs` — escaping the text of a string literal.
- `laws.rs` — properties across the operations, proved.

`tests/` runs the library on concrete attributes.

# dynosaur

The `#[dynosaur(Vis DynName = dyn(box) Trait)]` attribute makes a struct
`DynName` that takes the place of `dyn Trait` for a trait whose methods are
`async` or return `impl Trait`. Its methods box the futures and values that
the trait's methods return.

The expansion is written in Verus and proved against its specification:

- `src/` models the trait as plain values (`model.rs`), token streams as flat
  sequences of tokens (`tokens.rs`), and states the whole expansion as a
  function from the attribute's tokens and the trait's model to tokens.
  `attrs.rs` parses the attribute's arguments; `sig.rs`, `receiver.rs`,
  `where_clauses.rs` and `lifetime.rs` read and rewrite signatures;
  `expand.rs` gives the erased trait's signatures; `forward.rs` writes the
  forwarding methods; `erased.rs`, `dyn_struct.rs` and `bridge.rs` write the
  generated items, and `expansion.rs` puts them together. `item_parse.rs`
  reads the item with `syn` and converts its syntax tree to the model.
  `laws.rs` holds properties of the expansion as a whole.
- `app/` hands the library the attribute's tokens and the item's text, and
  turns the library's tokens back into a `TokenStream`.
- `tests/` runs the expansion on concrete traits.

# nir_rs

A typed, verified model of the Neuromorphic Intermediate Representation
(NIR): a directed graph of named spiking and analog primitives (leaky
integrators, convolutions, affine maps, ...), with the `.nir` (HDF5) wire
vocabulary and the decisions a reader and a writer of that format take.

The library under `src/` is checked by the Verus verifier: its functions
carry `requires` / `ensures` contracts that Verus proves of their bodies. The
exceptions are the trusted wrappers marked `#[verifier::external_body]` (the
calls into `indexmap` behind `graph::NodeMap`, and the `{:?}` formatting
behind `text::quoted`): their contracts are believed, not proved, and their
doc comments say what they claim of the outside code.

## Layout

- `src/types.rs` — tensors (shape always matches payload, enforced as a type
  invariant), dtypes, metadata values, and the metadata map.
- `src/nodes.rs` — the node kinds and their exact upstream wire `type` names.
- `src/graph.rs` — the graph, its insertion-ordered node map, and structure
  validation of arbitrarily nested subgraphs on a heap work list.
- `src/validation.rs` — opt-in convolution and pooling parameter checks.
- `src/io/` — wire vocabulary (`wire`), the `/version` policy (`version`),
  read decisions and the decoded-allocation budget (`decode`), pre-write
  checks (`preflight`), wire shaping (`encode`), and the entry points.
- `src/error.rs`, `src/text.rs` — errors, their messages, and the text
  building blocks messages are made of.
- `tests/` — behaviour on concrete values.
- `app/` — the libhdf5 backend: opens, reads and writes HDF5 objects around
  the library's decisions, and replaces files atomically.

Floats are carried as their IEEE-754 bit patterns (`u32` / `u64`) inside the
library; the backend converts at the HDF5 boundary.

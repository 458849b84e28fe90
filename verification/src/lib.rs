//! Typed graph model for the Neuromorphic Intermediate Representation (NIR).
//!
//! NIR describes spiking and analog neural networks as a directed graph of
//! named computational primitives (leaky integrators, convolutions, affine
//! maps, ...). This crate holds that graph in memory:
//!
//! - [`types`]: tensors whose shape always matches their payload, and
//!   free-form metadata;
//! - [`nodes`]: the node kinds, with their exact upstream wire `type` names;
//! - [`graph`]: the graph itself, its insertion-ordered node map, and
//!   structure validation (edge endpoints, duplicate edges, nested
//!   subgraphs);
//! - [`validation`]: opt-in local convolution and pooling parameter checks;
//! - [`io`]: the `.nir` (HDF5) wire vocabulary, the `/version` policy, and the
//!   decisions a reader and a writer take around their HDF5 calls;
//! - [`error`]: the error type shared by all of the above.
//!
//! The library's functions state their behaviour as contracts checked by the
//! Verus verifier; the few trusted wrappers around `indexmap` and `{:?}`
//! formatting are believed, and say so in their doc comments.
//!
//! Wire type names must match the Python IR (`CubaLIF`, `Conv2d`, …), not
//! informal marketing aliases.

pub mod error;
pub mod graph;
pub mod io;
pub mod nodes;
pub mod text;
pub mod types;
pub mod validation;

pub use error::{NirError, ParameterError, ReadLimitResource};
pub use graph::NirGraph;
pub use nodes::NirNode;
pub use types::{DType, MetadataMap, MetadataValue, Tensor, TensorData};

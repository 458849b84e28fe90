//! `.nir` (HDF5) read/write: options, entry points, and the format logic the
//! HDF5 backend runs on.
//!
//! `.nir` is the official NIR interchange format: an HDF5 container whose
//! layout is fixed by upstream NIR. See [`wire`] for the layout itself.
//!
//! The container access needs the native libhdf5 library. The entry points of
//! this module do not link it: [`read`], [`write`] and [`read_version`] return
//! [`NirError::Unimplemented`], so downstream code can be written once. The
//! decisions that an HDF5 backend takes between its reads and writes are here
//! and verified: the allocation budget and field defaults of a read
//! ([`decode`]), the checks that run before a write ([`preflight`]), and the
//! `/version` policy ([`VersionPolicy`]).
//!
//! # Version string
//!
//! Upstream writes the version of the Python `nir` package into `/version` and
//! never validates it on read. A read stores `/version` in
//! [`NirGraph::version`](crate::graph::NirGraph::version) and leaves it `None`
//! when the dataset is absent; a write emits the graph's version when set,
//! else [`DEFAULT_NIR_VERSION`].

pub mod decode;
pub mod encode;
pub mod preflight;
pub mod version;
pub mod wire;

use vstd::prelude::*;
use crate::error::{ErrorModel, NirError};
use crate::graph::NirGraph;
pub use self::version::VersionPolicy;

verus! {

/// Version string written to `/version` when a graph carries none.
///
/// Tracks the upstream `nir` release this crate's wire format is validated
/// against.
pub const DEFAULT_NIR_VERSION: &'static str = "1.0.8";

/// Default gzip level, matching h5py's `compression="gzip"` default.
pub const DEFAULT_COMPRESSION: u8 = 4u8;

/// Highest deflate level HDF5 accepts.
pub const MAX_COMPRESSION: u8 = 9u8;

/// Allocation and structure policy for decoding an untrusted `.nir` file
/// with [`read_with`].
///
/// `max_bytes` is a **decoded-allocation budget**, not an on-disk file-size
/// limit and not a bound on the returned graph's exact resident size. Charging
/// is monotonic and conservative: temporary allocations stay charged after
/// they are released (see [`decode::ReadBudget`]). All arithmetic is checked;
/// overflow is treated as over budget.
///
/// `max_nodes`, `max_edges` and `max_nested_graphs` are **count budgets**
/// summed over the root graph and every nested `NIRGraph` (the root counts as
/// one nested graph). Each collection is charged as a whole before it is
/// decoded (see [`decode::CountBudget`]); exceeding one is reported as
/// [`NirError::ReadCountLimitExceeded`].
#[derive(Debug, Clone, PartialEq, Eq)]
#[non_exhaustive]
pub struct ReadOptions {
    /// Maximum total bytes charged by decoded allocations, or `None` for no
    /// allocation budget.
    pub max_bytes: Option<usize>,
    /// Maximum total nodes over all graphs, or `None` for no node budget.
    pub max_nodes: Option<usize>,
    /// Maximum total edges over all graphs, or `None` for no edge budget.
    pub max_edges: Option<usize>,
    /// Maximum `NIRGraph` groups decoded, the root included, or `None` for
    /// no graph-count budget.
    pub max_nested_graphs: Option<usize>,
    /// How the root `/version` dataset is treated.
    pub version_policy: VersionPolicy,
}

impl Default for ReadOptions {
    /// Unbounded, permissive.
    fn default() -> (o: Self)
        ensures
            o.max_bytes is None,
            o.max_nodes is None,
            o.max_edges is None,
            o.max_nested_graphs is None,
            o.version_policy == VersionPolicy::Permissive,
    {
        ReadOptions {
            max_bytes: None,
            max_nodes: None,
            max_edges: None,
            max_nested_graphs: None,
            version_policy: VersionPolicy::Permissive,
        }
    }
}

impl ReadOptions {
    /// Set the decoded-allocation budget in bytes; `None` makes it unbounded.
    #[must_use]
    pub fn with_max_bytes(self, max_bytes: Option<usize>) -> (o: Self)
        ensures
            o == (ReadOptions { max_bytes, ..self }),
    {
        ReadOptions { max_bytes, ..self }
    }

    /// Set the total node budget; `None` makes it unbounded.
    #[must_use]
    pub fn with_max_nodes(self, max_nodes: Option<usize>) -> (o: Self)
        ensures
            o == (ReadOptions { max_nodes, ..self }),
    {
        ReadOptions { max_nodes, ..self }
    }

    /// Set the total edge budget; `None` makes it unbounded.
    #[must_use]
    pub fn with_max_edges(self, max_edges: Option<usize>) -> (o: Self)
        ensures
            o == (ReadOptions { max_edges, ..self }),
    {
        ReadOptions { max_edges, ..self }
    }

    /// Set the budget of `NIRGraph` groups, the root included; `None` makes
    /// it unbounded.
    #[must_use]
    pub fn with_max_nested_graphs(self, max_nested_graphs: Option<usize>) -> (o: Self)
        ensures
            o == (ReadOptions { max_nested_graphs, ..self }),
    {
        ReadOptions { max_nested_graphs, ..self }
    }

    /// Set the `/version` policy.
    #[must_use]
    pub fn with_version_policy(self, version_policy: VersionPolicy) -> (o: Self)
        ensures
            o == (ReadOptions { version_policy, ..self }),
    {
        ReadOptions { version_policy, ..self }
    }
}

/// Tuning knobs for [`write_with`].
///
/// Construct from [`Default`] and adjust.
#[derive(Debug, Clone, PartialEq, Eq)]
#[non_exhaustive]
pub struct WriteOptions {
    /// Deflate (gzip) level for **numeric** array datasets, must be in `0..=9`.
    ///
    /// `None` writes arrays uncompressed. Values above 9 are rejected; use
    /// [`Self::with_compression`] to clamp automatically. Scalars, empty
    /// arrays and string arrays are never compressed.
    pub compression: Option<u8>,
    /// Version string to write, overriding the graph's own version.
    pub version: Option<String>,
    /// Run structure validation and lossless-representation checks before
    /// writing. Defaults to `true`.
    pub validate: bool,
}

impl Default for WriteOptions {
    /// gzip level 4 (as h5py), no version override, validation on.
    fn default() -> (o: Self)
        ensures
            o.compression == Some(DEFAULT_COMPRESSION),
            o.version is None,
            o.validate,
    {
        WriteOptions { compression: Some(DEFAULT_COMPRESSION), version: None, validate: true }
    }
}

/// A deflate level clamped into HDF5's range.
pub open spec fn clamp_level(level: Option<u8>) -> Option<u8> {
    match level {
        Some(l) => Some(if l > MAX_COMPRESSION { MAX_COMPRESSION } else { l }),
        None => None,
    }
}

impl WriteOptions {
    /// Set the deflate level for array datasets, clamped to 9; `None`
    /// disables compression.
    #[must_use]
    pub fn with_compression(self, level: Option<u8>) -> (o: Self)
        ensures
            o.compression == clamp_level(level),
            o.version == self.version,
            o.validate == self.validate,
    {
        let compression = match level {
            Some(l) => Some(if l > MAX_COMPRESSION { MAX_COMPRESSION } else { l }),
            None => None,
        };
        WriteOptions { compression, version: self.version, validate: self.validate }
    }

    /// Override the version string written to `/version`.
    #[must_use]
    pub fn with_version(self, version: &str) -> (o: Self)
        ensures
            o.compression == self.compression,
            o.version matches Some(v) && v@ == version@,
            o.validate == self.validate,
    {
        WriteOptions {
            compression: self.compression,
            version: Some(version.to_owned()),
            validate: self.validate,
        }
    }

    /// Enable or disable the pre-write checks.
    #[must_use]
    pub fn with_validation(self, validate: bool) -> (o: Self)
        ensures
            o.compression == self.compression,
            o.version == self.version,
            o.validate == validate,
    {
        WriteOptions { compression: self.compression, version: self.version, validate }
    }
}

/// Read a NIR graph from a `.nir` (HDF5) path.
///
/// # Errors
///
/// [`NirError::Unimplemented`]: this build does not link libhdf5.
pub fn read(path: &str) -> (r: Result<NirGraph, NirError>)
    ensures
        r matches Err(e) && e@ == ErrorModel::Unimplemented("io::read (enable feature \"hdf5\")"@),
{
    read_with(path, &ReadOptions::default())
}

/// Read a NIR graph with an explicit decoded-allocation budget.
///
/// # Errors
///
/// [`NirError::Unimplemented`]: this build does not link libhdf5.
pub fn read_with(path: &str, opts: &ReadOptions) -> (r: Result<NirGraph, NirError>)
    ensures
        r matches Err(e) && e@ == ErrorModel::Unimplemented("io::read (enable feature \"hdf5\")"@),
{
    Err(NirError::Unimplemented("io::read (enable feature \"hdf5\")"))
}

/// Read only the `/version` string from a `.nir` file.
///
/// # Errors
///
/// [`NirError::Unimplemented`]: this build does not link libhdf5.
pub fn read_version(path: &str) -> (r: Result<String, NirError>)
    ensures
        r matches Err(e) && e@ == ErrorModel::Unimplemented(
            "io::read_version (enable feature \"hdf5\")"@,
        ),
{
    read_version_with(path, &ReadOptions::default())
}

/// Read only `/version` with an explicit decoded-allocation budget.
///
/// # Errors
///
/// [`NirError::Unimplemented`]: this build does not link libhdf5.
pub fn read_version_with(path: &str, opts: &ReadOptions) -> (r: Result<String, NirError>)
    ensures
        r matches Err(e) && e@ == ErrorModel::Unimplemented(
            "io::read_version (enable feature \"hdf5\")"@,
        ),
{
    Err(NirError::Unimplemented("io::read_version (enable feature \"hdf5\")"))
}

/// Write a NIR graph to a `.nir` (HDF5) path with [`WriteOptions::default`].
///
/// # Errors
///
/// [`NirError::Unimplemented`]: this build does not link libhdf5.
pub fn write(path: &str, graph: &NirGraph) -> (r: Result<(), NirError>)
    ensures
        r matches Err(e) && e@ == ErrorModel::Unimplemented("io::write (enable feature \"hdf5\")"@),
{
    write_with(path, graph, &WriteOptions::default())
}

/// Write a NIR graph to a `.nir` (HDF5) path with explicit options.
///
/// # Errors
///
/// [`NirError::Unimplemented`]: this build does not link libhdf5.
pub fn write_with(path: &str, graph: &NirGraph, opts: &WriteOptions) -> (r: Result<(), NirError>)
    ensures
        r matches Err(e) && e@ == ErrorModel::Unimplemented("io::write (enable feature \"hdf5\")"@),
{
    Err(NirError::Unimplemented("io::write (enable feature \"hdf5\")"))
}

} // verus!

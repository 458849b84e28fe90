//! Structured errors: graph construction and validation, tensor shape checks,
//! parameter checks and `.nir` decoding/encoding decisions.

use vstd::prelude::*;
use crate::text::{decimal, signed_decimal, usize_text, i64_text};

verus! {

/// Local convolution or pooling parameter invariant that failed.
///
/// Each variant is unambiguous from the node's own fields. Returned inside
/// [`NirError::InvalidNodeParameters`].
#[derive(Debug, Clone, PartialEq, Eq)]
#[non_exhaustive]
#[allow(inconsistent_fields)]
pub enum ParameterError {
    /// Weight tensor rank does not match the convolution kind.
    WeightRank {
        /// Observed rank (`shape.len()`).
        found: usize,
        /// Required rank (3 for `Conv1d`, 4 for `Conv2d`).
        expected: usize,
    },
    /// `groups` is not a positive count.
    Groups {
        /// Observed `groups` value.
        found: i64,
    },
    /// Output-channel count is not divisible by `groups`.
    ChannelGroupDivisibility {
        /// `weight` output-channel axis (`shape[0]`).
        channels: usize,
        /// Observed `groups` value.
        groups: i64,
    },
    /// A stride, dilation, padding, or pooling window has the wrong length.
    ExtentArity {
        /// Field name (`stride`, `dilation`, `padding`, `kernel_size`, ...).
        field: &'static str,
        /// Human-readable allowed arity (`1`, `1 or 2`).
        expected: &'static str,
        /// Observed number of extents.
        found: usize,
    },
    /// A pooling window tensor is not a scalar or a 1-D vector of extents.
    ExtentRank {
        /// Field name (`kernel_size`, `stride`, `padding`).
        field: &'static str,
        /// Observed rank (`shape.len()`).
        found: usize,
    },
    /// A pooling window tensor is not an integer payload.
    ExtentDType {
        /// Field name (`kernel_size`, `stride`, `padding`).
        field: &'static str,
        /// Observed payload dtype label (`f32`, `f64`, `bool`).
        dtype: &'static str,
    },
    /// A stride, dilation, or kernel extent is not strictly positive.
    ExtentPositive {
        /// Field name (`stride`, `dilation`, `kernel_size`).
        field: &'static str,
        /// Index of the offending extent.
        index: usize,
        /// Observed value.
        value: i64,
    },
    /// An explicit padding extent is negative.
    ExtentNonNegative {
        /// Field name (`padding`).
        field: &'static str,
        /// Index of the offending extent.
        index: usize,
        /// Observed value.
        value: i64,
    },
    /// Bias element count does not match the convolution's output channels.
    BiasLength {
        /// `bias.numel()`.
        found: usize,
        /// Output-channel count from `weight.shape[0]`.
        expected: usize,
    },
    /// Bias tensor is not rank-1.
    BiasRank {
        /// Observed rank (`shape.len()`).
        found: usize,
    },
    /// A weight tensor axis extent is not strictly positive.
    WeightExtentPositive {
        /// Offending axis index.
        axis: usize,
    },
}

/// Mathematical model of a [`ParameterError`]: names as character sequences.
#[allow(inconsistent_fields)]
pub ghost enum ParamModel {
    WeightRank { found: nat, expected: nat },
    Groups { found: int },
    ChannelGroupDivisibility { channels: nat, groups: int },
    ExtentArity { field: Seq<char>, expected: Seq<char>, found: nat },
    ExtentRank { field: Seq<char>, found: nat },
    ExtentDType { field: Seq<char>, dtype: Seq<char> },
    ExtentPositive { field: Seq<char>, index: nat, value: int },
    ExtentNonNegative { field: Seq<char>, index: nat, value: int },
    BiasLength { found: nat, expected: nat },
    BiasRank { found: nat },
    WeightExtentPositive { axis: nat },
}

impl View for ParameterError {
    type V = ParamModel;

    open spec fn view(&self) -> ParamModel {
        match *self {
            ParameterError::WeightRank { found, expected } =>
                ParamModel::WeightRank { found: found as nat, expected: expected as nat },
            ParameterError::Groups { found } => ParamModel::Groups { found: found as int },
            ParameterError::ChannelGroupDivisibility { channels, groups } =>
                ParamModel::ChannelGroupDivisibility { channels: channels as nat, groups: groups as int },
            ParameterError::ExtentArity { field, expected, found } =>
                ParamModel::ExtentArity { field: field@, expected: expected@, found: found as nat },
            ParameterError::ExtentRank { field, found } =>
                ParamModel::ExtentRank { field: field@, found: found as nat },
            ParameterError::ExtentDType { field, dtype } =>
                ParamModel::ExtentDType { field: field@, dtype: dtype@ },
            ParameterError::ExtentPositive { field, index, value } =>
                ParamModel::ExtentPositive { field: field@, index: index as nat, value: value as int },
            ParameterError::ExtentNonNegative { field, index, value } =>
                ParamModel::ExtentNonNegative { field: field@, index: index as nat, value: value as int },
            ParameterError::BiasLength { found, expected } =>
                ParamModel::BiasLength { found: found as nat, expected: expected as nat },
            ParameterError::BiasRank { found } => ParamModel::BiasRank { found: found as nat },
            ParameterError::WeightExtentPositive { axis } =>
                ParamModel::WeightExtentPositive { axis: axis as nat },
        }
    }
}

/// The human-readable message of a parameter error.
pub open spec fn param_text(p: ParamModel) -> Seq<char> {
    match p {
        ParamModel::WeightRank { found, expected } =>
            "weight rank "@ + decimal(found) + " is not "@ + decimal(expected),
        ParamModel::Groups { found } => "groups must be > 0, found "@ + signed_decimal(found),
        ParamModel::ChannelGroupDivisibility { channels, groups } =>
            "output channels "@ + decimal(channels) + " are not divisible by groups "@
                + signed_decimal(groups),
        ParamModel::ExtentArity { field, expected, found } =>
            field + " arity "@ + decimal(found) + " is not "@ + expected,
        ParamModel::ExtentRank { field, found } =>
            field + " rank "@ + decimal(found) + " is not 0 or 1"@,
        ParamModel::ExtentDType { field, dtype } =>
            field + " must contain i64 extents, found "@ + dtype,
        ParamModel::ExtentPositive { field, index, value } =>
            field + " extents must be strictly positive, found "@ + signed_decimal(value)
                + " at index "@ + decimal(index),
        ParamModel::ExtentNonNegative { field, index, value } =>
            field + " extents must be non-negative, found "@ + signed_decimal(value)
                + " at index "@ + decimal(index),
        ParamModel::BiasLength { found, expected } =>
            "bias length "@ + decimal(found) + " is incompatible with "@ + decimal(expected)
                + " output channels"@,
        ParamModel::BiasRank { found } => "bias rank "@ + decimal(found) + " is not 1"@,
        ParamModel::WeightExtentPositive { axis } =>
            "weight extents must be strictly positive, found 0 along axis "@ + decimal(axis),
    }
}

impl ParameterError {
    /// The human-readable message of this error.
    pub fn message(&self) -> (s: String)
        ensures
            s@ == param_text(self@),
    {
        match self {
            ParameterError::WeightRank { found, expected } => String::from_str("weight rank ")
                .concat(usize_text(*found).as_str()).concat(" is not ")
                .concat(usize_text(*expected).as_str()),
            ParameterError::Groups { found } => String::from_str("groups must be > 0, found ")
                .concat(i64_text(*found).as_str()),
            ParameterError::ChannelGroupDivisibility { channels, groups } =>
                String::from_str("output channels ").concat(usize_text(*channels).as_str())
                    .concat(" are not divisible by groups ").concat(i64_text(*groups).as_str()),
            ParameterError::ExtentArity { field, expected, found } => String::from_str(*field)
                .concat(" arity ").concat(usize_text(*found).as_str()).concat(" is not ")
                .concat(*expected),
            ParameterError::ExtentRank { field, found } => String::from_str(*field)
                .concat(" rank ").concat(usize_text(*found).as_str()).concat(" is not 0 or 1"),
            ParameterError::ExtentDType { field, dtype } => String::from_str(*field)
                .concat(" must contain i64 extents, found ").concat(*dtype),
            ParameterError::ExtentPositive { field, index, value } => String::from_str(*field)
                .concat(" extents must be strictly positive, found ")
                .concat(i64_text(*value).as_str()).concat(" at index ")
                .concat(usize_text(*index).as_str()),
            ParameterError::ExtentNonNegative { field, index, value } => String::from_str(*field)
                .concat(" extents must be non-negative, found ")
                .concat(i64_text(*value).as_str()).concat(" at index ")
                .concat(usize_text(*index).as_str()),
            ParameterError::BiasLength { found, expected } => String::from_str("bias length ")
                .concat(usize_text(*found).as_str()).concat(" is incompatible with ")
                .concat(usize_text(*expected).as_str()).concat(" output channels"),
            ParameterError::BiasRank { found } => String::from_str("bias rank ")
                .concat(usize_text(*found).as_str()).concat(" is not 1"),
            ParameterError::WeightExtentPositive { axis } =>
                String::from_str("weight extents must be strictly positive, found 0 along axis ")
                    .concat(usize_text(*axis).as_str()),
        }
    }
}

/// Structural collection bounded by a read count limit.
///
/// Distinct from the decoded-allocation budget: these count nodes, edges, or
/// nested graph groups rather than decoded payload bytes.
#[derive(Debug, Clone, Copy, PartialEq, Eq, Hash)]
#[non_exhaustive]
pub enum ReadLimitResource {
    /// Total nodes across the root graph and every nested `NIRGraph`.
    Nodes,
    /// Total edges across the root graph and every nested `NIRGraph`.
    Edges,
    /// Total `NIRGraph` groups decoded from the file, including the root.
    NestedGraphs,
}

/// The human-readable name of a counted resource.
pub open spec fn resource_text(r: ReadLimitResource) -> Seq<char> {
    match r {
        ReadLimitResource::Nodes => "nodes"@,
        ReadLimitResource::Edges => "edges"@,
        ReadLimitResource::NestedGraphs => "nested graphs"@,
    }
}

impl ReadLimitResource {
    /// The human-readable name of this resource.
    pub fn message(&self) -> (s: String)
        ensures
            s@ == resource_text(*self),
    {
        match self {
            ReadLimitResource::Nodes => String::from_str("nodes"),
            ReadLimitResource::Edges => String::from_str("edges"),
            ReadLimitResource::NestedGraphs => String::from_str("nested graphs"),
        }
    }
}

/// Public error type for NIR operations.
#[derive(Debug, Clone, PartialEq, Eq)]
#[non_exhaustive]
pub enum NirError {
    /// Feature not available in this build (file I/O entry points of the library).
    Unimplemented(&'static str),
    /// Wire `type` string is not a known NIR node.
    UnknownNodeType(String),
    /// A node name was inserted twice into the same graph.
    DuplicateNode(String),
    /// An edge or lookup referenced a node name that is not in the graph.
    MissingNode(String),
    /// The same directed edge `(src, dst)` appears more than once.
    DuplicateEdge(String, String),
    /// Structural or semantic problem with a graph that is not covered above.
    InvalidGraph(String),
    /// NIR file / graph version is not supported.
    UnsupportedVersion(String),
    /// An opt-in version policy rejected a file's `/version`.
    ///
    /// `observed` is [`None`] when the dataset was missing.
    IncompatibleVersion {
        /// Observed `/version` string, or [`None`] when the dataset was absent.
        observed: Option<String>,
        /// Canonical description of the policy that rejected it.
        policy: String,
    },
    /// A required wire field was absent when decoding a node or graph.
    MissingField(String),
    /// Tensor shape / data length mismatch or other tensor invariant failure.
    InvalidTensor(String),
    /// Local convolution or pooling parameter invariant failed.
    InvalidNodeParameters {
        /// Graph node name, or a `/`-separated path through nested subgraphs.
        node: String,
        /// Wire type string (`Conv1d`, `SumPool2d`, ...).
        node_type: &'static str,
        /// The invariant that failed.
        kind: ParameterError,
    },
    /// A bounded read would exceed its decoded-allocation budget.
    ReadLimitExceeded {
        /// Dataset or synthesized field being charged.
        context: String,
        /// Configured decoded-allocation limit in bytes.
        limit: usize,
        /// Bytes already charged by earlier allocations.
        used: usize,
        /// Bytes requested by the allocation that was rejected.
        requested: usize,
    },
    /// A bounded read would exceed a node, edge, or nested-graph count budget.
    ReadCountLimitExceeded {
        /// Which collection budget was exhausted.
        resource: ReadLimitResource,
        /// Graph path where the charge was attempted.
        context: String,
        /// Configured count limit.
        limit: usize,
        /// Counts already charged by earlier collections.
        used: usize,
        /// Counts requested by the collection that was rejected.
        requested: usize,
    },
    /// Filesystem or HDF5 library failure while reading or writing a `.nir` file.
    Io(String),
}

/// Mathematical model of a [`NirError`]: strings as character sequences.
#[allow(inconsistent_fields)]
pub ghost enum ErrorModel {
    Unimplemented(Seq<char>),
    UnknownNodeType(Seq<char>),
    DuplicateNode(Seq<char>),
    MissingNode(Seq<char>),
    DuplicateEdge(Seq<char>, Seq<char>),
    InvalidGraph(Seq<char>),
    UnsupportedVersion(Seq<char>),
    IncompatibleVersion { observed: Option<Seq<char>>, policy: Seq<char> },
    MissingField(Seq<char>),
    InvalidTensor(Seq<char>),
    InvalidNodeParameters { node: Seq<char>, node_type: Seq<char>, kind: ParamModel },
    ReadLimitExceeded { context: Seq<char>, limit: nat, used: nat, requested: nat },
    ReadCountLimitExceeded {
        resource: ReadLimitResource,
        context: Seq<char>,
        limit: nat,
        used: nat,
        requested: nat,
    },
    Io(Seq<char>),
}

impl View for NirError {
    type V = ErrorModel;

    open spec fn view(&self) -> ErrorModel {
        match self {
            NirError::Unimplemented(s) => ErrorModel::Unimplemented(s@),
            NirError::UnknownNodeType(s) => ErrorModel::UnknownNodeType(s@),
            NirError::DuplicateNode(s) => ErrorModel::DuplicateNode(s@),
            NirError::MissingNode(s) => ErrorModel::MissingNode(s@),
            NirError::DuplicateEdge(a, b) => ErrorModel::DuplicateEdge(a@, b@),
            NirError::InvalidGraph(s) => ErrorModel::InvalidGraph(s@),
            NirError::UnsupportedVersion(s) => ErrorModel::UnsupportedVersion(s@),
            NirError::IncompatibleVersion { observed, policy } => ErrorModel::IncompatibleVersion {
                observed: match observed {
                    Some(o) => Some(o@),
                    None => None,
                },
                policy: policy@,
            },
            NirError::MissingField(s) => ErrorModel::MissingField(s@),
            NirError::InvalidTensor(s) => ErrorModel::InvalidTensor(s@),
            NirError::InvalidNodeParameters { node, node_type, kind } =>
                ErrorModel::InvalidNodeParameters { node: node@, node_type: node_type@, kind: kind@ },
            NirError::ReadLimitExceeded { context, limit, used, requested } =>
                ErrorModel::ReadLimitExceeded {
                    context: context@,
                    limit: *limit as nat,
                    used: *used as nat,
                    requested: *requested as nat,
                },
            NirError::ReadCountLimitExceeded { resource, context, limit, used, requested } =>
                ErrorModel::ReadCountLimitExceeded {
                    resource: *resource,
                    context: context@,
                    limit: *limit as nat,
                    used: *used as nat,
                    requested: *requested as nat,
                },
            NirError::Io(s) => ErrorModel::Io(s@),
        }
    }
}

/// Model of a fallible check: `Ok(())` or the model of the error.
pub type Checked = Result<(), ErrorModel>;

/// The model of a `Result<(), NirError>`.
pub open spec fn checked_view(r: Result<(), NirError>) -> Checked {
    match r {
        Ok(()) => Ok(()),
        Err(e) => Err(e@),
    }
}

/// The human-readable message of an error.
pub open spec fn error_text(e: ErrorModel) -> Seq<char> {
    match e {
        ErrorModel::Unimplemented(s) => "not implemented: "@ + s,
        ErrorModel::UnknownNodeType(s) => "unknown node type: "@ + s,
        ErrorModel::DuplicateNode(s) => "duplicate node: "@ + s,
        ErrorModel::MissingNode(s) => "missing node: "@ + s,
        ErrorModel::DuplicateEdge(a, b) => "duplicate edge: ("@ + a + ", "@ + b + ")"@,
        ErrorModel::InvalidGraph(s) => "invalid graph: "@ + s,
        ErrorModel::UnsupportedVersion(s) => "unsupported version: "@ + s,
        ErrorModel::IncompatibleVersion { observed, policy } => "unsupported version: "@
            + match observed {
                Some(o) => o,
                None => "<absent>"@,
            } + " (policy: "@ + policy + ")"@,
        ErrorModel::MissingField(s) => "missing field: "@ + s,
        ErrorModel::InvalidTensor(s) => "invalid tensor: "@ + s,
        ErrorModel::InvalidNodeParameters { node, node_type, kind } => "invalid parameters for "@
            + node_type + " node "@ + node + ": "@ + param_text(kind),
        ErrorModel::ReadLimitExceeded { context, limit, used, requested } =>
            "read allocation limit exceeded at "@ + context + ": limit "@ + decimal(limit)
                + " bytes, used "@ + decimal(used) + " bytes, requested "@ + decimal(requested)
                + " bytes"@,
        ErrorModel::ReadCountLimitExceeded { resource, context, limit, used, requested } =>
            "read limit exceeded for "@ + resource_text(resource) + " at "@ + context
                + ": limit "@ + decimal(limit) + ", used "@ + decimal(used) + ", requested "@
                + decimal(requested),
        ErrorModel::Io(s) => "io error: "@ + s,
    }
}

impl NirError {
    /// The human-readable message of this error.
    pub fn message(&self) -> (s: String)
        ensures
            s@ == error_text(self@),
    {
        match self {
            NirError::Unimplemented(s) => String::from_str("not implemented: ").concat(*s),
            NirError::UnknownNodeType(s) =>
                String::from_str("unknown node type: ").concat(s.as_str()),
            NirError::DuplicateNode(s) => String::from_str("duplicate node: ").concat(s.as_str()),
            NirError::MissingNode(s) => String::from_str("missing node: ").concat(s.as_str()),
            NirError::DuplicateEdge(a, b) => String::from_str("duplicate edge: (")
                .concat(a.as_str()).concat(", ").concat(b.as_str()).concat(")"),
            NirError::InvalidGraph(s) => String::from_str("invalid graph: ").concat(s.as_str()),
            NirError::UnsupportedVersion(s) =>
                String::from_str("unsupported version: ").concat(s.as_str()),
            NirError::IncompatibleVersion { observed, policy } => {
                let seen = match observed {
                    Some(o) => o.as_str(),
                    None => "<absent>",
                };
                String::from_str("unsupported version: ").concat(seen).concat(" (policy: ")
                    .concat(policy.as_str()).concat(")")
            },
            NirError::MissingField(s) => String::from_str("missing field: ").concat(s.as_str()),
            NirError::InvalidTensor(s) => String::from_str("invalid tensor: ").concat(s.as_str()),
            NirError::InvalidNodeParameters { node, node_type, kind } =>
                String::from_str("invalid parameters for ").concat(*node_type).concat(" node ")
                    .concat(node.as_str()).concat(": ").concat(kind.message().as_str()),
            NirError::ReadLimitExceeded { context, limit, used, requested } =>
                String::from_str("read allocation limit exceeded at ").concat(context.as_str())
                    .concat(": limit ").concat(usize_text(*limit).as_str())
                    .concat(" bytes, used ").concat(usize_text(*used).as_str())
                    .concat(" bytes, requested ").concat(usize_text(*requested).as_str())
                    .concat(" bytes"),
            NirError::ReadCountLimitExceeded { resource, context, limit, used, requested } =>
                String::from_str("read limit exceeded for ").concat(resource.message().as_str())
                    .concat(" at ").concat(context.as_str()).concat(": limit ")
                    .concat(usize_text(*limit).as_str()).concat(", used ")
                    .concat(usize_text(*used).as_str()).concat(", requested ")
                    .concat(usize_text(*requested).as_str()),
            NirError::Io(s) => String::from_str("io error: ").concat(s.as_str()),
        }
    }
}

} // verus!

//! Messages of every error variant.

use nir_rs::{NirError, ParameterError, ReadLimitResource};

#[test]
fn unimplemented_display() {
    let err = NirError::Unimplemented("hdf5 read");
    assert_eq!(err.message(), "not implemented: hdf5 read");
}

#[test]
fn unknown_node_type_display() {
    let err = NirError::UnknownNodeType("CurrLIF".into());
    assert_eq!(err.message(), "unknown node type: CurrLIF");
}

#[test]
fn duplicate_node_display() {
    let err = NirError::DuplicateNode("lif".into());
    assert_eq!(err.message(), "duplicate node: lif");
}

#[test]
fn missing_node_display() {
    let err = NirError::MissingNode("missing".into());
    assert_eq!(err.message(), "missing node: missing");
}

#[test]
fn duplicate_edge_display() {
    let err = NirError::DuplicateEdge("a".into(), "b".into());
    assert_eq!(err.message(), "duplicate edge: (a, b)");
}

#[test]
fn invalid_graph_display() {
    let err = NirError::InvalidGraph("empty subgraph".into());
    assert_eq!(err.message(), "invalid graph: empty subgraph");
}

#[test]
fn unsupported_version_display() {
    let err = NirError::UnsupportedVersion("99.0".into());
    assert_eq!(err.message(), "unsupported version: 99.0");
}

#[test]
fn incompatible_version_display_includes_observed_and_policy() {
    let present = NirError::IncompatibleVersion {
        observed: Some("99.0.0".into()),
        policy: "compatible-major majors=[0, 1]".into(),
    };
    assert_eq!(
        present.message(),
        "unsupported version: 99.0.0 (policy: compatible-major majors=[0, 1])"
    );
    let missing = NirError::IncompatibleVersion {
        observed: None,
        policy: "require-present".into(),
    };
    assert_eq!(
        missing.message(),
        "unsupported version: <absent> (policy: require-present)"
    );
}

#[test]
fn missing_field_display() {
    let err = NirError::MissingField("weight".into());
    assert_eq!(err.message(), "missing field: weight");
}

#[test]
fn invalid_tensor_display() {
    let err = NirError::InvalidTensor("shape product 4 != data len 3".into());
    assert_eq!(err.message(), "invalid tensor: shape product 4 != data len 3");
}

#[test]
fn invalid_node_parameters_display() {
    let err = NirError::InvalidNodeParameters {
        node: "conv".into(),
        node_type: "Conv1d",
        kind: ParameterError::WeightRank { found: 2, expected: 3 },
    };
    assert_eq!(
        err.message(),
        "invalid parameters for Conv1d node conv: weight rank 2 is not 3"
    );
}

#[test]
fn parameter_error_displays() {
    let cases = [
        (ParameterError::Groups { found: 0 }, "groups must be > 0, found 0"),
        (
            ParameterError::ChannelGroupDivisibility { channels: 3, groups: 2 },
            "output channels 3 are not divisible by groups 2",
        ),
        (
            ParameterError::ExtentArity { field: "stride", expected: "1", found: 2 },
            "stride arity 2 is not 1",
        ),
        (
            ParameterError::ExtentRank { field: "kernel_size", found: 2 },
            "kernel_size rank 2 is not 0 or 1",
        ),
        (
            ParameterError::ExtentDType { field: "padding", dtype: "f32" },
            "padding must contain i64 extents, found f32",
        ),
        (
            ParameterError::ExtentPositive { field: "dilation", index: 0, value: 0 },
            "dilation extents must be strictly positive, found 0 at index 0",
        ),
        (
            ParameterError::ExtentNonNegative { field: "padding", index: 1, value: -1 },
            "padding extents must be non-negative, found -1 at index 1",
        ),
        (
            ParameterError::BiasLength { found: 1, expected: 2 },
            "bias length 1 is incompatible with 2 output channels",
        ),
    ];
    for (err, expected) in cases {
        assert_eq!(err.message(), expected);
    }
}

#[test]
fn read_limit_display() {
    let err = NirError::ReadLimitExceeded {
        context: "lif.tau".into(),
        limit: 1024,
        used: 768,
        requested: 512,
    };
    assert_eq!(
        err.message(),
        "read allocation limit exceeded at lif.tau: limit 1024 bytes, used 768 bytes, requested 512 bytes"
    );
}

#[test]
fn read_count_limit_display_identifies_resource_and_path() {
    let err = NirError::ReadCountLimitExceeded {
        resource: ReadLimitResource::Nodes,
        context: "/node/nodes".into(),
        limit: 3,
        used: 2,
        requested: 2,
    };
    assert_eq!(
        err.message(),
        "read limit exceeded for nodes at /node/nodes: limit 3, used 2, requested 2"
    );
    assert_eq!(ReadLimitResource::Edges.message(), "edges");
    assert_eq!(ReadLimitResource::NestedGraphs.message(), "nested graphs");
}

#[test]
fn io_display() {
    let err = NirError::Io("unable to open file: model.nir".into());
    assert_eq!(err.message(), "io error: unable to open file: model.nir");
}

#[test]
fn error_trait_implemented() {
    let err = NirError::Unimplemented("x");
    assert!(err.message().contains("not implemented"));
}

#[test]
fn remaining_parameter_error_messages() {
    assert_eq!(
        ParameterError::WeightExtentPositive { axis: 2 }.message(),
        "weight extents must be strictly positive, found 0 along axis 2"
    );
    assert_eq!(
        ParameterError::BiasRank { found: 2 }.message(),
        "bias rank 2 is not 1"
    );
}

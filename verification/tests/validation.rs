//! Convolution and pooling parameter validation.

use nir_rs::nodes::{
    Affine, AvgPool2d, Conv1d, Conv2d, Input, Lif, NirNode, Output, Padding, SumPool2d,
};
use nir_rs::types::{MetadataMap, Tensor};
use nir_rs::validation::ANONYMOUS_NODE;
use nir_rs::{NirError, NirGraph, ParameterError};

fn f32s(shape: Vec<usize>, data: Vec<f32>) -> Tensor {
    Tensor::from_f32_bits(shape, data.iter().map(|x| x.to_bits()).collect()).unwrap()
}

fn scalar_f64(v: f64) -> Tensor {
    Tensor::scalar_f64_bits(v.to_bits())
}

fn conv1d_ok() -> Conv1d {
    Conv1d {
        weight: f32s(vec![2, 1, 3], vec![0.; 6]),
        stride: vec![1],
        padding: Padding::Valid,
        dilation: vec![1],
        groups: 1,
        bias: f32s(vec![2], vec![0., 0.]),
        input_shape: Some(8),
        metadata: Default::default(),
    }
}

fn conv2d_ok() -> Conv2d {
    Conv2d {
        weight: f32s(vec![4, 2, 3, 3], vec![0.; 72]),
        stride: vec![1, 1],
        padding: Padding::pair(0, 0),
        dilation: vec![1, 1],
        groups: 1,
        bias: f32s(vec![4], vec![0.; 4]),
        input_shape: Some(vec![8, 8]),
        metadata: Default::default(),
    }
}

fn pool_ok() -> (Tensor, Tensor, Tensor) {
    (
        Tensor::from_i64(vec![2], vec![2, 2]).unwrap(),
        Tensor::from_i64(vec![2], vec![2, 2]).unwrap(),
        Tensor::from_i64(vec![2], vec![0, 0]).unwrap(),
    )
}

fn sum_pool_ok() -> SumPool2d {
    let (kernel_size, stride, padding) = pool_ok();
    SumPool2d { kernel_size, stride, padding, metadata: Default::default() }
}

fn avg_pool_ok() -> AvgPool2d {
    let (kernel_size, stride, padding) = pool_ok();
    AvgPool2d { kernel_size, stride, padding, metadata: Default::default() }
}

fn assert_kind(node: NirNode, expected: ParameterError) {
    let err = node.validate_parameters().unwrap_err();
    match err {
        NirError::InvalidNodeParameters { kind, .. } => assert_eq!(kind, expected),
        other => panic!("expected InvalidNodeParameters, got {other:?}"),
    }
}

fn assert_ok(node: NirNode) {
    node.validate_parameters().unwrap_or_else(|e| panic!("expected Ok, got {}", e.message()));
}

#[derive(Clone, Copy)]
enum Expect {
    Pass,
    Fail(&'static str),
}

fn with_conv1d(f: impl FnOnce(&mut Conv1d)) -> NirNode {
    let mut conv = conv1d_ok();
    f(&mut conv);
    NirNode::Conv1d(conv)
}

fn with_conv2d(f: impl FnOnce(&mut Conv2d)) -> NirNode {
    let mut conv = conv2d_ok();
    f(&mut conv);
    NirNode::Conv2d(conv)
}

/// Rejection and acceptance classes, keyed by a stable case name.
fn cases() -> Vec<(&'static str, NirNode, Expect)> {
    vec![
        ("conv1d_valid_padding", NirNode::Conv1d(conv1d_ok()), Expect::Pass),
        ("conv1d_same_padding", with_conv1d(|c| c.padding = Padding::Same), Expect::Pass),
        ("conv1d_explicit_padding", with_conv1d(|c| c.padding = Padding::single(1)), Expect::Pass),
        (
            "conv1d_depthwise",
            with_conv1d(|c| {
                c.weight = f32s(vec![4, 1, 3], vec![0.; 12]);
                c.groups = 4;
                c.bias = f32s(vec![4], vec![0.; 4]);
            }),
            Expect::Pass,
        ),
        ("conv2d_explicit_pair", NirNode::Conv2d(conv2d_ok()), Expect::Pass),
        ("conv2d_same_padding", with_conv2d(|c| c.padding = Padding::Same), Expect::Pass),
        ("conv2d_valid_padding", with_conv2d(|c| c.padding = Padding::Valid), Expect::Pass),
        (
            "conv2d_scalar_stride_dilation_padding",
            with_conv2d(|c| {
                c.stride = vec![2];
                c.dilation = vec![1];
                c.padding = Padding::single(0);
            }),
            Expect::Pass,
        ),
        (
            "conv2d_grouped",
            with_conv2d(|c| {
                c.weight = f32s(vec![8, 2, 3, 3], vec![0.; 144]);
                c.groups = 4;
                c.bias = f32s(vec![8], vec![0.; 8]);
            }),
            Expect::Pass,
        ),
        (
            "conv2d_depthwise",
            with_conv2d(|c| {
                c.weight = f32s(vec![6, 1, 3, 3], vec![0.; 54]);
                c.groups = 6;
                c.bias = f32s(vec![6], vec![0.; 6]);
            }),
            Expect::Pass,
        ),
        ("sum_pool2d_ok", NirNode::SumPool2d(sum_pool_ok()), Expect::Pass),
        ("avg_pool2d_ok", NirNode::AvgPool2d(avg_pool_ok()), Expect::Pass),
        (
            "pool_scalar_windows",
            NirNode::SumPool2d(SumPool2d {
                kernel_size: Tensor::scalar_i64(3),
                stride: Tensor::scalar_i64(2),
                padding: Tensor::scalar_i64(0),
                metadata: Default::default(),
            }),
            Expect::Pass,
        ),
        (
            "affine_skipped",
            NirNode::Affine(Affine {
                weight: f32s(vec![2, 2], vec![0.; 4]),
                bias: f32s(vec![2], vec![0., 0.]),
                metadata: Default::default(),
            }),
            Expect::Pass,
        ),
        (
            "input_skipped",
            NirNode::Input(Input { shape: vec![1], metadata: Default::default() }),
            Expect::Pass,
        ),
        (
            "conv1d_weight_rank",
            with_conv1d(|c| c.weight = f32s(vec![2, 3], vec![0.; 6])),
            Expect::Fail("weight rank"),
        ),
        (
            "conv2d_weight_rank",
            with_conv2d(|c| c.weight = f32s(vec![4, 2, 3], vec![0.; 24])),
            Expect::Fail("weight rank"),
        ),
        ("conv1d_groups_zero", with_conv1d(|c| c.groups = 0), Expect::Fail("groups must be > 0")),
        (
            "conv2d_groups_negative",
            with_conv2d(|c| c.groups = -1),
            Expect::Fail("groups must be > 0"),
        ),
        (
            "conv1d_groups_not_dividing_out_channels",
            with_conv1d(|c| {
                c.weight = f32s(vec![3, 1, 3], vec![0.; 9]);
                c.groups = 2;
                c.bias = f32s(vec![3], vec![0.; 3]);
            }),
            Expect::Fail("not divisible by groups"),
        ),
        (
            "conv2d_groups_not_dividing_out_channels",
            with_conv2d(|c| {
                c.weight = f32s(vec![3, 1, 3, 3], vec![0.; 27]);
                c.groups = 2;
                c.bias = f32s(vec![3], vec![0.; 3]);
            }),
            Expect::Fail("not divisible by groups"),
        ),
        ("conv1d_stride_arity", with_conv1d(|c| c.stride = vec![1, 1]), Expect::Fail("stride arity")),
        ("conv1d_stride_zero", with_conv1d(|c| c.stride = vec![0]), Expect::Fail("strictly positive")),
        ("conv1d_dilation_empty", with_conv1d(|c| c.dilation = vec![]), Expect::Fail("dilation arity")),
        (
            "conv1d_dilation_negative",
            with_conv1d(|c| c.dilation = vec![-1]),
            Expect::Fail("strictly positive"),
        ),
        (
            "conv2d_stride_arity",
            with_conv2d(|c| c.stride = vec![1, 1, 1]),
            Expect::Fail("stride arity"),
        ),
        (
            "conv2d_dilation_zero",
            with_conv2d(|c| c.dilation = vec![1, 0]),
            Expect::Fail("strictly positive"),
        ),
        (
            "conv1d_padding_arity",
            with_conv1d(|c| c.padding = Padding::pair(0, 0)),
            Expect::Fail("padding arity"),
        ),
        (
            "conv1d_padding_negative",
            with_conv1d(|c| c.padding = Padding::single(-1)),
            Expect::Fail("non-negative"),
        ),
        (
            "conv2d_padding_arity",
            with_conv2d(|c| c.padding = Padding::Explicit(vec![1, 1, 1])),
            Expect::Fail("padding arity"),
        ),
        (
            "conv2d_padding_negative",
            with_conv2d(|c| c.padding = Padding::pair(0, -2)),
            Expect::Fail("non-negative"),
        ),
        (
            "conv1d_bias_length",
            with_conv1d(|c| c.bias = f32s(vec![1], vec![0.])),
            Expect::Fail("bias length"),
        ),
        (
            "conv2d_bias_length",
            with_conv2d(|c| c.bias = f32s(vec![2], vec![0., 0.])),
            Expect::Fail("bias length"),
        ),
        (
            "sum_pool_kernel_zero",
            {
                let mut pool = sum_pool_ok();
                pool.kernel_size = Tensor::from_i64(vec![2], vec![0, 2]).unwrap();
                NirNode::SumPool2d(pool)
            },
            Expect::Fail("strictly positive"),
        ),
        (
            "sum_pool_stride_negative",
            {
                let mut pool = sum_pool_ok();
                pool.stride = Tensor::from_i64(vec![2], vec![2, -1]).unwrap();
                NirNode::SumPool2d(pool)
            },
            Expect::Fail("strictly positive"),
        ),
        (
            "sum_pool_padding_negative",
            {
                let mut pool = sum_pool_ok();
                pool.padding = Tensor::from_i64(vec![2], vec![0, -1]).unwrap();
                NirNode::SumPool2d(pool)
            },
            Expect::Fail("non-negative"),
        ),
        (
            "sum_pool_kernel_arity",
            {
                let mut pool = sum_pool_ok();
                pool.kernel_size = Tensor::from_i64(vec![3], vec![2, 2, 2]).unwrap();
                NirNode::SumPool2d(pool)
            },
            Expect::Fail("kernel_size arity"),
        ),
        (
            "sum_pool_kernel_rank",
            {
                let mut pool = sum_pool_ok();
                pool.kernel_size = Tensor::from_i64(vec![1, 2], vec![2, 2]).unwrap();
                NirNode::SumPool2d(pool)
            },
            Expect::Fail("kernel_size rank"),
        ),
        (
            "avg_pool_stride_dtype",
            {
                let mut pool = avg_pool_ok();
                pool.stride = f32s(vec![2], vec![2.0, 2.0]);
                NirNode::AvgPool2d(pool)
            },
            Expect::Fail("i64 extents"),
        ),
        (
            "avg_pool_padding_arity",
            {
                let mut pool = avg_pool_ok();
                pool.padding = Tensor::from_i64(vec![0], vec![]).unwrap();
                NirNode::AvgPool2d(pool)
            },
            Expect::Fail("padding arity"),
        ),
    ]
}

#[test]
fn validation_table_covers_every_acceptance_and_rejection_class() {
    let table = cases();
    let names: Vec<&str> = table.iter().map(|(name, _, _)| *name).collect();
    for needle in [
        "depthwise",
        "grouped",
        "same_padding",
        "valid_padding",
        "weight_rank",
        "groups_zero",
        "not_dividing",
        "stride",
        "dilation",
        "padding_negative",
        "bias_length",
        "kernel_zero",
        "dtype",
    ] {
        assert!(names.iter().any(|n| n.contains(needle)), "{needle}");
    }

    for (name, node, expect) in table {
        match expect {
            Expect::Pass => assert_ok(node),
            Expect::Fail(needle) => {
                let err = node.validate_parameters().unwrap_err();
                let msg = err.message();
                assert!(msg.contains(needle), "{name}: expected {needle:?} in {msg:?}");
                assert!(
                    matches!(err, NirError::InvalidNodeParameters { .. }),
                    "{name}: typed InvalidNodeParameters, got {err:?}"
                );
            }
        }
    }
}

#[test]
fn validation_empty_graph_ok() {
    NirGraph::new().validate_parameters().unwrap();
}

#[test]
fn validation_error_is_node_qualified() {
    let mut conv = conv1d_ok();
    conv.groups = 0;
    let mut g = NirGraph::new();
    g.insert_node("encoder".into(), NirNode::Conv1d(conv)).unwrap();
    g.validate_structure().unwrap();
    let err = g.validate_parameters().unwrap_err();
    match err {
        NirError::InvalidNodeParameters {
            node,
            node_type,
            kind: ParameterError::Groups { found: 0 },
        } => {
            assert_eq!(node, "encoder");
            assert_eq!(node_type, "Conv1d");
        }
        other => panic!("unexpected {other:?}"),
    }
}

#[test]
fn validation_nested_graph_uses_slash_path() {
    let mut conv = conv2d_ok();
    conv.padding = Padding::pair(-1, 0);
    let mut inner = NirGraph::new();
    inner.insert_node("conv".into(), NirNode::Conv2d(conv)).unwrap();

    let mut outer = NirGraph::new();
    outer.insert_node("encoder".into(), NirNode::Graph(Box::new(inner))).unwrap();
    outer
        .insert_node(
            "out".into(),
            NirNode::Output(Output { shape: vec![1], metadata: Default::default() }),
        )
        .unwrap();

    let err = outer.validate_parameters().unwrap_err();
    match err {
        NirError::InvalidNodeParameters { node, node_type, .. } => {
            assert_eq!(node, "encoder/conv");
            assert_eq!(node_type, "Conv2d");
        }
        other => panic!("unexpected {other:?}"),
    }
}

#[test]
fn structure_validation_ignores_bad_conv_parameters() {
    let mut conv = conv1d_ok();
    conv.groups = 0;
    conv.stride = vec![0];
    let mut g = NirGraph::new();
    g.insert_node(
        "in".into(),
        NirNode::Input(Input { shape: vec![1], metadata: Default::default() }),
    )
    .unwrap();
    g.insert_node("conv".into(), NirNode::Conv1d(conv)).unwrap();
    g.add_edge("in".into(), "conv".into());
    g.validate_structure()
        .expect("structure must stay independent of parameter invariants");
    assert!(g.validate_parameters().is_err());
}

#[test]
fn validation_typed_kinds_match_specific_invariants() {
    let mut conv = conv1d_ok();
    conv.weight = f32s(vec![2, 3], vec![0.; 6]);
    assert_kind(NirNode::Conv1d(conv), ParameterError::WeightRank { found: 2, expected: 3 });

    let mut conv = conv2d_ok();
    conv.bias = f32s(vec![1], vec![0.]);
    assert_kind(NirNode::Conv2d(conv), ParameterError::BiasLength { found: 1, expected: 4 });

    let mut pool = sum_pool_ok();
    pool.kernel_size = Tensor::from_i64(vec![1, 2], vec![2, 2]).unwrap();
    assert_kind(
        NirNode::SumPool2d(pool),
        ParameterError::ExtentRank { field: "kernel_size", found: 2 },
    );
}

fn conv1d_plain() -> Conv1d {
    let mut conv = conv1d_ok();
    conv.input_shape = None;
    conv.metadata = MetadataMap::default();
    conv
}

#[test]
fn anonymous_leaf_uses_sentinel_name() {
    let mut conv = conv1d_plain();
    conv.groups = 0;
    let err = NirNode::Conv1d(conv).validate_parameters().unwrap_err();
    match err {
        NirError::InvalidNodeParameters { node, node_type, .. } => {
            assert_eq!(node, ANONYMOUS_NODE);
            assert_eq!(node_type, "Conv1d");
        }
        other => panic!("expected InvalidNodeParameters, got {other:?}"),
    }
}

#[test]
fn non_conv_nodes_are_skipped() {
    let node = NirNode::Input(Input { shape: vec![4], metadata: MetadataMap::default() });
    node.validate_parameters().unwrap();

    let lif = NirNode::Lif(Lif {
        tau: scalar_f64(1.0),
        r: scalar_f64(1.0),
        v_leak: scalar_f64(0.0),
        v_threshold: scalar_f64(1.0),
        v_reset: None,
        metadata: MetadataMap::default(),
    });
    lif.validate_parameters().unwrap();
}

#[test]
fn zero_extent_in_weight_is_rejected() {
    let mut conv = conv1d_plain();
    conv.weight = f32s(vec![2, 1, 0], vec![]);
    let err = NirNode::Conv1d(conv).validate_parameters().unwrap_err();
    match err {
        NirError::InvalidNodeParameters { kind, .. } => {
            assert_eq!(kind, ParameterError::WeightExtentPositive { axis: 2 });
        }
        other => panic!("expected InvalidNodeParameters, got {other:?}"),
    }
}

#[test]
fn non_1d_bias_is_rejected_even_with_matching_numel() {
    let mut conv = conv1d_plain();
    conv.bias = f32s(vec![2, 1], vec![0., 0.]);
    let err = NirNode::Conv1d(conv).validate_parameters().unwrap_err();
    match err {
        NirError::InvalidNodeParameters { kind, .. } => {
            assert_eq!(kind, ParameterError::BiasRank { found: 2 });
        }
        other => panic!("expected InvalidNodeParameters, got {other:?}"),
    }
}

#[test]
fn nesting_beyond_limit_in_validate_parameters_is_rejected() {
    let mut curr = NirGraph::default();
    for i in 0..=NirGraph::MAX_NESTING_DEPTH {
        let mut parent = NirGraph::default();
        parent.nodes.insert(format!("sub_{i}"), NirNode::Graph(Box::new(curr)));
        curr = parent;
    }
    let err = curr.validate_parameters().unwrap_err();
    match err {
        NirError::InvalidGraph(msg) => assert!(msg.contains("nesting depth")),
        other => panic!("expected InvalidGraph, got {other:?}"),
    }
}

#[test]
fn first_failing_check_is_reported() {
    let mut conv = conv1d_ok();
    conv.groups = 0;
    conv.stride = vec![0];
    assert_kind(NirNode::Conv1d(conv), ParameterError::Groups { found: 0 });

    let mut conv = conv2d_ok();
    conv.stride = vec![0, 1];
    conv.padding = Padding::pair(-1, 0);
    assert_kind(
        NirNode::Conv2d(conv),
        ParameterError::ExtentPositive { field: "stride", index: 0, value: 0 },
    );
}

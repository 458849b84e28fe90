//! Node kinds and the wire vocabulary.

use nir_rs::io::wire::{
    check_hdf5_string, check_link_name, check_node_name, is_wire_type, padding_as_wire_str,
    padding_from_wire_str, WIRE_TYPES,
};
use nir_rs::nodes::{
    Affine, AvgPool2d, Conv1d, Conv2d, CubaLi, CubaLif, Delay, Flatten, Input, Lif, Li, Linear,
    Output, Padding, Scale, SumPool2d, Threshold, I, If,
};
use nir_rs::{NirError, NirGraph, NirNode, Tensor};

fn f32s(shape: Vec<usize>, data: Vec<f32>) -> Tensor {
    Tensor::from_f32_bits(shape, data.iter().map(|x| x.to_bits()).collect()).unwrap()
}

fn f64s(shape: Vec<usize>, data: Vec<f64>) -> Tensor {
    Tensor::from_f64_bits(shape, data.iter().map(|x| x.to_bits()).collect()).unwrap()
}

fn scalar_f64(v: f64) -> Tensor {
    Tensor::scalar_f64_bits(v.to_bits())
}

fn sample_weight() -> Tensor {
    f32s(vec![2, 4], vec![0.0; 8])
}

fn sample_bias() -> Tensor {
    f32s(vec![2], vec![0.0, 0.0])
}

fn sample_vec3() -> Tensor {
    f64s(vec![3], vec![1.0, 1.0, 1.0])
}

#[test]
fn all_type_names_match_wire_strings() {
    let cases: Vec<(&str, NirNode)> = vec![
        ("Input", NirNode::Input(Input { shape: vec![1, 4], metadata: Default::default() })),
        ("Output", NirNode::Output(Output { shape: vec![1, 2], metadata: Default::default() })),
        (
            "Affine",
            NirNode::Affine(Affine {
                weight: sample_weight(),
                bias: sample_bias(),
                metadata: Default::default(),
            }),
        ),
        ("Linear", NirNode::Linear(Linear { weight: sample_weight(), metadata: Default::default() })),
        ("Scale", NirNode::Scale(Scale { scale: sample_vec3(), metadata: Default::default() })),
        (
            "Conv1d",
            NirNode::Conv1d(Conv1d {
                weight: f32s(vec![1, 1, 3], vec![1., 0., -1.]),
                stride: vec![1],
                padding: Padding::single(0),
                dilation: vec![1],
                groups: 1,
                bias: f32s(vec![1], vec![0.]),
                input_shape: Some(10),
                metadata: Default::default(),
            }),
        ),
        (
            "Conv2d",
            NirNode::Conv2d(Conv2d {
                weight: f32s(vec![1, 1, 3, 3], vec![0.; 9]),
                stride: vec![1, 1],
                padding: Padding::Same,
                dilation: vec![1, 1],
                groups: 1,
                bias: f32s(vec![1], vec![0.]),
                input_shape: Some(vec![28, 28]),
                metadata: Default::default(),
            }),
        ),
        (
            "CubaLI",
            NirNode::CubaLi(CubaLi {
                tau_syn: sample_vec3(),
                tau_mem: sample_vec3(),
                r: sample_vec3(),
                v_leak: f64s(vec![3], vec![0., 0., 0.]),
                w_in: Some(f64s(vec![3], vec![1., 1., 1.])),
                metadata: Default::default(),
            }),
        ),
        (
            "CubaLIF",
            NirNode::CubaLif(CubaLif {
                tau_syn: sample_vec3(),
                tau_mem: sample_vec3(),
                r: sample_vec3(),
                v_leak: f64s(vec![3], vec![0., 0., 0.]),
                v_threshold: f64s(vec![3], vec![1., 1., 1.]),
                v_reset: None,
                w_in: Some(f64s(vec![3], vec![1., 1., 1.])),
                metadata: Default::default(),
            }),
        ),
        ("Delay", NirNode::Delay(Delay { delay: scalar_f64(1.0), metadata: Default::default() })),
        (
            "Flatten",
            NirNode::Flatten(Flatten {
                start_dim: 1,
                end_dim: -1,
                input_type: Some(vec![1, 4, 4]),
                metadata: Default::default(),
            }),
        ),
        ("I", NirNode::I(I { r: sample_vec3(), metadata: Default::default() })),
        (
            "IF",
            NirNode::If(If {
                r: sample_vec3(),
                v_threshold: f64s(vec![3], vec![1., 1., 1.]),
                v_reset: None,
                metadata: Default::default(),
            }),
        ),
        (
            "LI",
            NirNode::Li(Li {
                tau: sample_vec3(),
                r: sample_vec3(),
                v_leak: f64s(vec![3], vec![0., 0., 0.]),
                metadata: Default::default(),
            }),
        ),
        (
            "LIF",
            NirNode::Lif(Lif {
                tau: sample_vec3(),
                r: sample_vec3(),
                v_leak: f64s(vec![3], vec![0., 0., 0.]),
                v_threshold: f64s(vec![3], vec![1., 1., 1.]),
                v_reset: Some(f64s(vec![3], vec![0., 0., 0.])),
                metadata: Default::default(),
            }),
        ),
        (
            "SumPool2d",
            NirNode::SumPool2d(SumPool2d {
                kernel_size: Tensor::from_i64(vec![2], vec![2, 2]).unwrap(),
                stride: Tensor::from_i64(vec![2], vec![2, 2]).unwrap(),
                padding: Tensor::from_i64(vec![2], vec![0, 0]).unwrap(),
                metadata: Default::default(),
            }),
        ),
        (
            "AvgPool2d",
            NirNode::AvgPool2d(AvgPool2d {
                kernel_size: Tensor::from_i64(vec![2], vec![2, 2]).unwrap(),
                stride: Tensor::from_i64(vec![2], vec![2, 2]).unwrap(),
                padding: Tensor::from_i64(vec![2], vec![0, 0]).unwrap(),
                metadata: Default::default(),
            }),
        ),
        (
            "Threshold",
            NirNode::Threshold(Threshold { threshold: scalar_f64(1.0), metadata: Default::default() }),
        ),
        ("NIRGraph", NirNode::Graph(Box::new(NirGraph::new()))),
    ];

    assert_eq!(cases.len(), 19, "expected all wire node types");
    for (wire, node) in cases {
        assert_eq!(node.wire_type_name(), wire);
    }
}

#[test]
fn padding_helpers() {
    assert_eq!(Padding::single(1), Padding::Explicit(vec![1]));
    assert_eq!(Padding::pair(1, 2), Padding::Explicit(vec![1, 2]));
    let _ = Padding::Same;
    let _ = Padding::Valid;
}

#[test]
fn never_use_marketing_aliases() {
    let names: Vec<&str> = [
        NirNode::CubaLif(CubaLif {
            tau_syn: scalar_f64(1.0),
            tau_mem: scalar_f64(1.0),
            r: scalar_f64(1.0),
            v_leak: scalar_f64(0.0),
            v_threshold: scalar_f64(1.0),
            v_reset: None,
            w_in: Some(scalar_f64(1.0)),
            metadata: Default::default(),
        }),
        NirNode::Conv2d(Conv2d {
            weight: f32s(vec![1, 1, 1, 1], vec![1.]),
            stride: vec![1, 1],
            padding: Padding::Valid,
            dilation: vec![1, 1],
            groups: 1,
            bias: f32s(vec![1], vec![0.]),
            input_shape: None,
            metadata: Default::default(),
        }),
        NirNode::I(I { r: scalar_f64(1.0), metadata: Default::default() }),
        NirNode::SumPool2d(SumPool2d {
            kernel_size: Tensor::from_i64(vec![2], vec![2, 2]).unwrap(),
            stride: Tensor::from_i64(vec![2], vec![2, 2]).unwrap(),
            padding: Tensor::from_i64(vec![2], vec![0, 0]).unwrap(),
            metadata: Default::default(),
        }),
    ]
    .iter()
    .map(|n| n.wire_type_name())
    .collect();

    assert_eq!(names, ["CubaLIF", "Conv2d", "I", "SumPool2d"]);
    for n in names {
        assert!(!n.contains("Curr"));
        assert!(!n.contains("Convolution"));
        assert!(!n.contains("Integrator"));
        assert!(!n.contains("Pooling"));
    }
}

fn v() -> Tensor {
    f64s(vec![2], vec![1.0, 1.0])
}

fn pool() -> Tensor {
    Tensor::from_i64(vec![2], vec![2, 2]).unwrap()
}

/// One value per `NirNode` variant, in `WIRE_TYPES` order.
fn one_of_each() -> Vec<NirNode> {
    let weight = || f32s(vec![2, 2], vec![1., 0., 0., 1.]);
    let no_pad = || Tensor::from_i64(vec![2], vec![0, 0]).unwrap();
    vec![
        NirNode::Input(Input { shape: vec![2], metadata: Default::default() }),
        NirNode::Output(Output { shape: vec![2], metadata: Default::default() }),
        NirNode::Affine(Affine {
            weight: weight(),
            bias: f32s(vec![2], vec![0., 0.]),
            metadata: Default::default(),
        }),
        NirNode::Linear(Linear { weight: weight(), metadata: Default::default() }),
        NirNode::Scale(Scale { scale: v(), metadata: Default::default() }),
        NirNode::Conv1d(Conv1d {
            weight: f32s(vec![1, 1, 3], vec![1., 0., -1.]),
            stride: vec![1],
            padding: Padding::single(0),
            dilation: vec![1],
            groups: 1,
            bias: f32s(vec![1], vec![0.]),
            input_shape: Some(10),
            metadata: Default::default(),
        }),
        NirNode::Conv2d(Conv2d {
            weight: f32s(vec![1, 1, 2, 2], vec![0.; 4]),
            stride: vec![1, 1],
            padding: Padding::Same,
            dilation: vec![1, 1],
            groups: 1,
            bias: f32s(vec![1], vec![0.]),
            input_shape: Some(vec![8, 8]),
            metadata: Default::default(),
        }),
        NirNode::CubaLi(CubaLi {
            tau_syn: v(),
            tau_mem: v(),
            r: v(),
            v_leak: v(),
            w_in: None,
            metadata: Default::default(),
        }),
        NirNode::CubaLif(CubaLif {
            tau_syn: v(),
            tau_mem: v(),
            r: v(),
            v_leak: v(),
            v_threshold: v(),
            v_reset: None,
            w_in: None,
            metadata: Default::default(),
        }),
        NirNode::Delay(Delay { delay: v(), metadata: Default::default() }),
        NirNode::Flatten(Flatten {
            start_dim: 1,
            end_dim: -1,
            input_type: None,
            metadata: Default::default(),
        }),
        NirNode::I(I { r: v(), metadata: Default::default() }),
        NirNode::If(If { r: v(), v_threshold: v(), v_reset: None, metadata: Default::default() }),
        NirNode::Li(Li { tau: v(), r: v(), v_leak: v(), metadata: Default::default() }),
        NirNode::Lif(Lif {
            tau: v(),
            r: v(),
            v_leak: v(),
            v_threshold: v(),
            v_reset: None,
            metadata: Default::default(),
        }),
        NirNode::SumPool2d(SumPool2d {
            kernel_size: pool(),
            stride: pool(),
            padding: no_pad(),
            metadata: Default::default(),
        }),
        NirNode::AvgPool2d(AvgPool2d {
            kernel_size: pool(),
            stride: pool(),
            padding: no_pad(),
            metadata: Default::default(),
        }),
        NirNode::Threshold(Threshold { threshold: v(), metadata: Default::default() }),
        NirNode::Graph(Box::new(NirGraph::new())),
    ]
}

#[test]
fn wire_types_matches_every_node_variant() {
    let nodes = one_of_each();
    let names: Vec<&str> = nodes.iter().map(|n| n.wire_type_name()).collect();
    assert_eq!(names, WIRE_TYPES, "WIRE_TYPES must list exactly the NirNode variants, in order");
}

#[test]
fn is_wire_type_rejects_marketing_aliases() {
    for good in WIRE_TYPES {
        assert!(is_wire_type(good), "{good} should be a wire type");
    }
    for bad in ["CurrLIF", "Convolution", "Integrator", "SumPooling", ""] {
        assert!(!is_wire_type(bad), "{bad} must not be a wire type");
    }
}

#[test]
fn padding_wire_strings_round_trip() {
    assert_eq!(padding_as_wire_str(&Padding::Same), Some("same"));
    assert_eq!(padding_as_wire_str(&Padding::Valid), Some("valid"));
    assert_eq!(padding_as_wire_str(&Padding::pair(1, 1)), None);
    assert_eq!(padding_from_wire_str("same").unwrap(), Padding::Same);
    assert_eq!(padding_from_wire_str("valid").unwrap(), Padding::Valid);
}

#[test]
fn padding_from_unknown_string_is_rejected() {
    let err = padding_from_wire_str("SAME").unwrap_err();
    assert!(matches!(err, NirError::InvalidGraph(_)));
    assert!(err.message().contains("\"SAME\""));
}

#[test]
fn node_names_with_dots_are_allowed() {
    assert!(check_node_name("lif1.lif").is_ok());
    assert!(check_node_name("0").is_ok());
}

#[test]
fn illegal_node_names_are_rejected() {
    for bad in ["", "a/b", ".", "..", "nul\0inside"] {
        let err = check_node_name(bad).unwrap_err();
        assert!(matches!(err, NirError::InvalidGraph(_)), "{bad:?} should be rejected");
    }
}

#[test]
fn link_name_messages_name_the_kind_and_the_reason() {
    assert_eq!(
        check_link_name("metadata key", "").unwrap_err().message(),
        "invalid graph: metadata key must not be empty"
    );
    assert_eq!(
        check_link_name("metadata key", "nested/key").unwrap_err().message(),
        "invalid graph: metadata key \"nested/key\" must not contain '/' (HDF5 path separator)"
    );
    assert_eq!(
        check_node_name("..").unwrap_err().message(),
        "invalid graph: node name \"..\" is a reserved HDF5 path component"
    );
    let nul = check_link_name("metadata key", "bad\0key").unwrap_err().message();
    assert!(nul.contains("metadata key") && nul.contains("NUL"), "{nul}");
}

#[test]
fn hdf5_strings_reject_only_nul() {
    assert!(check_hdf5_string("edge source", "a/b .. ").is_ok());
    let err = check_hdf5_string("version", "1.0\0").unwrap_err();
    assert!(matches!(err, NirError::InvalidGraph(_)));
    assert!(err.message().contains("version") && err.message().contains("NUL"));
}

#[test]
fn every_kind_of_node_has_a_wire_type() {
    for node in one_of_each() {
        assert!(is_wire_type(node.wire_type_name()));
    }
}

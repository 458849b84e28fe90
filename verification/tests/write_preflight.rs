//! What a writer checks before touching the filesystem, and how it shapes
//! values on the wire.

use nir_rs::io::decode::pair_edges;
use nir_rs::io::encode::{
    conv_extent_layout, deflate_level, flatten_edges, to_i64, usizes_to_i64s, ExtentLayout, Rank,
};
use nir_rs::io::preflight::{
    check_compression, check_names, check_node_tensor_ranks, check_representable, check_string_values,
    check_tensor_ranks, check_usize_fields, choose_version, preflight,
};
use nir_rs::io::{WriteOptions, DEFAULT_NIR_VERSION};
use nir_rs::nodes::{Conv1d, Conv2d, If, Input, Output, Padding};
use nir_rs::{MetadataMap, MetadataValue, NirError, NirGraph, NirNode, Tensor};

fn input(shape: Vec<usize>) -> NirNode {
    NirNode::Input(Input { shape, metadata: Default::default() })
}

fn output(shape: Vec<usize>) -> NirNode {
    NirNode::Output(Output { shape, metadata: Default::default() })
}

fn f32s(shape: Vec<usize>, data: Vec<f32>) -> Tensor {
    Tensor::from_f32_bits(shape, data.iter().map(|x| x.to_bits()).collect()).unwrap()
}

fn conv1d() -> Conv1d {
    Conv1d {
        weight: f32s(vec![1, 1, 3], vec![1., 0., -1.]),
        stride: vec![1],
        padding: Padding::single(0),
        dilation: vec![1],
        groups: 1,
        bias: f32s(vec![1], vec![0.]),
        input_shape: Some(10),
        metadata: Default::default(),
    }
}

fn conv2d() -> Conv2d {
    Conv2d {
        weight: f32s(vec![1, 1, 2, 2], vec![0.; 4]),
        stride: vec![1, 1],
        padding: Padding::Same,
        dilation: vec![1, 1],
        groups: 1,
        bias: f32s(vec![1], vec![0.]),
        input_shape: Some(vec![8, 8]),
        metadata: Default::default(),
    }
}

fn valid_graph() -> NirGraph {
    let mut g = NirGraph::new();
    g.insert_node("in".into(), input(vec![2])).unwrap();
    g.insert_node("out".into(), output(vec![2])).unwrap();
    g.add_edge("in".into(), "out".into());
    g
}

fn message(r: Result<impl std::fmt::Debug, NirError>) -> String {
    r.unwrap_err().message()
}

#[test]
fn preflight_of_a_valid_graph_returns_the_default_version() {
    assert_eq!(preflight(&valid_graph(), &WriteOptions::default()), Ok(DEFAULT_NIR_VERSION.to_string()));
}

#[test]
fn version_precedence_is_option_then_graph_then_default() {
    let mut g = valid_graph();
    assert_eq!(choose_version(&g, &WriteOptions::default()), DEFAULT_NIR_VERSION);
    g.version = Some("0.2.0".into());
    assert_eq!(choose_version(&g, &WriteOptions::default()), "0.2.0");
    let opts = WriteOptions::default().with_version("9.9.9");
    assert_eq!(choose_version(&g, &opts), "9.9.9");
    assert_eq!(preflight(&g, &opts), Ok("9.9.9".to_string()));
}

#[test]
fn node_name_with_a_slash_is_rejected_before_writing() {
    let mut g = NirGraph::new();
    g.insert_node("a/b".into(), input(vec![1])).unwrap();
    let msg = message(preflight(&g, &WriteOptions::default().with_validation(false)));
    assert!(msg.contains("a/b") && msg.contains("'/'"), "{msg}");
}

#[test]
fn illegal_name_inside_a_subgraph_is_rejected() {
    let mut inner = NirGraph::new();
    inner.insert_node("..".into(), input(vec![1])).unwrap();
    let mut g = NirGraph::new();
    g.insert_node("sub".into(), NirNode::Graph(Box::new(inner))).unwrap();
    assert_eq!(
        message(check_names(&g)),
        "invalid graph: node name \"..\" is a reserved HDF5 path component"
    );
}

#[test]
fn metadata_keys_are_checked_on_graph_and_nodes() {
    let mut g = valid_graph();
    g.metadata.insert("nested/key".into(), MetadataValue::I64(1));
    let msg = message(check_names(&g));
    assert!(msg.contains("metadata key") && msg.contains("nested/key"), "{msg}");

    let mut node_metadata = MetadataMap::new();
    node_metadata.insert("bad\0key".into(), MetadataValue::I64(1));
    let mut h = NirGraph::new();
    h.insert_node("in".into(), NirNode::Input(Input { shape: vec![1], metadata: node_metadata }))
        .unwrap();
    let msg = message(check_names(&h));
    assert!(msg.contains("metadata key") && msg.contains("NUL"), "{msg}");
}

#[test]
fn more_than_the_reader_bound_of_graphs_is_rejected() {
    let mut g = NirGraph::new();
    for i in 0..1023 {
        g.insert_node(format!("g{i}"), NirNode::Graph(Box::new(NirGraph::new()))).unwrap();
    }
    assert!(check_names(&g).is_ok(), "1024 graphs including the root fit");
    g.insert_node("one_more".into(), NirNode::Graph(Box::new(NirGraph::new()))).unwrap();
    assert_eq!(
        message(check_names(&g)),
        "invalid graph: more than 1024 nested NIRGraph groups"
    );
}

#[test]
fn dangling_edge_is_rejected_unless_validation_is_disabled() {
    let mut g = valid_graph();
    g.add_edge("in".into(), "ghost".into());
    assert_eq!(
        preflight(&g, &WriteOptions::default()),
        Err(NirError::MissingNode("ghost".into()))
    );
    assert!(preflight(&g, &WriteOptions::default().with_validation(false)).is_ok());
}

#[test]
fn rank_0_metadata_tensor_is_rejected_as_ambiguous() {
    let mut g = valid_graph();
    g.metadata.insert("t".into(), MetadataValue::Tensor(Tensor::scalar_i64(1)));
    let msg = message(check_representable(&g));
    assert!(msg.contains("rank-0") && msg.contains("graph metadata"), "{msg}");
    assert!(preflight(&g, &WriteOptions::default()).is_err());
    assert!(preflight(&g, &WriteOptions::default().with_validation(false)).is_ok());
}

#[test]
fn subgraph_carrying_a_version_is_rejected() {
    let mut inner = NirGraph::new();
    inner.version = Some("1.0.0".into());
    let mut g = NirGraph::new();
    g.insert_node("sub".into(), NirNode::Graph(Box::new(inner))).unwrap();
    let msg = message(check_representable(&g));
    assert!(msg.contains("sub") && msg.contains("version"), "{msg}");
}

#[test]
fn nul_in_strings_is_rejected() {
    let g = valid_graph();
    let msg = message(check_string_values(&g, "1.0\0"));
    assert!(msg.contains("version") && msg.contains("NUL"), "{msg}");

    let mut h = valid_graph();
    h.add_edge("in\0".into(), "out".into());
    assert!(message(check_string_values(&h, "1.0.8")).contains("edge source"));

    let mut m = valid_graph();
    m.metadata.insert("names".into(), MetadataValue::StringList(vec!["ok".into(), "b\0d".into()]));
    let msg = message(check_string_values(&m, "1.0.8"));
    assert!(msg.contains("graph metadata \"names\""), "{msg}");
}

#[test]
fn conv_extent_arity_is_checked_before_writing() {
    let mut c = conv1d();
    c.stride = vec![1, 1];
    let mut g = NirGraph::new();
    g.insert_node("c".into(), NirNode::Conv1d(c)).unwrap();
    assert_eq!(
        message(check_usize_fields(&g)),
        "invalid graph: Conv1d \"c\" stride must hold exactly one extent, found 2 values"
    );

    let mut c = conv2d();
    c.dilation = vec![1, 1, 1];
    let mut g = NirGraph::new();
    g.insert_node("c2".into(), NirNode::Conv2d(c)).unwrap();
    assert_eq!(
        message(check_usize_fields(&g)),
        "invalid graph: Conv2d \"c2\" dilation must hold one or two extents, found 3 values"
    );

    let mut c = conv2d();
    c.input_shape = Some(vec![8]);
    let mut g = NirGraph::new();
    g.insert_node("c3".into(), NirNode::Conv2d(c)).unwrap();
    assert_eq!(
        message(check_usize_fields(&g)),
        "invalid graph: Conv2d \"c3\" input_shape must hold a (N_x, N_y) pair, found 1 values"
    );
}

#[test]
fn oversized_extent_is_rejected() {
    if usize::BITS < 64 {
        return;
    }
    let mut g = NirGraph::new();
    g.insert_node("in".into(), input(vec![1, usize::MAX])).unwrap();
    assert_eq!(
        message(check_usize_fields(&g)),
        format!("invalid tensor: Input \"in\" shape: extent {} does not fit in i64", usize::MAX)
    );
}

#[test]
fn tensor_rank_limit() {
    let mut meta = MetadataMap::new();
    meta.insert("deep".into(), MetadataValue::Tensor(Tensor::from_i64(vec![1; 33], vec![0]).unwrap()));
    let mut g = NirGraph::new();
    g.insert_node("in".into(), NirNode::Input(Input { shape: vec![1], metadata: meta })).unwrap();
    assert_eq!(
        message(check_tensor_ranks(&g)),
        "invalid tensor: node \"in\" metadata.deep: rank 33 exceeds HDF5 limit of 32"
    );
    let mut ok = NirGraph::new();
    let mut meta = MetadataMap::new();
    meta.insert("fine".into(), MetadataValue::Tensor(Tensor::from_i64(vec![1; 32], vec![0]).unwrap()));
    ok.metadata = meta;
    assert!(check_tensor_ranks(&ok).is_ok());
}

#[test]
fn compression_level_out_of_range() {
    assert!(check_compression(None).is_ok());
    assert!(check_compression(Some(9)).is_ok());
    assert_eq!(
        message(check_compression(Some(10))),
        "invalid graph: compression level 10 is out of range (expected 0..=9)"
    );
    let mut opts = WriteOptions::default();
    opts.compression = Some(42);
    assert!(preflight(&valid_graph(), &opts).is_err());
}

#[test]
fn edges_flatten_row_major_and_pair_back() {
    let edges = vec![("a".to_string(), "b".to_string()), ("b".into(), "c".into())];
    let flat = flatten_edges(&edges);
    assert_eq!(flat, vec!["a", "b", "b", "c"]);
    assert_eq!(pair_edges(flat), edges);
}

#[test]
fn extents_convert_to_wire_integers() {
    assert_eq!(to_i64(7, "shape"), Ok(7));
    assert_eq!(usizes_to_i64s(&[1, 2, 3], "shape"), Ok(vec![1, 2, 3]));
    if usize::BITS == 64 {
        assert_eq!(
            usizes_to_i64s(&[1, usize::MAX], "input_type").unwrap_err().message(),
            format!("invalid tensor: input_type: axis length {} does not fit in i64", usize::MAX)
        );
    }
}

#[test]
fn conv_extents_take_the_upstream_shape() {
    assert_eq!(conv_extent_layout("stride", &[2], Rank::One), Ok(ExtentLayout::Scalar(2)));
    assert_eq!(conv_extent_layout("stride", &[2], Rank::Two), Ok(ExtentLayout::Array(vec![2, 2])));
    assert_eq!(conv_extent_layout("stride", &[2, 3], Rank::Two), Ok(ExtentLayout::Array(vec![2, 3])));
    assert_eq!(
        message(conv_extent_layout("padding", &[1, 1], Rank::One)),
        "invalid graph: Conv1d padding must hold exactly one extent, found 2 values"
    );
    assert_eq!(
        message(conv_extent_layout("dilation", &[], Rank::Two)),
        "invalid graph: Conv2d dilation must hold one or two extents, found 0 values"
    );
}

#[test]
fn only_chunkable_datasets_are_compressed() {
    assert_eq!(deflate_level(Some(4), 1, 10), Some(4));
    assert_eq!(deflate_level(Some(4), 0, 1), None);
    assert_eq!(deflate_level(Some(4), 2, 0), None);
    assert_eq!(deflate_level(None, 2, 4), None);
}

#[test]
fn node_tensor_ranks_report_the_first_field_over_the_limit() {
    let deep = || Tensor::from_i64(vec![1; 33], vec![0]).unwrap();
    let flat = || Tensor::from_i64(vec![1], vec![0]).unwrap();
    let node = NirNode::If(If {
        r: flat(),
        v_threshold: deep(),
        v_reset: Some(deep()),
        metadata: MetadataMap::new(),
    });
    assert_eq!(
        check_node_tensor_ranks(&node, "If \"n\"").unwrap_err().message(),
        "invalid tensor: If \"n\" v_threshold: rank 33 exceeds HDF5 limit of 32"
    );
    // A present optional field is checked too.
    let node = NirNode::If(If {
        r: flat(),
        v_threshold: flat(),
        v_reset: Some(deep()),
        metadata: MetadataMap::new(),
    });
    assert_eq!(
        check_node_tensor_ranks(&node, "If \"n\"").unwrap_err().message(),
        "invalid tensor: If \"n\" v_reset: rank 33 exceeds HDF5 limit of 32"
    );
    let ok = NirNode::If(If { r: flat(), v_threshold: flat(), v_reset: None, metadata: MetadataMap::new() });
    assert!(check_node_tensor_ranks(&ok, "If \"n\"").is_ok());
    assert!(check_node_tensor_ranks(&input(vec![1]), "Input \"i\"").is_ok());
}

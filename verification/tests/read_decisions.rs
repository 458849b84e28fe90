//! What a reader decides from what it read.

use nir_rs::io::decode::{
    check_dataset_storage, check_edges_shape, check_links, check_nested_graph, check_root_type,
    check_single_string, checked_sum, fixed_string_capacity, fixed_string_request,
    flatten_from_wire, ints_from_data, node_kind, opt_dim, pair_edges, plan_metadata,
    plan_strings, plan_tensor, single_int, single_string, sort_names, string_metadata_shape, to_usizes,
    too_wide, u64_metadata, u64s_to_i64s, v_reset_or_default, vlen_string_floor,
    vlen_string_request, w_in_or_default, ElementType, LinkKind, MetadataDecode, NodeKind,
    ReadBudget, StorageLayout, StringDecode, StringMetadataShape, TensorDecode,
};
use nir_rs::io::wire::WIRE_TYPES;
use nir_rs::io::ReadOptions;
use nir_rs::{MetadataMap, MetadataValue, NirError, Tensor, TensorData};

fn bounded(limit: usize) -> ReadBudget {
    ReadBudget::new(&ReadOptions::default().with_max_bytes(Some(limit)))
}

#[test]
fn unbounded_budget_never_refuses_or_records() {
    let mut b = ReadBudget::new(&ReadOptions::default());
    assert_eq!(b.limit(), None);
    b.charge("x", Some(usize::MAX)).unwrap();
    b.charge("x", None).unwrap();
    assert_eq!(b.used(), 0);
    b.would_fit("x", None).unwrap();
}

#[test]
fn budget_charges_up_to_its_limit_exactly() {
    let mut b = bounded(100);
    b.charge("a", Some(60)).unwrap();
    b.charge("b", Some(40)).unwrap();
    assert_eq!(b.used(), 100);
    let err = b.charge("lif.tau", Some(1)).unwrap_err();
    assert_eq!(
        err,
        NirError::ReadLimitExceeded { context: "lif.tau".into(), limit: 100, used: 100, requested: 1 }
    );
    assert_eq!(b.used(), 100, "a refused charge leaves the ledger unchanged");
}

#[test]
fn unknown_request_is_reported_as_usize_max() {
    let mut b = bounded(10);
    let err = b.charge("w", None).unwrap_err();
    assert_eq!(
        err,
        NirError::ReadLimitExceeded { context: "w".into(), limit: 10, used: 0, requested: usize::MAX }
    );
}

#[test]
fn overflowing_sum_is_refused() {
    let mut b = bounded(usize::MAX);
    b.charge("a", Some(usize::MAX - 1)).unwrap();
    let err = b.charge("b", Some(2)).unwrap_err();
    assert!(matches!(err, NirError::ReadLimitExceeded { requested: 2, .. }));
}

#[test]
fn would_fit_does_not_charge() {
    let b = bounded(8);
    b.would_fit("x", Some(8)).unwrap();
    assert!(b.would_fit("x", Some(9)).is_err());
    assert_eq!(b.used(), 0);
}

#[test]
fn checked_sum_cases() {
    assert_eq!(checked_sum(&[]), Some(0));
    assert_eq!(checked_sum(&[Some(1), Some(2), Some(3)]), Some(6));
    assert_eq!(checked_sum(&[Some(1), None, Some(3)]), None);
    assert_eq!(checked_sum(&[Some(usize::MAX), Some(1)]), None);
    assert_eq!(checked_sum(&[Some(usize::MAX), Some(1), None]), None);
}

#[test]
fn tensor_plans_keep_float_width_and_widen_integers() {
    let mut b = bounded(1000);
    assert_eq!(plan_tensor(&ElementType::Float32, "f32", 10, "t", &mut b), Ok(TensorDecode::F32));
    assert_eq!(b.used(), 40);
    assert_eq!(plan_tensor(&ElementType::Float64, "f64", 10, "t", &mut b), Ok(TensorDecode::F64));
    assert_eq!(b.used(), 120);
    assert_eq!(
        plan_tensor(&ElementType::UnsignedNarrow, "u8", 10, "t", &mut b),
        Ok(TensorDecode::I64)
    );
    assert_eq!(b.used(), 200, "a narrow integer is charged at its decoded width");
    assert_eq!(plan_tensor(&ElementType::Unsigned64, "u64", 10, "t", &mut b), Ok(TensorDecode::U64));
    assert_eq!(b.used(), 360, "u64 holds two buffers");
    assert_eq!(plan_tensor(&ElementType::Boolean, "bool", 10, "t", &mut b), Ok(TensorDecode::Bool));
    assert_eq!(b.used(), 370);
    let err = plan_tensor(&ElementType::VarLenUnicode, "unicode", 1, "lif.tau", &mut b).unwrap_err();
    assert_eq!(
        err,
        NirError::InvalidTensor("lif.tau: element type unicode has no NIR dtype".into())
    );
    assert!(plan_tensor(&ElementType::Signed, "i64", 100, "t", &mut b).is_err());
    assert_eq!(b.used(), 370);
}

#[test]
fn u64_values_convert_or_name_the_first_misfit() {
    assert_eq!(u64s_to_i64s(&[0, 5, i64::MAX as u64], "x"), Ok(vec![0, 5, i64::MAX]));
    assert_eq!(
        u64s_to_i64s(&[1, u64::MAX, 1 << 63], "w").unwrap_err(),
        NirError::InvalidTensor(format!("w: u64 value {} does not fit in i64", u64::MAX))
    );
    assert_eq!(u64_metadata(7, "m"), Ok(MetadataValue::I64(7)));
    assert_eq!(
        u64_metadata(u64::MAX, "metadata.huge").unwrap_err().message(),
        format!("invalid tensor: metadata.huge: u64 value {} does not fit in i64", u64::MAX)
    );
}

#[test]
fn integer_fields() {
    assert_eq!(single_int(&[3], "c.groups"), Ok(3));
    assert_eq!(
        single_int(&[1, 2], "c.groups").unwrap_err(),
        NirError::InvalidTensor("c.groups: expected a single integer, found 2 values".into())
    );
    let mut b = bounded(1000);
    assert_eq!(to_usizes(&[1, 2, 3], "in.shape", &mut b), Ok(vec![1, 2, 3]));
    assert_eq!(b.used(), 3 * std::mem::size_of::<usize>());
    assert_eq!(
        to_usizes(&[4, -2], "in.shape", &mut b).unwrap_err(),
        NirError::InvalidTensor("in.shape: negative axis length -2".into())
    );
    assert_eq!(opt_dim(None, "c.input_shape"), Ok(None));
    assert_eq!(opt_dim(Some(vec![10]), "c.input_shape"), Ok(Some(10)));
    assert_eq!(
        opt_dim(Some(vec![1, 2]), "c.input_shape").unwrap_err(),
        NirError::InvalidTensor("c.input_shape: expected a single extent, found 2 values".into())
    );
    assert_eq!(ints_from_data(TensorData::I64(vec![1, 2]), "x"), Ok(vec![1, 2]));
    assert_eq!(
        ints_from_data(TensorData::Bool(vec![true]), "c.stride").unwrap_err(),
        NirError::InvalidTensor("c.stride: expected integer data, found Bool".into())
    );
}

#[test]
fn absent_reset_and_input_weight_take_python_defaults() {
    let v_th = Tensor::from_i64(vec![2], vec![3, 4]).unwrap();
    let mut b = bounded(1000);
    let reset = v_reset_or_default(None, &v_th, "lif", &mut b).unwrap().unwrap();
    assert_eq!(reset.shape(), [2]);
    assert_eq!(reset.data(), &TensorData::I64(vec![0, 0]));
    assert_eq!(b.used(), 16);
    let given = Tensor::scalar_i64(9);
    let kept = v_reset_or_default(Some(given), &v_th, "lif", &mut b).unwrap().unwrap();
    assert_eq!(kept.data(), &TensorData::I64(vec![9]));
    assert_eq!(b.used(), 16);

    let v_leak = Tensor::from_bool(vec![3], vec![false, false, true]).unwrap();
    let w_in = w_in_or_default(None, &v_leak, "cuba", &mut b).unwrap().unwrap();
    assert_eq!(w_in.data(), &TensorData::Bool(vec![true, true, true]));
    assert_eq!(b.used(), 19);

    let mut tight = bounded(2);
    let err = w_in_or_default(None, &v_leak, "cuba", &mut tight).unwrap_err();
    match err {
        NirError::ReadLimitExceeded { context, requested, .. } => {
            assert_eq!(context, "cuba.w_in (synthesized)");
            assert_eq!(requested, 3);
        }
        other => panic!("unexpected {other:?}"),
    }
}

#[test]
fn flatten_defaults() {
    let f = flatten_from_wire(None, None, None, MetadataMap::new());
    assert_eq!((f.start_dim, f.end_dim, f.input_type), (1, -1, None));
    let g = flatten_from_wire(Some(0), Some(2), Some(vec![1, 4]), MetadataMap::new());
    assert_eq!((g.start_dim, g.end_dim, g.input_type), (0, 2, Some(vec![1, 4])));
}

#[test]
fn node_kinds_follow_the_wire_types() {
    let kinds = [
        NodeKind::Input,
        NodeKind::Output,
        NodeKind::Affine,
        NodeKind::Linear,
        NodeKind::Scale,
        NodeKind::Conv1d,
        NodeKind::Conv2d,
        NodeKind::CubaLi,
        NodeKind::CubaLif,
        NodeKind::Delay,
        NodeKind::Flatten,
        NodeKind::I,
        NodeKind::If,
        NodeKind::Li,
        NodeKind::Lif,
        NodeKind::SumPool2d,
        NodeKind::AvgPool2d,
        NodeKind::Threshold,
        NodeKind::Graph,
    ];
    for (ty, kind) in WIRE_TYPES.iter().zip(kinds) {
        assert_eq!(node_kind(ty), Ok(kind));
    }
    assert_eq!(node_kind("CurrLIF"), Err(NirError::UnknownNodeType("CurrLIF".into())));
    assert_eq!(node_kind("lif"), Err(NirError::UnknownNodeType("lif".into())));
}

#[test]
fn graph_shape_rules() {
    assert!(check_root_type("NIRGraph").is_ok());
    assert_eq!(
        check_root_type("LIF").unwrap_err().message(),
        "invalid graph: /node must be a NIRGraph, found \"LIF\""
    );
    assert!(check_nested_graph(1023, false, "/node").is_ok());
    assert_eq!(
        check_nested_graph(1024, false, "/node/nodes/g").unwrap_err().message(),
        "invalid graph: /node/nodes/g: more than 1024 nested NIRGraph groups"
    );
    assert!(check_nested_graph(3, true, "sub").unwrap_err().message().contains("cycle"));
    assert_eq!(check_edges_shape(0, &[0]), Ok(false));
    assert_eq!(check_edges_shape(4, &[2, 2]), Ok(true));
    assert_eq!(
        check_edges_shape(3, &[3]).unwrap_err(),
        NirError::InvalidGraph("edges must have shape (E, 2), found [3]".into())
    );
    let pairs = pair_edges(vec!["a".into(), "b".into(), "b".into(), "c".into()]);
    assert_eq!(pairs, vec![("a".to_string(), "b".to_string()), ("b".into(), "c".into())]);
    assert_eq!(pair_edges(vec!["lonely".into()]), vec![]);
}

#[test]
fn string_metadata_rank_rule() {
    assert_eq!(string_metadata_shape(&[], "m"), Ok(StringMetadataShape::Scalar));
    assert_eq!(string_metadata_shape(&[1], "m"), Ok(StringMetadataShape::List));
    assert_eq!(
        string_metadata_shape(&[2, 2], "metadata.grid").unwrap_err(),
        NirError::InvalidTensor(
            "metadata.grid: string metadata must be scalar or rank-1, found shape [2, 2]".into()
        )
    );
}

#[test]
fn string_reading_plans_and_charges() {
    assert_eq!(fixed_string_capacity(0), Some(64));
    assert_eq!(fixed_string_capacity(64), Some(64));
    assert_eq!(fixed_string_capacity(65), Some(256));
    assert_eq!(fixed_string_capacity(4096), Some(4096));
    assert_eq!(fixed_string_capacity(4097), None);
    assert_eq!(
        plan_strings(&ElementType::FixedAscii(300), "ascii", "v"),
        Ok(StringDecode::FixedAscii(4096))
    );
    assert_eq!(plan_strings(&ElementType::FixedUnicode(5000), "utf8", "v"), Err(too_wide("v", 5000)));
    assert_eq!(
        too_wide("v", 5000).message(),
        "io error: v: fixed-length string of 5000 bytes exceeds the supported maximum of 4096"
    );
    assert_eq!(
        plan_strings(&ElementType::Float64, "float64", "edges").unwrap_err(),
        NirError::Io("edges: expected a string dataset, found float64".into())
    );
    assert_eq!(vlen_string_floor(10, 16, 24), Some(400));
    assert_eq!(vlen_string_request(10, 16, 24, 100), Some(600));
    assert_eq!(vlen_string_floor(usize::MAX, 16, 24), None);
    assert_eq!(fixed_string_request(2, 100, 24), Some(Some(2 * 256 + 2 * 24 + 2 * 100)));
    assert_eq!(fixed_string_request(2, 5000, 24), None);
    assert!(check_single_string(1, "type").is_ok());
    assert_eq!(
        check_single_string(3, "lif").unwrap_err(),
        NirError::Io("lif: expected a single string, found 3 elements".into())
    );
    assert_eq!(single_string(vec!["x".into()], "v"), Ok("x".to_string()));
    assert_eq!(
        single_string(vec![], "v").unwrap_err(),
        NirError::Io("v: expected a single string, found 0".into())
    );
}

#[test]
fn metadata_plans() {
    let mut b = bounded(100);
    assert_eq!(plan_metadata(&ElementType::VarLenUnicode, true, "m", &mut b), Ok(MetadataDecode::Strings));
    assert_eq!(plan_metadata(&ElementType::Boolean, true, "m", &mut b), Ok(MetadataDecode::Bool));
    assert_eq!(plan_metadata(&ElementType::Float32, true, "m", &mut b), Ok(MetadataDecode::F64));
    assert_eq!(plan_metadata(&ElementType::UnsignedNarrow, true, "m", &mut b), Ok(MetadataDecode::I64));
    assert_eq!(plan_metadata(&ElementType::Unsigned64, true, "m", &mut b), Ok(MetadataDecode::U64));
    assert_eq!(b.used(), 1 + 8 + 8 + 8);
    assert_eq!(plan_metadata(&ElementType::Float64, false, "m", &mut b), Ok(MetadataDecode::Tensor));
    assert_eq!(plan_metadata(&ElementType::Other, true, "m", &mut b), Ok(MetadataDecode::Tensor));
    assert_eq!(b.used(), 25);
}

#[test]
fn container_security() {
    assert!(check_links(&[("a".into(), LinkKind::Hard)], "/").is_ok());
    assert_eq!(
        check_links(
            &[("a".into(), LinkKind::Hard), ("ext".into(), LinkKind::External), ("s".into(), LinkKind::Soft)],
            "/node"
        )
        .unwrap_err(),
        NirError::InvalidGraph("/node: external link 'ext' is not allowed".into())
    );
    assert_eq!(
        check_links(&[("s".into(), LinkKind::Soft)], "/").unwrap_err(),
        NirError::InvalidGraph("/: soft link 's' is not allowed".into())
    );
    assert!(check_dataset_storage(0, StorageLayout::Chunked, "x").is_ok());
    assert_eq!(
        check_dataset_storage(2, StorageLayout::Contiguous, "lif.tau").unwrap_err(),
        NirError::InvalidGraph("lif.tau: external storage is not allowed (2 external file(s))".into())
    );
    assert_eq!(
        check_dataset_storage(0, StorageLayout::Virtual, "edges").unwrap_err(),
        NirError::InvalidGraph("edges: virtual dataset layouts are not allowed".into())
    );
}

#[test]
fn names_are_read_in_sorted_order() {
    let names: Vec<String> =
        ["lif", "input", "Output", "b", "a10", "a2", "é", "z"].iter().map(|s| s.to_string()).collect();
    let mut expected = names.clone();
    expected.sort();
    assert_eq!(sort_names(names), expected);
    assert_eq!(sort_names(vec![]), Vec::<String>::new());
    assert_eq!(
        sort_names(vec!["b".into(), "a".into(), "b".into()]),
        vec!["a".to_string(), "b".into(), "b".into()]
    );
}

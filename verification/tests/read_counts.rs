//! Node, edge and nested-graph count budgets of a bounded read.

use nir_rs::io::decode::{edge_rows, string_charge_plan, CountBudget, ElementType, StringCharge, StructureBudget};
use nir_rs::io::{ReadOptions, VersionPolicy};
use nir_rs::{NirError, ReadLimitResource};

#[test]
fn read_options_count_budgets_default_to_unbounded() {
    let opts = ReadOptions::default();
    assert_eq!(opts.max_nodes, None);
    assert_eq!(opts.max_edges, None);
    assert_eq!(opts.max_nested_graphs, None);
}

#[test]
fn read_options_builders_set_one_field_each() {
    let opts = ReadOptions::default()
        .with_max_nodes(Some(10_000))
        .with_max_edges(Some(50_000))
        .with_max_nested_graphs(Some(64))
        .with_max_bytes(Some(4096))
        .with_version_policy(VersionPolicy::RequirePresent);
    assert_eq!(opts.max_nodes, Some(10_000));
    assert_eq!(opts.max_edges, Some(50_000));
    assert_eq!(opts.max_nested_graphs, Some(64));
    assert_eq!(opts.max_bytes, Some(4096));
    assert_eq!(opts.version_policy, VersionPolicy::RequirePresent);
    let cleared = opts.with_max_nodes(None);
    assert_eq!(cleared.max_nodes, None);
    assert_eq!(cleared.max_edges, Some(50_000));
}

#[test]
fn structure_budget_takes_each_limit_from_its_option() {
    let opts = ReadOptions::default()
        .with_max_nodes(Some(3))
        .with_max_edges(Some(2))
        .with_max_nested_graphs(Some(1));
    let b = StructureBudget::new(&opts);
    assert_eq!(b.nodes.resource(), ReadLimitResource::Nodes);
    assert_eq!(b.nodes.limit(), Some(3));
    assert_eq!(b.edges.resource(), ReadLimitResource::Edges);
    assert_eq!(b.edges.limit(), Some(2));
    assert_eq!(b.graphs.resource(), ReadLimitResource::NestedGraphs);
    assert_eq!(b.graphs.limit(), Some(1));
    assert_eq!((b.nodes.used(), b.edges.used(), b.graphs.used()), (0, 0, 0));
}

#[test]
fn exact_node_count_fits_and_one_more_is_refused_before_decode() {
    let opts = ReadOptions::default().with_max_nodes(Some(3));
    let mut exact = CountBudget::new(ReadLimitResource::Nodes, &opts);
    exact.charge("/node/nodes", 3).unwrap();
    assert_eq!(exact.used(), 3);

    let opts = ReadOptions::default().with_max_nodes(Some(2));
    let mut tight = CountBudget::new(ReadLimitResource::Nodes, &opts);
    let err = tight.charge("/node/nodes", 3).unwrap_err();
    assert_eq!(
        err,
        NirError::ReadCountLimitExceeded {
            resource: ReadLimitResource::Nodes,
            context: "/node/nodes".into(),
            limit: 2,
            used: 0,
            requested: 3,
        }
    );
    assert_eq!(tight.used(), 0, "a refused charge leaves the ledger unchanged");
}

#[test]
fn nested_graph_budget_counts_the_root() {
    let opts = ReadOptions::default().with_max_nested_graphs(Some(1));
    let mut graphs = CountBudget::new(ReadLimitResource::NestedGraphs, &opts);
    graphs.charge("/node", 1).unwrap();
    let err = graphs.charge("/node/nodes/sub", 1).unwrap_err();
    assert_eq!(
        err,
        NirError::ReadCountLimitExceeded {
            resource: ReadLimitResource::NestedGraphs,
            context: "/node/nodes/sub".into(),
            limit: 1,
            used: 1,
            requested: 1,
        }
    );
    assert_eq!(
        err.message(),
        "read limit exceeded for nested graphs at /node/nodes/sub: limit 1, used 1, requested 1"
    );
}

#[test]
fn counts_accumulate_over_nested_graphs() {
    // outer graph: 3 nodes, 2 edges; inner graph: 2 nodes, 1 edge.
    let five = ReadOptions::default().with_max_nodes(Some(5)).with_max_edges(Some(3));
    let mut b = StructureBudget::new(&five);
    b.nodes.charge("/node/nodes", 3).unwrap();
    b.nodes.charge("sub/nodes", 2).unwrap();
    b.edges.charge("sub/edges", 1).unwrap();
    b.edges.charge("/node/edges", 2).unwrap();
    assert_eq!((b.nodes.used(), b.edges.used()), (5, 3));

    let four = ReadOptions::default().with_max_nodes(Some(4)).with_max_edges(Some(2));
    let mut b = StructureBudget::new(&four);
    b.nodes.charge("/node/nodes", 3).unwrap();
    assert!(matches!(
        b.nodes.charge("sub/nodes", 2),
        Err(NirError::ReadCountLimitExceeded { resource: ReadLimitResource::Nodes, limit: 4, used: 3, requested: 2, .. })
    ));
    b.edges.charge("sub/edges", 1).unwrap();
    assert!(matches!(
        b.edges.charge("/node/edges", 2),
        Err(NirError::ReadCountLimitExceeded { resource: ReadLimitResource::Edges, limit: 2, used: 1, requested: 2, .. })
    ));
}

#[test]
fn unbounded_count_budget_never_refuses_or_records() {
    let mut b = CountBudget::new(ReadLimitResource::Edges, &ReadOptions::default());
    b.charge("/node/edges", usize::MAX).unwrap();
    b.charge("/node/edges", usize::MAX).unwrap();
    assert_eq!(b.used(), 0);
}

#[test]
fn overflowing_count_is_refused() {
    let opts = ReadOptions::default().with_max_edges(Some(usize::MAX));
    let mut b = CountBudget::new(ReadLimitResource::Edges, &opts);
    b.charge("a", usize::MAX - 1).unwrap();
    let err = b.charge("b", 2).unwrap_err();
    assert!(matches!(
        err,
        NirError::ReadCountLimitExceeded { used, requested: 2, .. } if used == usize::MAX - 1
    ));
}

#[test]
fn empty_edges_fit_a_zero_edge_budget() {
    assert_eq!(edge_rows(0, &[0]).unwrap(), 0);
    let opts = ReadOptions::default().with_max_edges(Some(0));
    let mut b = CountBudget::new(ReadLimitResource::Edges, &opts);
    b.charge("/node/edges", 0).unwrap();
    assert_eq!(b.used(), 0);
}

#[test]
fn edge_count_comes_from_the_shape() {
    assert_eq!(edge_rows(4, &[2, 2]).unwrap(), 2);
    assert_eq!(edge_rows(6, &[3, 2]).unwrap(), 3);
    let err = edge_rows(6, &[2, 3]).unwrap_err();
    assert_eq!(err, NirError::InvalidGraph("edges must have shape (E, 2), found [2, 3]".into()));
}

#[test]
fn string_charge_plan_dispatches_on_element_type() {
    // Without a byte budget nothing is charged.
    assert_eq!(string_charge_plan(&ElementType::VarLenUnicode, 10, false, 24, 16, 8), StringCharge::Skip);
    // Variable-length strings: the floor first, with the matching descriptor.
    assert_eq!(
        string_charge_plan(&ElementType::VarLenUnicode, 10, true, 24, 16, 8),
        StringCharge::Vlen { floor: Some(400), descriptor: 16 }
    );
    assert_eq!(
        string_charge_plan(&ElementType::VarLenAscii, 10, true, 24, 16, 8),
        StringCharge::Vlen { floor: Some(320), descriptor: 8 }
    );
    assert_eq!(
        string_charge_plan(&ElementType::VarLenAscii, usize::MAX, true, 24, 16, 8),
        StringCharge::Vlen { floor: None, descriptor: 8 }
    );
    // Fixed-length strings are charged at once.
    assert_eq!(
        string_charge_plan(&ElementType::FixedAscii(100), 2, true, 24, 16, 8),
        StringCharge::Charge(Some(2 * 256 + 2 * 24 + 2 * 100))
    );
    assert_eq!(
        string_charge_plan(&ElementType::FixedUnicode(100), 2, true, 24, 16, 8),
        StringCharge::Charge(Some(2 * 256 + 2 * 24 + 2 * 100))
    );
    // A width without capacity, or a non-string type, charges nothing here.
    assert_eq!(string_charge_plan(&ElementType::FixedAscii(5000), 2, true, 24, 16, 8), StringCharge::Skip);
    assert_eq!(string_charge_plan(&ElementType::Signed, 2, true, 24, 16, 8), StringCharge::Skip);
}

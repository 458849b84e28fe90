//! Checks that run before a `.nir` file is written.
//!
//! Every rejection here happens before the destination is touched, so a graph
//! the wire format cannot hold never truncates an existing file. The order is
//! the writer's: link names and the nested-graph bound first (at any nesting
//! depth), then — when validation is on — structure and lossless
//! representation, then string payloads, `usize` extents, tensor ranks and the
//! deflate level.

use vstd::prelude::*;
use crate::error::{checked_view, Checked, ErrorModel, NirError};
use crate::graph::{graph_edges, graph_entries, max_depth, structure_check, NirGraph};
use crate::nodes::{Conv1d, Conv2d, NirNode, Padding};
use crate::text::{debug_quoted, decimal, quoted, u64_text, usize_text};
use crate::types::{MetadataMap, MetadataValue, Tensor};
use super::decode::MAX_NESTED_GRAPHS;
use super::wire::{check_hdf5_string, check_link_name, hdf5_string_check, link_name_check};
use super::{WriteOptions, DEFAULT_NIR_VERSION, MAX_COMPRESSION};

verus! {

/// `a`, and then `b` if `a` passed.
pub open spec fn then(a: Checked, b: Checked) -> Checked {
    match a {
        Err(e) => Err(e),
        Ok(()) => b,
    }
}

/// The metadata map of any node, including a nested graph's own.
pub open spec fn node_metadata_of(node: NirNode) -> MetadataMap {
    match node {
        NirNode::Input(n) => n.metadata,
        NirNode::Output(n) => n.metadata,
        NirNode::Affine(n) => n.metadata,
        NirNode::Linear(n) => n.metadata,
        NirNode::Scale(n) => n.metadata,
        NirNode::Conv1d(n) => n.metadata,
        NirNode::Conv2d(n) => n.metadata,
        NirNode::CubaLi(n) => n.metadata,
        NirNode::CubaLif(n) => n.metadata,
        NirNode::Delay(n) => n.metadata,
        NirNode::Flatten(n) => n.metadata,
        NirNode::I(n) => n.metadata,
        NirNode::If(n) => n.metadata,
        NirNode::Li(n) => n.metadata,
        NirNode::Lif(n) => n.metadata,
        NirNode::SumPool2d(n) => n.metadata,
        NirNode::AvgPool2d(n) => n.metadata,
        NirNode::Threshold(n) => n.metadata,
        NirNode::Graph(g) => g.metadata,
    }
}

/// The metadata map of any node, including a nested graph's own.
pub fn node_metadata(node: &NirNode) -> (m: &MetadataMap)
    ensures
        *m == node_metadata_of(*node),
{
    match node {
        NirNode::Input(n) => &n.metadata,
        NirNode::Output(n) => &n.metadata,
        NirNode::Affine(n) => &n.metadata,
        NirNode::Linear(n) => &n.metadata,
        NirNode::Scale(n) => &n.metadata,
        NirNode::Conv1d(n) => &n.metadata,
        NirNode::Conv2d(n) => &n.metadata,
        NirNode::CubaLi(n) => &n.metadata,
        NirNode::CubaLif(n) => &n.metadata,
        NirNode::Delay(n) => &n.metadata,
        NirNode::Flatten(n) => &n.metadata,
        NirNode::I(n) => &n.metadata,
        NirNode::If(n) => &n.metadata,
        NirNode::Li(n) => &n.metadata,
        NirNode::Lif(n) => &n.metadata,
        NirNode::SumPool2d(n) => &n.metadata,
        NirNode::AvgPool2d(n) => &n.metadata,
        NirNode::Threshold(n) => &n.metadata,
        NirNode::Graph(g) => &g.metadata,
    }
}

// ---------------------------------------------------------------------------
// Link names and the nested-graph bound
// ---------------------------------------------------------------------------

/// Every metadata key from entry `i` on is a legal link name.
pub open spec fn keys_check(entries: Seq<(Seq<char>, MetadataValue)>, i: nat) -> Checked
    decreases entries.len() - i,
{
    if i >= entries.len() {
        Ok(())
    } else {
        then(link_name_check("metadata key"@, entries[i as int].0), keys_check(entries, i + 1))
    }
}

fn check_metadata_keys(metadata: &MetadataMap) -> (r: Result<(), NirError>)
    ensures
        checked_view(r) == keys_check(metadata@, 0),
{
    let n = metadata.len();
    let mut i: usize = 0;
    while i < n
        invariant
            n == metadata@.len(),
            i <= n,
            keys_check(metadata@, 0) == keys_check(metadata@, i as nat),
        decreases n - i,
    {
        let (key, _) = metadata.get_index(i).unwrap();
        match check_link_name("metadata key", key.as_str()) {
            Err(e) => return Err(e),
            Ok(()) => {},
        }
        i = i + 1;
    }
    Ok(())
}

/// Error once more than [`MAX_NESTED_GRAPHS`] graphs have been counted.
pub open spec fn count_error() -> ErrorModel {
    ErrorModel::InvalidGraph("more than "@ + decimal(1024) + " nested NIRGraph groups"@)
}

/// Name checks of graph `g` at nesting depth `depth`, after `seen` graphs
/// have been counted: the number of graphs counted once `g` is done, or the
/// first error.
pub open spec fn names_graph(g: NirGraph, seen: nat, depth: nat) -> Result<nat, ErrorModel>
    decreases max_depth() + 1 - depth, 2nat, 0nat,
{
    if seen >= 1024 || depth > max_depth() {
        Err(count_error())
    } else {
        match keys_check(g.metadata@, 0) {
            Err(e) => Err(e),
            Ok(()) => names_entries(graph_entries(g), seen + 1, depth, 0),
        }
    }
}

/// Name checks of `entries[i..]` of a graph at depth `depth`.
pub open spec fn names_entries(
    entries: Seq<(Seq<char>, NirNode)>,
    seen: nat,
    depth: nat,
    i: nat,
) -> Result<nat, ErrorModel>
    decreases max_depth() + 1 - depth, 1nat, entries.len() - i,
{
    if i >= entries.len() || depth > max_depth() {
        Ok(seen)
    } else {
        match then(
            link_name_check("node name"@, entries[i as int].0),
            keys_check(node_metadata_of(entries[i as int].1)@, 0),
        ) {
            Err(e) => Err(e),
            Ok(()) => match entries[i as int].1 {
                NirNode::Graph(sub) => match names_graph(*sub, seen, depth + 1) {
                    Err(e) => Err(e),
                    Ok(after) => names_entries(entries, after, depth, i + 1),
                },
                _ => names_entries(entries, seen, depth, i + 1),
            },
        }
    }
}

/// The name checks of a whole graph.
pub open spec fn names_check(g: NirGraph) -> Checked {
    match names_graph(g, 0, 0) {
        Err(e) => Err(e),
        Ok(_) => Ok(()),
    }
}

fn count_exceeded() -> (e: NirError)
    ensures
        e@ == count_error(),
{
    NirError::InvalidGraph(
        String::from_str("more than ").concat(usize_text(MAX_NESTED_GRAPHS).as_str()).concat(
            " nested NIRGraph groups",
        ),
    )
}

fn check_names_at(graph: &NirGraph, seen: &mut usize, depth: usize) -> (r: Result<(), NirError>)
    ensures
        match names_graph(*graph, *old(seen) as nat, depth as nat) {
            Ok(after) => r is Ok && *final(seen) == after,
            Err(e) => r matches Err(x) && x@ == e,
        },
    decreases max_depth() + 1 - depth, 2nat, 0nat,
{
    if *seen >= MAX_NESTED_GRAPHS || depth > NirGraph::MAX_NESTING_DEPTH {
        return Err(count_exceeded());
    }
    match check_metadata_keys(&graph.metadata) {
        Err(e) => return Err(e),
        Ok(()) => {},
    }
    *seen = *seen + 1;
    let ghost entries = graph_entries(*graph);
    let n = graph.nodes.len();
    let mut i: usize = 0;
    while i < n
        invariant
            n == entries.len(),
            entries == graph_entries(*graph),
            i <= n,
            depth <= max_depth(),
            *seen <= 1024,
            names_graph(*graph, *old(seen) as nat, depth as nat) == names_entries(
                entries,
                *seen as nat,
                depth as nat,
                i as nat,
            ),
        decreases n - i,
    {
        let (name, node) = graph.nodes.get_index(i).unwrap();
        match check_link_name("node name", name.as_str()) {
            Err(e) => return Err(e),
            Ok(()) => {},
        }
        match check_metadata_keys(node_metadata(node)) {
            Err(e) => return Err(e),
            Ok(()) => {},
        }
        match node {
            NirNode::Graph(sub) => {
                let ghost before = *seen;
                match check_names_at(sub, seen, depth + 1) {
                    Err(e) => return Err(e),
                    Ok(()) => {},
                }
                proof {
                    names_graph_bounded(**sub, before as nat, (depth + 1) as nat);
                }
            },
            _ => {},
        }
        i = i + 1;
    }
    Ok(())
}

/// Counting graphs only goes up and never passes the reader's bound: a graph
/// that passes the name checks holds at most [`MAX_NESTED_GRAPHS`]
/// `NIRGraph` groups, the root included, so the reader accepts its nesting.
pub proof fn names_graph_bounded(g: NirGraph, seen: nat, depth: nat)
    ensures
        names_graph(g, seen, depth) matches Ok(after) ==> seen < after <= 1024,
    decreases max_depth() + 1 - depth, 2nat, 0nat,
{
    if seen < 1024 && depth <= max_depth() && keys_check(g.metadata@, 0) is Ok {
        names_entries_bounded(graph_entries(g), seen + 1, depth, 0);
    }
}

/// [`names_graph_bounded`] for the entries of a graph.
pub proof fn names_entries_bounded(
    entries: Seq<(Seq<char>, NirNode)>,
    seen: nat,
    depth: nat,
    i: nat,
)
    requires
        seen <= 1024,
    ensures
        names_entries(entries, seen, depth, i) matches Ok(after) ==> seen <= after <= 1024,
    decreases max_depth() + 1 - depth, 1nat, entries.len() - i,
{
    if i < entries.len() && depth <= max_depth() {
        if then(
            link_name_check("node name"@, entries[i as int].0),
            keys_check(node_metadata_of(entries[i as int].1)@, 0),
        ) is Ok {
            match entries[i as int].1 {
                NirNode::Graph(sub) => {
                    names_graph_bounded(*sub, seen, depth + 1);
                    match names_graph(*sub, seen, depth + 1) {
                        Ok(after) => {
                            names_entries_bounded(entries, after, depth, i + 1);
                        },
                        Err(_) => {},
                    }
                },
                _ => {
                    names_entries_bounded(entries, seen, depth, i + 1);
                },
            }
        }
    }
}

/// Reject every caller-supplied name that HDF5 cannot use as a link name, at
/// any nesting depth, and graphs with more than [`MAX_NESTED_GRAPHS`]
/// `NIRGraph` groups (the root included), matching the reader's bound so a
/// graph written here is always one that can be read back.
pub fn check_names(graph: &NirGraph) -> (r: Result<(), NirError>)
    ensures
        checked_view(r) == names_check(*graph),
{
    let mut seen: usize = 0;
    check_names_at(graph, &mut seen, 0)
}

/// What [`check_compression`] decides.
pub open spec fn compression_check(level: Option<u8>) -> Checked {
    match level {
        Some(l) => if l > MAX_COMPRESSION {
            Err(
                ErrorModel::InvalidGraph(
                    "compression level "@ + decimal(l as nat) + " is out of range (expected 0..=9)"@,
                ),
            )
        } else {
            Ok(())
        },
        None => Ok(()),
    }
}

/// Reject a deflate level HDF5 will not accept.
///
/// [`WriteOptions::with_compression`] clamps, but `compression` is a public
/// field a caller can set directly.
pub fn check_compression(level: Option<u8>) -> (r: Result<(), NirError>)
    ensures
        checked_view(r) == compression_check(level),
{
    match level {
        Some(l) => {
            if l > MAX_COMPRESSION {
                return Err(
                    NirError::InvalidGraph(
                        String::from_str("compression level ").concat(
                            u64_text(l as u64).as_str(),
                        ).concat(" is out of range (expected 0..=9)"),
                    ),
                );
            }
            Ok(())
        },
        None => Ok(()),
    }
}

// ---------------------------------------------------------------------------
// String payloads
// ---------------------------------------------------------------------------

/// Every string of a list is a legal HDF5 string.
pub open spec fn list_strings_check(kind: Seq<char>, values: Seq<String>, j: nat) -> Checked
    decreases values.len() - j,
{
    if j >= values.len() {
        Ok(())
    } else {
        then(hdf5_string_check(kind, values[j as int]@), list_strings_check(kind, values, j + 1))
    }
}

/// Every string metadata value from entry `i` on is a legal HDF5 string.
pub open spec fn metadata_strings_check(
    entries: Seq<(Seq<char>, MetadataValue)>,
    context: Seq<char>,
    i: nat,
) -> Checked
    decreases entries.len() - i,
{
    if i >= entries.len() {
        Ok(())
    } else {
        let kind = context + " "@ + debug_quoted(entries[i as int].0);
        then(
            match entries[i as int].1 {
                MetadataValue::String(s) => hdf5_string_check(kind, s@),
                MetadataValue::StringList(v) => list_strings_check(kind, v@, 0),
                _ => Ok(()),
            },
            metadata_strings_check(entries, context, i + 1),
        )
    }
}

/// Both endpoints of every edge from `i` on are legal HDF5 strings.
pub open spec fn edge_strings_check(edges: Seq<(Seq<char>, Seq<char>)>, i: nat) -> Checked
    decreases edges.len() - i,
{
    if i >= edges.len() {
        Ok(())
    } else {
        then(
            hdf5_string_check("edge source"@, edges[i as int].0),
            then(
                hdf5_string_check("edge destination"@, edges[i as int].1),
                edge_strings_check(edges, i + 1),
            ),
        )
    }
}

/// String payload checks of `g` at depth `depth`: its metadata, its edges,
/// then its nodes in insertion order.
pub open spec fn graph_strings(g: NirGraph, depth: nat) -> Checked
    decreases max_depth() + 1 - depth, 2nat, 0nat,
{
    if depth > max_depth() {
        Err(count_error())
    } else {
        then(
            metadata_strings_check(g.metadata@, "graph metadata"@, 0),
            then(edge_strings_check(graph_edges(g), 0), entries_strings(graph_entries(g), depth, 0)),
        )
    }
}

/// String payload checks of `entries[i..]`: a subgraph is checked whole, any
/// other node by its metadata.
pub open spec fn entries_strings(entries: Seq<(Seq<char>, NirNode)>, depth: nat, i: nat) -> Checked
    decreases max_depth() + 1 - depth, 1nat, entries.len() - i,
{
    if i >= entries.len() || depth > max_depth() {
        Ok(())
    } else {
        match entries[i as int].1 {
            NirNode::Graph(sub) => then(
                graph_strings(*sub, depth + 1),
                entries_strings(entries, depth, i + 1),
            ),
            node => then(
                metadata_strings_check(
                    node_metadata_of(node)@,
                    "metadata of node "@ + debug_quoted(entries[i as int].0),
                    0,
                ),
                entries_strings(entries, depth, i + 1),
            ),
        }
    }
}

/// All string payloads: the version to write, then the graph.
pub open spec fn strings_check(g: NirGraph, version: Seq<char>) -> Checked {
    then(hdf5_string_check("version"@, version), graph_strings(g, 0))
}

fn check_list_strings(kind: &str, values: &Vec<String>) -> (r: Result<(), NirError>)
    ensures
        checked_view(r) == list_strings_check(kind@, values@, 0),
{
    let mut j: usize = 0;
    while j < values.len()
        invariant
            j <= values@.len(),
            list_strings_check(kind@, values@, 0) == list_strings_check(kind@, values@, j as nat),
        decreases values@.len() - j,
    {
        match check_hdf5_string(kind, values[j].as_str()) {
            Err(e) => return Err(e),
            Ok(()) => {},
        }
        j = j + 1;
    }
    Ok(())
}

fn check_metadata_string_values(metadata: &MetadataMap, context: &str) -> (r: Result<(), NirError>)
    ensures
        checked_view(r) == metadata_strings_check(metadata@, context@, 0),
{
    let n = metadata.len();
    let mut i: usize = 0;
    while i < n
        invariant
            n == metadata@.len(),
            i <= n,
            metadata_strings_check(metadata@, context@, 0) == metadata_strings_check(
                metadata@,
                context@,
                i as nat,
            ),
        decreases n - i,
    {
        let (key, value) = metadata.get_index(i).unwrap();
        let kind = String::from_str(context).concat(" ").concat(quoted(key.as_str()).as_str());
        match value {
            MetadataValue::String(s) => match check_hdf5_string(kind.as_str(), s.as_str()) {
                Err(e) => return Err(e),
                Ok(()) => {},
            },
            MetadataValue::StringList(v) => match check_list_strings(kind.as_str(), v) {
                Err(e) => return Err(e),
                Ok(()) => {},
            },
            _ => {},
        }
        i = i + 1;
    }
    Ok(())
}

fn check_edge_strings(graph: &NirGraph) -> (r: Result<(), NirError>)
    ensures
        checked_view(r) == edge_strings_check(graph_edges(*graph), 0),
{
    let mut i: usize = 0;
    while i < graph.edges.len()
        invariant
            i <= graph.edges@.len(),
            graph_edges(*graph).len() == graph.edges@.len(),
            edge_strings_check(graph_edges(*graph), 0) == edge_strings_check(
                graph_edges(*graph),
                i as nat,
            ),
        decreases graph.edges@.len() - i,
    {
        let (src, dst) = &graph.edges[i];
        assert(graph_edges(*graph)[i as int] == (src@, dst@));
        match check_hdf5_string("edge source", src.as_str()) {
            Err(e) => return Err(e),
            Ok(()) => {},
        }
        match check_hdf5_string("edge destination", dst.as_str()) {
            Err(e) => return Err(e),
            Ok(()) => {},
        }
        i = i + 1;
    }
    Ok(())
}

fn check_graph_string_values(graph: &NirGraph, depth: usize) -> (r: Result<(), NirError>)
    ensures
        checked_view(r) == graph_strings(*graph, depth as nat),
    decreases max_depth() + 1 - depth, 2nat, 0nat,
{
    if depth > NirGraph::MAX_NESTING_DEPTH {
        return Err(count_exceeded());
    }
    match check_metadata_string_values(&graph.metadata, "graph metadata") {
        Err(e) => return Err(e),
        Ok(()) => {},
    }
    match check_edge_strings(graph) {
        Err(e) => return Err(e),
        Ok(()) => {},
    }
    let ghost entries = graph_entries(*graph);
    let n = graph.nodes.len();
    let mut i: usize = 0;
    while i < n
        invariant
            n == entries.len(),
            entries == graph_entries(*graph),
            i <= n,
            depth <= max_depth(),
            graph_strings(*graph, depth as nat) == entries_strings(entries, depth as nat, i as nat),
        decreases n - i,
    {
        let (name, node) = graph.nodes.get_index(i).unwrap();
        assert(name@ == entries[i as int].0 && *node == entries[i as int].1);
        match node {
            NirNode::Graph(sub) => match check_graph_string_values(sub, depth + 1) {
                Err(e) => return Err(e),
                Ok(()) => {},
            },
            _ => {
                let context = String::from_str("metadata of node ").concat(
                    quoted(name.as_str()).as_str(),
                );
                assert(context@ == "metadata of node "@ + debug_quoted(entries[i as int].0));
                match check_metadata_string_values(node_metadata(node), context.as_str()) {
                    Err(e) => return Err(e),
                    Ok(()) => {},
                }
            },
        }
        i = i + 1;
    }
    Ok(())
}

/// Reject HDF5 string payloads — the version to write, metadata strings and
/// edge endpoints, at any nesting depth — that hold a NUL.
pub fn check_string_values(graph: &NirGraph, version: &str) -> (r: Result<(), NirError>)
    ensures
        checked_view(r) == strings_check(*graph, version@),
{
    match check_hdf5_string("version", version) {
        Err(e) => return Err(e),
        Ok(()) => {},
    }
    check_graph_string_values(graph, 0)
}

// ---------------------------------------------------------------------------
// `usize` fields and convolution extents
// ---------------------------------------------------------------------------

/// `extent` of field `field` of `who` fits the wire's `i64`.
pub open spec fn extent_range_check(who: Seq<char>, field: Seq<char>, extent: usize) -> Checked {
    if extent > i64::MAX {
        Err(
            ErrorModel::InvalidTensor(
                who + " "@ + field + ": extent "@ + decimal(extent as nat) + " does not fit in i64"@,
            ),
        )
    } else {
        Ok(())
    }
}

/// Every extent from `i` on fits the wire's `i64`.
pub open spec fn extents_check(who: Seq<char>, field: Seq<char>, extents: Seq<usize>, i: nat) -> Checked
    decreases extents.len() - i,
{
    if i >= extents.len() {
        Ok(())
    } else {
        then(extent_range_check(who, field, extents[i as int]), extents_check(who, field, extents, i + 1))
    }
}

/// How an allowed arity is described in errors.
pub open spec fn expected_extents_text(allowed: Seq<usize>) -> Seq<char> {
    if allowed == seq![1usize] {
        "exactly one extent"@
    } else if allowed == seq![2usize] {
        "a (N_x, N_y) pair"@
    } else {
        "one or two extents"@
    }
}

/// `found` values is one of the `allowed` arities.
pub open spec fn extent_arity_check(who: Seq<char>, field: Seq<char>, found: usize, allowed: Seq<
    usize,
>) -> Checked {
    if allowed.contains(found) {
        Ok(())
    } else {
        Err(
            ErrorModel::InvalidGraph(
                who + " "@ + field + " must hold "@ + expected_extents_text(allowed) + ", found "@
                    + decimal(found as nat) + " values"@,
            ),
        )
    }
}

/// Explicit padding extents have an allowed arity; symbolic modes pass.
pub open spec fn padding_arity_check(who: Seq<char>, padding: Padding, allowed: Seq<usize>) -> Checked {
    match padding {
        Padding::Explicit(extents) => extent_arity_check(who, "padding"@, extents@.len() as usize, allowed),
        _ => Ok(()),
    }
}

/// `Conv1d` extents are bare scalars on the wire.
pub open spec fn conv1d_extents_check(who: Seq<char>, conv: Conv1d) -> Checked {
    then(
        extent_arity_check(who, "stride"@, conv.stride@.len() as usize, seq![1usize]),
        then(
            extent_arity_check(who, "dilation"@, conv.dilation@.len() as usize, seq![1usize]),
            then(
                padding_arity_check(who, conv.padding, seq![1usize]),
                match conv.input_shape {
                    Some(extent) => extent_range_check(who, "input_shape"@, extent),
                    None => Ok(()),
                },
            ),
        ),
    )
}

/// `Conv2d` extents are pairs; a single value is the scalar form.
pub open spec fn conv2d_extents_check(who: Seq<char>, conv: Conv2d) -> Checked {
    then(
        extent_arity_check(who, "stride"@, conv.stride@.len() as usize, seq![1usize, 2usize]),
        then(
            extent_arity_check(who, "dilation"@, conv.dilation@.len() as usize, seq![1usize, 2usize]),
            then(
                padding_arity_check(who, conv.padding, seq![1usize, 2usize]),
                match conv.input_shape {
                    Some(shape) => then(
                        extent_arity_check(who, "input_shape"@, shape@.len() as usize, seq![2usize]),
                        extents_check(who, "input_shape"@, shape@, 0),
                    ),
                    None => Ok(()),
                },
            ),
        ),
    )
}

proof fn extents_check_fit(who: Seq<char>, field: Seq<char>, extents: Seq<usize>, i: nat)
    requires
        i <= extents.len(),
    ensures
        extents_check(who, field, extents, i) is Ok <==> (forall|k: int|
            i <= k < extents.len() ==> #[trigger] extents[k] <= i64::MAX),
    decreases extents.len() - i,
{
    if i < extents.len() {
        extents_check_fit(who, field, extents, i + 1);
    }
}

/// The extent checks of a `Conv2d` pass exactly when its stride and its
/// dilation each hold one value (the scalar form, written as a pair) or
/// two, explicit padding holds one or two values (symbolic padding always
/// passes), and a given input shape holds exactly two extents that each fit
/// `i64`.
pub proof fn conv2d_extents_accept_one_or_two(who: Seq<char>, conv: Conv2d)
    ensures
        conv2d_extents_check(who, conv) is Ok <==> {
            &&& (conv.stride.len() == 1 || conv.stride.len() == 2)
            &&& (conv.dilation.len() == 1 || conv.dilation.len() == 2)
            &&& (conv.padding matches Padding::Explicit(e) ==> (e.len() == 1 || e.len() == 2))
            &&& (conv.input_shape matches Some(shape) ==> shape.len() == 2 && forall|k: int|
                0 <= k < shape@.len() ==> #[trigger] shape@[k] <= i64::MAX)
        },
{
    let one_or_two = seq![1usize, 2usize];
    assert(one_or_two.contains(1usize) && one_or_two.contains(2usize)) by {
        assert(one_or_two[0] == 1usize);
        assert(one_or_two[1] == 2usize);
    }
    assert(forall|n: usize| #[trigger] one_or_two.contains(n) ==> n == 1 || n == 2);
    assert(seq![2usize].contains(2usize)) by {
        assert(seq![2usize][0] == 2usize);
    }
    assert(forall|n: usize| #[trigger] seq![2usize].contains(n) ==> n == 2);
    match conv.input_shape {
        Some(shape) => {
            extents_check_fit(who, "input_shape"@, shape@, 0);
        },
        None => {},
    }
}

/// The extent checks of a `Conv1d` pass exactly when its stride, its
/// dilation and explicit padding each hold exactly one value (symbolic
/// padding always passes) and a given input length fits `i64`.
pub proof fn conv1d_extents_accept_exactly_one(who: Seq<char>, conv: Conv1d)
    ensures
        conv1d_extents_check(who, conv) is Ok <==> {
            &&& conv.stride.len() == 1
            &&& conv.dilation.len() == 1
            &&& (conv.padding matches Padding::Explicit(e) ==> e.len() == 1)
            &&& (conv.input_shape matches Some(n) ==> n <= i64::MAX)
        },
{
    assert(seq![1usize].contains(1usize)) by {
        assert(seq![1usize][0] == 1usize);
    }
    assert(forall|n: usize| #[trigger] seq![1usize].contains(n) ==> n == 1);
}

/// The `usize` extents of one node named `name`.
pub open spec fn node_usize_check(name: Seq<char>, node: NirNode) -> Checked {
    let q = debug_quoted(name);
    match node {
        NirNode::Input(n) => extents_check("Input "@ + q, "shape"@, n.shape@, 0),
        NirNode::Output(n) => extents_check("Output "@ + q, "shape"@, n.shape@, 0),
        NirNode::Flatten(n) => extents_check(
            "Flatten "@ + q,
            "input_type"@,
            match n.input_type {
                Some(v) => v@,
                None => Seq::empty(),
            },
            0,
        ),
        NirNode::Conv1d(c) => conv1d_extents_check("Conv1d "@ + q, c),
        NirNode::Conv2d(c) => conv2d_extents_check("Conv2d "@ + q, c),
        _ => Ok(()),
    }
}

/// `usize` extent checks of every node of `g`, subgraphs included.
pub open spec fn graph_usize(g: NirGraph, depth: nat) -> Checked
    decreases max_depth() + 1 - depth, 2nat, 0nat,
{
    if depth > max_depth() {
        Err(count_error())
    } else {
        entries_usize(graph_entries(g), depth, 0)
    }
}

/// `usize` extent checks of `entries[i..]`.
pub open spec fn entries_usize(entries: Seq<(Seq<char>, NirNode)>, depth: nat, i: nat) -> Checked
    decreases max_depth() + 1 - depth, 1nat, entries.len() - i,
{
    if i >= entries.len() || depth > max_depth() {
        Ok(())
    } else {
        then(
            match entries[i as int].1 {
                NirNode::Graph(sub) => graph_usize(*sub, depth + 1),
                node => node_usize_check(entries[i as int].0, node),
            },
            entries_usize(entries, depth, i + 1),
        )
    }
}

fn check_extent_range(who: &str, field: &str, extent: usize) -> (r: Result<(), NirError>)
    ensures
        checked_view(r) == extent_range_check(who@, field@, extent),
{
    if extent as u64 > i64::MAX as u64 {
        return Err(
            NirError::InvalidTensor(
                String::from_str(who).concat(" ").concat(field).concat(": extent ").concat(
                    usize_text(extent).as_str(),
                ).concat(" does not fit in i64"),
            ),
        );
    }
    Ok(())
}

fn check_extents(who: &str, field: &str, extents: &[usize]) -> (r: Result<(), NirError>)
    ensures
        checked_view(r) == extents_check(who@, field@, extents@, 0),
{
    let mut i: usize = 0;
    while i < extents.len()
        invariant
            i <= extents@.len(),
            extents_check(who@, field@, extents@, 0) == extents_check(who@, field@, extents@, i as nat),
        decreases extents@.len() - i,
    {
        match check_extent_range(who, field, extents[i]) {
            Err(e) => return Err(e),
            Ok(()) => {},
        }
        i = i + 1;
    }
    Ok(())
}

fn expected_extents(allowed: &[usize]) -> (s: &'static str)
    ensures
        s@ == expected_extents_text(allowed@),
{
    if allowed.len() == 1 && allowed[0] == 1 {
        assert(allowed@ =~= seq![1usize]);
        "exactly one extent"
    } else if allowed.len() == 1 && allowed[0] == 2 {
        assert(allowed@ =~= seq![2usize]);
        assert(allowed@ != seq![1usize]) by {
            assert(seq![1usize][0] == 1);
        }
        "a (N_x, N_y) pair"
    } else {
        assert(allowed@ != seq![1usize]) by {
            if allowed@ == seq![1usize] {
                assert(allowed@[0] == 1);
            }
        }
        assert(allowed@ != seq![2usize]) by {
            if allowed@ == seq![2usize] {
                assert(allowed@[0] == 2);
            }
        }
        "one or two extents"
    }
}

fn check_extent_arity(who: &str, field: &str, found: usize, allowed: &[usize]) -> (r: Result<
    (),
    NirError,
>)
    ensures
        checked_view(r) == extent_arity_check(who@, field@, found, allowed@),
{
    let mut k: usize = 0;
    while k < allowed.len()
        invariant
            k <= allowed@.len(),
            forall|j: int| 0 <= j < k ==> #[trigger] allowed@[j] != found,
        decreases allowed@.len() - k,
    {
        if allowed[k] == found {
            assert(allowed@.contains(found));
            return Ok(());
        }
        k = k + 1;
    }
    Err(
        NirError::InvalidGraph(
            String::from_str(who).concat(" ").concat(field).concat(" must hold ").concat(
                expected_extents(allowed),
            ).concat(", found ").concat(usize_text(found).as_str()).concat(" values"),
        ),
    )
}

fn check_padding_arity(who: &str, padding: &Padding, allowed: &[usize]) -> (r: Result<(), NirError>)
    ensures
        checked_view(r) == padding_arity_check(who@, *padding, allowed@),
{
    match padding {
        Padding::Explicit(extents) => check_extent_arity(who, "padding", extents.len(), allowed),
        _ => Ok(()),
    }
}

fn check_conv1d_extents(who: &str, conv: &Conv1d) -> (r: Result<(), NirError>)
    ensures
        checked_view(r) == conv1d_extents_check(who@, *conv),
{
    let one = [1usize];
    assert(one@ =~= seq![1usize]);
    match check_extent_arity(who, "stride", conv.stride.len(), &one) {
        Err(e) => return Err(e),
        Ok(()) => {},
    }
    match check_extent_arity(who, "dilation", conv.dilation.len(), &one) {
        Err(e) => return Err(e),
        Ok(()) => {},
    }
    match check_padding_arity(who, &conv.padding, &one) {
        Err(e) => return Err(e),
        Ok(()) => {},
    }
    match conv.input_shape {
        Some(extent) => check_extent_range(who, "input_shape", extent),
        None => Ok(()),
    }
}

fn check_conv2d_extents(who: &str, conv: &Conv2d) -> (r: Result<(), NirError>)
    ensures
        checked_view(r) == conv2d_extents_check(who@, *conv),
{
    let one_or_two = [1usize, 2usize];
    assert(one_or_two@ =~= seq![1usize, 2usize]);
    let two = [2usize];
    assert(two@ =~= seq![2usize]);
    match check_extent_arity(who, "stride", conv.stride.len(), &one_or_two) {
        Err(e) => return Err(e),
        Ok(()) => {},
    }
    match check_extent_arity(who, "dilation", conv.dilation.len(), &one_or_two) {
        Err(e) => return Err(e),
        Ok(()) => {},
    }
    match check_padding_arity(who, &conv.padding, &one_or_two) {
        Err(e) => return Err(e),
        Ok(()) => {},
    }
    match &conv.input_shape {
        Some(shape) => {
            match check_extent_arity(who, "input_shape", shape.len(), &two) {
                Err(e) => return Err(e),
                Ok(()) => {},
            }
            check_extents(who, "input_shape", shape.as_slice())
        },
        None => Ok(()),
    }
}

fn check_node_usize(name: &str, node: &NirNode) -> (r: Result<(), NirError>)
    ensures
        checked_view(r) == node_usize_check(name@, *node),
{
    match node {
        NirNode::Input(n) => {
            let who = String::from_str("Input ").concat(quoted(name).as_str());
            check_extents(who.as_str(), "shape", n.shape.as_slice())
        },
        NirNode::Output(n) => {
            let who = String::from_str("Output ").concat(quoted(name).as_str());
            check_extents(who.as_str(), "shape", n.shape.as_slice())
        },
        NirNode::Flatten(n) => {
            let who = String::from_str("Flatten ").concat(quoted(name).as_str());
            match &n.input_type {
                Some(v) => check_extents(who.as_str(), "input_type", v.as_slice()),
                None => {
                    let none: [usize; 0] = [];
                    assert(none@ =~= Seq::<usize>::empty());
                    check_extents(who.as_str(), "input_type", &none)
                },
            }
        },
        NirNode::Conv1d(c) => {
            let who = String::from_str("Conv1d ").concat(quoted(name).as_str());
            check_conv1d_extents(who.as_str(), c)
        },
        NirNode::Conv2d(c) => {
            let who = String::from_str("Conv2d ").concat(quoted(name).as_str());
            check_conv2d_extents(who.as_str(), c)
        },
        _ => Ok(()),
    }
}

fn check_usize_fields_at(graph: &NirGraph, depth: usize) -> (r: Result<(), NirError>)
    ensures
        checked_view(r) == graph_usize(*graph, depth as nat),
    decreases max_depth() + 1 - depth, 2nat, 0nat,
{
    if depth > NirGraph::MAX_NESTING_DEPTH {
        return Err(count_exceeded());
    }
    let ghost entries = graph_entries(*graph);
    let n = graph.nodes.len();
    let mut i: usize = 0;
    while i < n
        invariant
            n == entries.len(),
            entries == graph_entries(*graph),
            i <= n,
            depth <= max_depth(),
            entries_usize(entries, depth as nat, 0) == entries_usize(entries, depth as nat, i as nat),
        decreases n - i,
    {
        let (name, node) = graph.nodes.get_index(i).unwrap();
        let checked = match node {
            NirNode::Graph(sub) => check_usize_fields_at(sub, depth + 1),
            _ => check_node_usize(name.as_str(), node),
        };
        match checked {
            Err(e) => return Err(e),
            Ok(()) => {},
        }
        i = i + 1;
    }
    Ok(())
}

/// Reject `usize` fields and convolution extents that the wire cannot carry:
/// extents above `i64::MAX`, and convolution extent lists of the wrong arity.
pub fn check_usize_fields(graph: &NirGraph) -> (r: Result<(), NirError>)
    ensures
        checked_view(r) == graph_usize(*graph, 0),
{
    check_usize_fields_at(graph, 0)
}

// ---------------------------------------------------------------------------
// Tensor ranks
// ---------------------------------------------------------------------------

/// HDF5's limit on the rank of a dataset.
pub const MAX_RANK: usize = 32usize;

/// A tensor's rank is within HDF5's limit.
pub open spec fn rank_check(t: Tensor, context: Seq<char>, field: Seq<char>) -> Checked {
    if t.shape_view().len() > 32 {
        Err(
            ErrorModel::InvalidTensor(
                context + " "@ + field + ": rank "@ + decimal(t.shape_view().len())
                    + " exceeds HDF5 limit of 32"@,
            ),
        )
    } else {
        Ok(())
    }
}

/// An optional tensor's rank is within HDF5's limit.
pub open spec fn opt_rank_check(t: Option<Tensor>, context: Seq<char>, field: Seq<char>) -> Checked {
    match t {
        Some(t) => rank_check(t, context, field),
        None => Ok(()),
    }
}

/// Every tensor field of one non-graph node, in field order.
pub open spec fn node_ranks_check(node: NirNode, c: Seq<char>) -> Checked {
    match node {
        NirNode::Affine(n) => then(rank_check(n.weight, c, "weight"@), rank_check(n.bias, c, "bias"@)),
        NirNode::Linear(n) => rank_check(n.weight, c, "weight"@),
        NirNode::Scale(n) => rank_check(n.scale, c, "scale"@),
        NirNode::Conv1d(n) => then(rank_check(n.weight, c, "weight"@), rank_check(n.bias, c, "bias"@)),
        NirNode::Conv2d(n) => then(rank_check(n.weight, c, "weight"@), rank_check(n.bias, c, "bias"@)),
        NirNode::CubaLi(n) => then(
            rank_check(n.tau_syn, c, "tau_syn"@),
            then(
                rank_check(n.tau_mem, c, "tau_mem"@),
                then(
                    rank_check(n.r, c, "r"@),
                    then(rank_check(n.v_leak, c, "v_leak"@), opt_rank_check(n.w_in, c, "w_in"@)),
                ),
            ),
        ),
        NirNode::CubaLif(n) => then(
            rank_check(n.tau_syn, c, "tau_syn"@),
            then(
                rank_check(n.tau_mem, c, "tau_mem"@),
                then(
                    rank_check(n.r, c, "r"@),
                    then(
                        rank_check(n.v_leak, c, "v_leak"@),
                        then(
                            rank_check(n.v_threshold, c, "v_threshold"@),
                            then(
                                opt_rank_check(n.v_reset, c, "v_reset"@),
                                opt_rank_check(n.w_in, c, "w_in"@),
                            ),
                        ),
                    ),
                ),
            ),
        ),
        NirNode::Delay(n) => rank_check(n.delay, c, "delay"@),
        NirNode::I(n) => rank_check(n.r, c, "r"@),
        NirNode::If(n) => then(
            rank_check(n.r, c, "r"@),
            then(rank_check(n.v_threshold, c, "v_threshold"@), opt_rank_check(n.v_reset, c, "v_reset"@)),
        ),
        NirNode::Li(n) => then(
            rank_check(n.tau, c, "tau"@),
            then(rank_check(n.r, c, "r"@), rank_check(n.v_leak, c, "v_leak"@)),
        ),
        NirNode::Lif(n) => then(
            rank_check(n.tau, c, "tau"@),
            then(
                rank_check(n.r, c, "r"@),
                then(
                    rank_check(n.v_leak, c, "v_leak"@),
                    then(rank_check(n.v_threshold, c, "v_threshold"@), opt_rank_check(n.v_reset, c, "v_reset"@)),
                ),
            ),
        ),
        NirNode::SumPool2d(n) => then(
            rank_check(n.kernel_size, c, "kernel_size"@),
            then(rank_check(n.stride, c, "stride"@), rank_check(n.padding, c, "padding"@)),
        ),
        NirNode::AvgPool2d(n) => then(
            rank_check(n.kernel_size, c, "kernel_size"@),
            then(rank_check(n.stride, c, "stride"@), rank_check(n.padding, c, "padding"@)),
        ),
        NirNode::Threshold(n) => rank_check(n.threshold, c, "threshold"@),
        _ => Ok(()),
    }
}

/// The tensor fields of one node in declaration order, each with its field
/// name; an optional field is `None` when absent. Input, Output, Flatten and
/// nested graphs have none.
pub open spec fn node_tensor_fields(node: NirNode) -> Seq<(Seq<char>, Option<Tensor>)> {
    match node {
        NirNode::Affine(n) => seq![("weight"@, Some(n.weight)), ("bias"@, Some(n.bias))],
        NirNode::Linear(n) => seq![("weight"@, Some(n.weight))],
        NirNode::Scale(n) => seq![("scale"@, Some(n.scale))],
        NirNode::Conv1d(n) => seq![("weight"@, Some(n.weight)), ("bias"@, Some(n.bias))],
        NirNode::Conv2d(n) => seq![("weight"@, Some(n.weight)), ("bias"@, Some(n.bias))],
        NirNode::CubaLi(n) => seq![
            ("tau_syn"@, Some(n.tau_syn)),
            ("tau_mem"@, Some(n.tau_mem)),
            ("r"@, Some(n.r)),
            ("v_leak"@, Some(n.v_leak)),
            ("w_in"@, n.w_in),
        ],
        NirNode::CubaLif(n) => seq![
            ("tau_syn"@, Some(n.tau_syn)),
            ("tau_mem"@, Some(n.tau_mem)),
            ("r"@, Some(n.r)),
            ("v_leak"@, Some(n.v_leak)),
            ("v_threshold"@, Some(n.v_threshold)),
            ("v_reset"@, n.v_reset),
            ("w_in"@, n.w_in),
        ],
        NirNode::Delay(n) => seq![("delay"@, Some(n.delay))],
        NirNode::I(n) => seq![("r"@, Some(n.r))],
        NirNode::If(n) => seq![
            ("r"@, Some(n.r)),
            ("v_threshold"@, Some(n.v_threshold)),
            ("v_reset"@, n.v_reset),
        ],
        NirNode::Li(n) => seq![("tau"@, Some(n.tau)), ("r"@, Some(n.r)), ("v_leak"@, Some(n.v_leak))],
        NirNode::Lif(n) => seq![
            ("tau"@, Some(n.tau)),
            ("r"@, Some(n.r)),
            ("v_leak"@, Some(n.v_leak)),
            ("v_threshold"@, Some(n.v_threshold)),
            ("v_reset"@, n.v_reset),
        ],
        NirNode::SumPool2d(n) => seq![
            ("kernel_size"@, Some(n.kernel_size)),
            ("stride"@, Some(n.stride)),
            ("padding"@, Some(n.padding)),
        ],
        NirNode::AvgPool2d(n) => seq![
            ("kernel_size"@, Some(n.kernel_size)),
            ("stride"@, Some(n.stride)),
            ("padding"@, Some(n.padding)),
        ],
        NirNode::Threshold(n) => seq![("threshold"@, Some(n.threshold))],
        _ => seq![],
    }
}

/// A field is absent or has a rank within HDF5's limit.
pub open spec fn rank_fits(t: Option<Tensor>) -> bool {
    t matches Some(x) ==> x.shape_view().len() <= 32
}

/// The rank check of the fields from `i` on, the first failure winning.
pub open spec fn fields_ranks_check(fields: Seq<(Seq<char>, Option<Tensor>)>, c: Seq<char>, i: nat) -> Checked
    decreases fields.len() - i,
{
    if i >= fields.len() {
        Ok(())
    } else {
        then(opt_rank_check(fields[i as int].1, c, fields[i as int].0), fields_ranks_check(fields, c, i + 1))
    }
}

proof fn fields_ranks_first_failure(fields: Seq<(Seq<char>, Option<Tensor>)>, c: Seq<char>, i: nat)
    requires
        i <= fields.len(),
    ensures
        fields_ranks_check(fields, c, i) is Ok <==> (forall|j: int|
            i <= j < fields.len() ==> #[trigger] rank_fits(fields[j].1)),
        fields_ranks_check(fields, c, i) is Err ==> exists|j: int|
            i <= j < fields.len() && !#[trigger] rank_fits(fields[j].1) && (forall|k: int|
                i <= k < j ==> rank_fits(fields[k].1)) && fields_ranks_check(fields, c, i)
                == opt_rank_check(fields[j].1, c, fields[j].0),
    decreases fields.len() - i,
{
    if i < fields.len() {
        fields_ranks_first_failure(fields, c, i + 1);
        if !rank_fits(fields[i as int].1) {
            assert(forall|k: int| i <= k < i ==> rank_fits(fields[k].1));
        } else if fields_ranks_check(fields, c, i) is Err {
            let j = choose|j: int|
                i + 1 <= j < fields.len() && !#[trigger] rank_fits(fields[j].1) && (forall|k: int|
                    i + 1 <= k < j ==> rank_fits(fields[k].1)) && fields_ranks_check(fields, c, i + 1)
                    == opt_rank_check(fields[j].1, c, fields[j].0);
            assert forall|k: int| i <= k < j implies rank_fits(fields[k].1) by {
                if k > i {
                }
            }
        }
    }
}

/// A node's tensor fields pass the rank check exactly when every present one
/// has rank at most 32; otherwise the error names the first field, in
/// declaration order, whose rank is above the limit.
pub proof fn node_ranks_first_failure(node: NirNode, c: Seq<char>)
    ensures
        node_ranks_check(node, c) is Ok <==> (forall|j: int|
            0 <= j < node_tensor_fields(node).len() ==> #[trigger] rank_fits(
                node_tensor_fields(node)[j].1,
            )),
        node_ranks_check(node, c) is Err ==> exists|j: int|
            0 <= j < node_tensor_fields(node).len() && !#[trigger] rank_fits(
                node_tensor_fields(node)[j].1,
            ) && (forall|k: int|
                0 <= k < j ==> rank_fits(node_tensor_fields(node)[k].1)) && node_ranks_check(node, c)
                == opt_rank_check(node_tensor_fields(node)[j].1, c, node_tensor_fields(node)[j].0),
{
    let f = node_tensor_fields(node);
    assert(node_ranks_check(node, c) == fields_ranks_check(f, c, 0)) by {
        reveal_with_fuel(fields_ranks_check, 8);
    }
    fields_ranks_first_failure(f, c, 0);
}

/// Every tensor metadata value from entry `i` on has an allowed rank.
pub open spec fn metadata_ranks_check(
    entries: Seq<(Seq<char>, MetadataValue)>,
    context: Seq<char>,
    i: nat,
) -> Checked
    decreases entries.len() - i,
{
    if i >= entries.len() {
        Ok(())
    } else {
        then(
            match entries[i as int].1 {
                MetadataValue::Tensor(t) => rank_check(t, context, "metadata."@ + entries[i as int].0),
                _ => Ok(()),
            },
            metadata_ranks_check(entries, context, i + 1),
        )
    }
}

/// Tensor rank checks of `g`: its metadata, then its nodes.
pub open spec fn graph_ranks(g: NirGraph, depth: nat) -> Checked
    decreases max_depth() + 1 - depth, 2nat, 0nat,
{
    if depth > max_depth() {
        Err(count_error())
    } else {
        then(
            metadata_ranks_check(g.metadata@, "graph metadata"@, 0),
            entries_ranks(graph_entries(g), depth, 0),
        )
    }
}

/// Tensor rank checks of `entries[i..]`: a subgraph whole, any other node by
/// its tensor fields and then its metadata.
pub open spec fn entries_ranks(entries: Seq<(Seq<char>, NirNode)>, depth: nat, i: nat) -> Checked
    decreases max_depth() + 1 - depth, 1nat, entries.len() - i,
{
    if i >= entries.len() || depth > max_depth() {
        Ok(())
    } else {
        let c = "node "@ + debug_quoted(entries[i as int].0);
        then(
            match entries[i as int].1 {
                NirNode::Graph(sub) => graph_ranks(*sub, depth + 1),
                node => then(
                    node_ranks_check(node, c),
                    metadata_ranks_check(node_metadata_of(node)@, c, 0),
                ),
            },
            entries_ranks(entries, depth, i + 1),
        )
    }
}

fn check_tensor_rank(tensor: &Tensor, context: &str, field: &str) -> (r: Result<(), NirError>)
    ensures
        checked_view(r) == rank_check(*tensor, context@, field@),
{
    let rank = tensor.ndim();
    if rank > MAX_RANK {
        return Err(
            NirError::InvalidTensor(
                String::from_str(context).concat(" ").concat(field).concat(": rank ").concat(
                    usize_text(rank).as_str(),
                ).concat(" exceeds HDF5 limit of 32"),
            ),
        );
    }
    Ok(())
}

fn check_opt_tensor_rank(tensor: &Option<Tensor>, context: &str, field: &str) -> (r: Result<
    (),
    NirError,
>)
    ensures
        checked_view(r) == opt_rank_check(*tensor, context@, field@),
{
    match tensor {
        Some(t) => check_tensor_rank(t, context, field),
        None => Ok(()),
    }
}

/// Check that every tensor field of one node (a present optional one
/// included) has a rank HDF5 can store; `c` names the node in the error.
/// Nested graphs are checked through their own nodes.
pub fn check_node_tensor_ranks(node: &NirNode, c: &str) -> (r: Result<(), NirError>)
    ensures
        checked_view(r) == node_ranks_check(*node, c@),
{
    match node {
        NirNode::Affine(n) => {
            match check_tensor_rank(&n.weight, c, "weight") { Err(e) => return Err(e), Ok(()) => {} }
            check_tensor_rank(&n.bias, c, "bias")
        },
        NirNode::Linear(n) => check_tensor_rank(&n.weight, c, "weight"),
        NirNode::Scale(n) => check_tensor_rank(&n.scale, c, "scale"),
        NirNode::Conv1d(n) => {
            match check_tensor_rank(&n.weight, c, "weight") { Err(e) => return Err(e), Ok(()) => {} }
            check_tensor_rank(&n.bias, c, "bias")
        },
        NirNode::Conv2d(n) => {
            match check_tensor_rank(&n.weight, c, "weight") { Err(e) => return Err(e), Ok(()) => {} }
            check_tensor_rank(&n.bias, c, "bias")
        },
        NirNode::CubaLi(n) => {
            match check_tensor_rank(&n.tau_syn, c, "tau_syn") { Err(e) => return Err(e), Ok(()) => {} }
            match check_tensor_rank(&n.tau_mem, c, "tau_mem") { Err(e) => return Err(e), Ok(()) => {} }
            match check_tensor_rank(&n.r, c, "r") { Err(e) => return Err(e), Ok(()) => {} }
            match check_tensor_rank(&n.v_leak, c, "v_leak") { Err(e) => return Err(e), Ok(()) => {} }
            check_opt_tensor_rank(&n.w_in, c, "w_in")
        },
        NirNode::CubaLif(n) => {
            match check_tensor_rank(&n.tau_syn, c, "tau_syn") { Err(e) => return Err(e), Ok(()) => {} }
            match check_tensor_rank(&n.tau_mem, c, "tau_mem") { Err(e) => return Err(e), Ok(()) => {} }
            match check_tensor_rank(&n.r, c, "r") { Err(e) => return Err(e), Ok(()) => {} }
            match check_tensor_rank(&n.v_leak, c, "v_leak") { Err(e) => return Err(e), Ok(()) => {} }
            match check_tensor_rank(&n.v_threshold, c, "v_threshold") { Err(e) => return Err(e), Ok(()) => {} }
            match check_opt_tensor_rank(&n.v_reset, c, "v_reset") { Err(e) => return Err(e), Ok(()) => {} }
            check_opt_tensor_rank(&n.w_in, c, "w_in")
        },
        NirNode::Delay(n) => check_tensor_rank(&n.delay, c, "delay"),
        NirNode::I(n) => check_tensor_rank(&n.r, c, "r"),
        NirNode::If(n) => {
            match check_tensor_rank(&n.r, c, "r") { Err(e) => return Err(e), Ok(()) => {} }
            match check_tensor_rank(&n.v_threshold, c, "v_threshold") { Err(e) => return Err(e), Ok(()) => {} }
            check_opt_tensor_rank(&n.v_reset, c, "v_reset")
        },
        NirNode::Li(n) => {
            match check_tensor_rank(&n.tau, c, "tau") { Err(e) => return Err(e), Ok(()) => {} }
            match check_tensor_rank(&n.r, c, "r") { Err(e) => return Err(e), Ok(()) => {} }
            check_tensor_rank(&n.v_leak, c, "v_leak")
        },
        NirNode::Lif(n) => {
            match check_tensor_rank(&n.tau, c, "tau") { Err(e) => return Err(e), Ok(()) => {} }
            match check_tensor_rank(&n.r, c, "r") { Err(e) => return Err(e), Ok(()) => {} }
            match check_tensor_rank(&n.v_leak, c, "v_leak") { Err(e) => return Err(e), Ok(()) => {} }
            match check_tensor_rank(&n.v_threshold, c, "v_threshold") { Err(e) => return Err(e), Ok(()) => {} }
            check_opt_tensor_rank(&n.v_reset, c, "v_reset")
        },
        NirNode::SumPool2d(n) => {
            match check_tensor_rank(&n.kernel_size, c, "kernel_size") { Err(e) => return Err(e), Ok(()) => {} }
            match check_tensor_rank(&n.stride, c, "stride") { Err(e) => return Err(e), Ok(()) => {} }
            check_tensor_rank(&n.padding, c, "padding")
        },
        NirNode::AvgPool2d(n) => {
            match check_tensor_rank(&n.kernel_size, c, "kernel_size") { Err(e) => return Err(e), Ok(()) => {} }
            match check_tensor_rank(&n.stride, c, "stride") { Err(e) => return Err(e), Ok(()) => {} }
            check_tensor_rank(&n.padding, c, "padding")
        },
        NirNode::Threshold(n) => check_tensor_rank(&n.threshold, c, "threshold"),
        NirNode::Input(_) | NirNode::Output(_) | NirNode::Flatten(_) | NirNode::Graph(_) => Ok(()),
    }
}

fn check_metadata_tensor_ranks(metadata: &MetadataMap, context: &str) -> (r: Result<(), NirError>)
    ensures
        checked_view(r) == metadata_ranks_check(metadata@, context@, 0),
{
    let n = metadata.len();
    let mut i: usize = 0;
    while i < n
        invariant
            n == metadata@.len(),
            i <= n,
            metadata_ranks_check(metadata@, context@, 0) == metadata_ranks_check(
                metadata@,
                context@,
                i as nat,
            ),
        decreases n - i,
    {
        let (key, value) = metadata.get_index(i).unwrap();
        match value {
            MetadataValue::Tensor(t) => {
                let field = String::from_str("metadata.").concat(key.as_str());
                match check_tensor_rank(t, context, field.as_str()) {
                    Err(e) => return Err(e),
                    Ok(()) => {},
                }
            },
            _ => {},
        }
        i = i + 1;
    }
    Ok(())
}

fn check_tensor_ranks_at(graph: &NirGraph, depth: usize) -> (r: Result<(), NirError>)
    ensures
        checked_view(r) == graph_ranks(*graph, depth as nat),
    decreases max_depth() + 1 - depth, 2nat, 0nat,
{
    if depth > NirGraph::MAX_NESTING_DEPTH {
        return Err(count_exceeded());
    }
    match check_metadata_tensor_ranks(&graph.metadata, "graph metadata") {
        Err(e) => return Err(e),
        Ok(()) => {},
    }
    let ghost entries = graph_entries(*graph);
    let n = graph.nodes.len();
    let mut i: usize = 0;
    while i < n
        invariant
            n == entries.len(),
            entries == graph_entries(*graph),
            i <= n,
            depth <= max_depth(),
            graph_ranks(*graph, depth as nat) == entries_ranks(entries, depth as nat, i as nat),
        decreases n - i,
    {
        let (name, node) = graph.nodes.get_index(i).unwrap();
        assert(name@ == entries[i as int].0 && *node == entries[i as int].1);
        let c = String::from_str("node ").concat(quoted(name.as_str()).as_str());
        assert(c@ == "node "@ + debug_quoted(entries[i as int].0));
        match node {
            NirNode::Graph(sub) => match check_tensor_ranks_at(sub, depth + 1) {
                Err(e) => return Err(e),
                Ok(()) => {},
            },
            _ => {
                match check_node_tensor_ranks(node, c.as_str()) {
                    Err(e) => return Err(e),
                    Ok(()) => {},
                }
                match check_metadata_tensor_ranks(node_metadata(node), c.as_str()) {
                    Err(e) => return Err(e),
                    Ok(()) => {},
                }
            },
        }
        i = i + 1;
    }
    Ok(())
}

/// Reject tensors — node fields and metadata values, at any nesting depth —
/// whose rank exceeds HDF5's limit of 32.
pub fn check_tensor_ranks(graph: &NirGraph) -> (r: Result<(), NirError>)
    ensures
        checked_view(r) == graph_ranks(*graph, 0),
{
    check_tensor_ranks_at(graph, 0)
}

// ---------------------------------------------------------------------------
// Lossless representation
// ---------------------------------------------------------------------------

/// No metadata value from entry `i` on is a rank-0 tensor.
pub open spec fn metadata_values_check(
    entries: Seq<(Seq<char>, MetadataValue)>,
    context: Seq<char>,
    i: nat,
) -> Checked
    decreases entries.len() - i,
{
    if i >= entries.len() {
        Ok(())
    } else {
        match entries[i as int].1 {
            MetadataValue::Tensor(t) => if t.shape_view().len() == 0 {
                Err(
                    ErrorModel::InvalidGraph(
                        context + ": "@ + debug_quoted(entries[i as int].0)
                            + " is a rank-0 tensor, which the wire format cannot tell apart from a scalar; use MetadataValue::F64/I64/Bool instead"@,
                    ),
                )
            } else {
                metadata_values_check(entries, context, i + 1)
            },
            _ => metadata_values_check(entries, context, i + 1),
        }
    }
}

/// The error for a subgraph named `name` that carries its own version.
pub open spec fn nested_version_error(name: Seq<char>) -> ErrorModel {
    ErrorModel::InvalidGraph(
        "subgraph "@ + debug_quoted(name)
            + " carries a version, but the wire format has only the root /version; clear it or set it on the root graph"@,
    )
}

/// Representation checks of `g`: its metadata, then each node's metadata
/// and, for a subgraph, its version and contents.
pub open spec fn graph_representable(g: NirGraph, depth: nat) -> Checked
    decreases max_depth() + 1 - depth, 2nat, 0nat,
{
    if depth > max_depth() {
        Err(count_error())
    } else {
        then(
            metadata_values_check(g.metadata@, "graph metadata"@, 0),
            entries_representable(graph_entries(g), depth, 0),
        )
    }
}

/// Representation checks of `entries[i..]`.
pub open spec fn entries_representable(
    entries: Seq<(Seq<char>, NirNode)>,
    depth: nat,
    i: nat,
) -> Checked
    decreases max_depth() + 1 - depth, 1nat, entries.len() - i,
{
    if i >= entries.len() || depth > max_depth() {
        Ok(())
    } else {
        let name = entries[i as int].0;
        then(
            metadata_values_check(
                node_metadata_of(entries[i as int].1)@,
                "metadata of node "@ + debug_quoted(name),
                0,
            ),
            then(
                match entries[i as int].1 {
                    NirNode::Graph(sub) => if sub.version is Some {
                        Err(nested_version_error(name))
                    } else {
                        graph_representable(*sub, depth + 1)
                    },
                    _ => Ok(()),
                },
                entries_representable(entries, depth, i + 1),
            ),
        )
    }
}

fn check_metadata_values(metadata: &MetadataMap, context: &str) -> (r: Result<(), NirError>)
    ensures
        checked_view(r) == metadata_values_check(metadata@, context@, 0),
{
    let n = metadata.len();
    let mut i: usize = 0;
    while i < n
        invariant
            n == metadata@.len(),
            i <= n,
            metadata_values_check(metadata@, context@, 0) == metadata_values_check(
                metadata@,
                context@,
                i as nat,
            ),
        decreases n - i,
    {
        let (key, value) = metadata.get_index(i).unwrap();
        match value {
            MetadataValue::Tensor(t) => {
                if t.ndim() == 0 {
                    return Err(
                        NirError::InvalidGraph(
                            String::from_str(context).concat(": ").concat(
                                quoted(key.as_str()).as_str(),
                            ).concat(
                                " is a rank-0 tensor, which the wire format cannot tell apart from a scalar; use MetadataValue::F64/I64/Bool instead",
                            ),
                        ),
                    );
                }
            },
            _ => {},
        }
        i = i + 1;
    }
    Ok(())
}

fn check_representable_at(graph: &NirGraph, depth: usize) -> (r: Result<(), NirError>)
    ensures
        checked_view(r) == graph_representable(*graph, depth as nat),
    decreases max_depth() + 1 - depth, 2nat, 0nat,
{
    if depth > NirGraph::MAX_NESTING_DEPTH {
        return Err(count_exceeded());
    }
    match check_metadata_values(&graph.metadata, "graph metadata") {
        Err(e) => return Err(e),
        Ok(()) => {},
    }
    let ghost entries = graph_entries(*graph);
    let n = graph.nodes.len();
    let mut i: usize = 0;
    while i < n
        invariant
            n == entries.len(),
            entries == graph_entries(*graph),
            i <= n,
            depth <= max_depth(),
            graph_representable(*graph, depth as nat) == entries_representable(
                entries,
                depth as nat,
                i as nat,
            ),
        decreases n - i,
    {
        let (name, node) = graph.nodes.get_index(i).unwrap();
        assert(name@ == entries[i as int].0 && *node == entries[i as int].1);
        let context = String::from_str("metadata of node ").concat(quoted(name.as_str()).as_str());
        assert(context@ == "metadata of node "@ + debug_quoted(entries[i as int].0));
        match check_metadata_values(node_metadata(node), context.as_str()) {
            Err(e) => return Err(e),
            Ok(()) => {},
        }
        match node {
            NirNode::Graph(sub) => {
                if sub.version.is_some() {
                    return Err(
                        NirError::InvalidGraph(
                            String::from_str("subgraph ").concat(quoted(name.as_str()).as_str()).concat(
                                " carries a version, but the wire format has only the root /version; clear it or set it on the root graph",
                            ),
                        ),
                    );
                }
                match check_representable_at(sub, depth + 1) {
                    Err(e) => return Err(e),
                    Ok(()) => {},
                }
            },
            _ => {},
        }
        i = i + 1;
    }
    Ok(())
}

/// Reject in-memory values the wire format cannot carry back unchanged: a
/// version on a nested graph (the wire has exactly one `/version`, at the
/// root), and a rank-0 metadata tensor (indistinguishable on the wire from a
/// scalar metadata value).
pub fn check_representable(graph: &NirGraph) -> (r: Result<(), NirError>)
    ensures
        checked_view(r) == graph_representable(*graph, 0),
{
    check_representable_at(graph, 0)
}

// ---------------------------------------------------------------------------
// The whole preflight
// ---------------------------------------------------------------------------

/// The version string a write emits: the options' override, else the
/// graph's own version, else [`DEFAULT_NIR_VERSION`].
pub open spec fn chosen_version(graph: NirGraph, opts: WriteOptions) -> Seq<char> {
    match opts.version {
        Some(v) => v@,
        None => match graph.version {
            Some(v) => v@,
            None => DEFAULT_NIR_VERSION@,
        },
    }
}

/// The version string a write emits for `graph` under `opts`.
pub fn choose_version(graph: &NirGraph, opts: &WriteOptions) -> (v: String)
    ensures
        v@ == chosen_version(*graph, *opts),
{
    match &opts.version {
        Some(v) => v.clone(),
        None => match &graph.version {
            Some(v) => v.clone(),
            None => DEFAULT_NIR_VERSION.to_owned(),
        },
    }
}

/// Everything a write checks before touching the filesystem, in order: the
/// version to write, or the first error.
pub open spec fn preflight_check(graph: NirGraph, opts: WriteOptions) -> Result<Seq<char>, ErrorModel> {
    let version = chosen_version(graph, opts);
    let checked = then(
        names_check(graph),
        then(
            if opts.validate {
                then(structure_check(graph, 0), graph_representable(graph, 0))
            } else {
                Ok(())
            },
            then(
                strings_check(graph, version),
                then(
                    graph_usize(graph, 0),
                    then(graph_ranks(graph, 0), compression_check(opts.compression)),
                ),
            ),
        ),
    );
    match checked {
        Err(e) => Err(e),
        Ok(()) => Ok(version),
    }
}

/// Run every check a write performs before touching the filesystem and
/// return the version string to write.
///
/// Name legality is not optional — HDF5 cannot represent the rejected names
/// at all. Structure and representation checks run only when
/// `opts.validate` is set.
pub fn preflight(graph: &NirGraph, opts: &WriteOptions) -> (r: Result<String, NirError>)
    ensures
        match preflight_check(*graph, *opts) {
            Ok(v) => r matches Ok(s) && s@ == v,
            Err(e) => r matches Err(x) && x@ == e,
        },
{
    match check_names(graph) {
        Err(e) => return Err(e),
        Ok(()) => {},
    }
    if opts.validate {
        match graph.validate_structure() {
            Err(e) => return Err(e),
            Ok(()) => {},
        }
        match check_representable(graph) {
            Err(e) => return Err(e),
            Ok(()) => {},
        }
    }
    let version = choose_version(graph, opts);
    match check_string_values(graph, version.as_str()) {
        Err(e) => return Err(e),
        Ok(()) => {},
    }
    match check_usize_fields(graph) {
        Err(e) => return Err(e),
        Ok(()) => {},
    }
    match check_tensor_ranks(graph) {
        Err(e) => return Err(e),
        Ok(()) => {},
    }
    match check_compression(opts.compression) {
        Err(e) => return Err(e),
        Ok(()) => {},
    }
    Ok(version)
}

/// A graph that passes the pre-write checks has legal link names and at most
/// [`MAX_NESTED_GRAPHS`] graphs, writable strings, extents, ranks and deflate
/// level, and — with validation on — a valid structure and values the wire
/// carries back unchanged.
pub proof fn passing_preflight_means_writable(graph: NirGraph, opts: WriteOptions)
    requires
        preflight_check(graph, opts) is Ok,
    ensures
        names_check(graph) is Ok,
        opts.validate ==> structure_check(graph, 0) is Ok && graph_representable(graph, 0) is Ok,
        strings_check(graph, chosen_version(graph, opts)) is Ok,
        graph_usize(graph, 0) is Ok,
        graph_ranks(graph, 0) is Ok,
        compression_check(opts.compression) is Ok,
        preflight_check(graph, opts) == Ok::<Seq<char>, ErrorModel>(chosen_version(graph, opts)),
{
}

} // verus!

//! In-memory NIR graph model.
//!
//! A graph is a named set of computational nodes plus a list of directed
//! identity edges (`nodes`, `edges`, `metadata`, optional `version`). Cycles
//! are allowed; structure validation only checks edge endpoints, duplicate
//! directed edges, and nested [`NirNode::Graph`] subgraphs. Validation walks
//! those subgraphs on a heap-allocated work list so process-stack usage does
//! not grow with nesting depth.

use vstd::prelude::*;
use indexmap::IndexMap;
use crate::error::{checked_view, error_text, Checked, ErrorModel, NirError};
use crate::text::{decimal, debug_quoted, quoted, usize_text};
use crate::nodes::NirNode;
use crate::types::{MetadataMap, MetadataValue};

verus! {

/// Insertion-ordered map from node name to node, backed by [`IndexMap`].
///
/// Its contents are modelled by [`node_entries`]: the `(name, node)` pairs
/// in insertion order.
#[verifier::external_body]
#[derive(Debug, PartialEq)]
pub struct NodeMap {
    map: IndexMap<String, NirNode>,
}

/// A borrowed `(name, node)` entry of a [`NodeMap`].
pub type NodeRef<'a> = (&'a String, &'a NirNode);

/// The `(name, node)` pairs of a [`NodeMap`], in insertion order.
pub uninterp spec fn node_entries(m: NodeMap) -> Seq<(Seq<char>, NirNode)>;

impl Clone for NodeMap {
    /// Trusted: calls `IndexMap::clone`; nothing is stated of the copy.
    #[verifier::external_body]
    fn clone(&self) -> (c: Self) {
        NodeMap { map: self.map.clone() }
    }
}

/// The names of `entries`, in order.
pub open spec fn entry_names(entries: Seq<(Seq<char>, NirNode)>) -> Seq<Seq<char>> {
    entries.map_values(|e: (Seq<char>, NirNode)| e.0)
}

/// Index of the entry named `name`, or `-1` when there is none.
pub open spec fn entry_position(entries: Seq<(Seq<char>, NirNode)>, name: Seq<char>) -> int
    decreases entries.len(),
{
    if entries.len() == 0 {
        -1
    } else if entries[0].0 == name {
        0
    } else {
        let rest = entry_position(entries.drop_first(), name);
        if rest < 0 { -1 } else { rest + 1 }
    }
}

/// `entry_position` finds an entry exactly when a name occurs.
pub proof fn entry_position_spec(entries: Seq<(Seq<char>, NirNode)>, name: Seq<char>)
    ensures
        entry_position(entries, name) < 0 <==> !entry_names(entries).contains(name),
        entry_position(entries, name) >= 0 ==> {
            let i = entry_position(entries, name);
            &&& i < entries.len()
            &&& entries[i].0 == name
            &&& forall|j: int| 0 <= j < i ==> entries[j].0 != name
        },
        entry_position(entries, name) >= -1,
    decreases entries.len(),
{
    if entries.len() > 0 {
        entry_position_spec(entries.drop_first(), name);
        let names = entry_names(entries);
        let rest = entry_names(entries.drop_first());
        assert(rest =~= names.drop_first());
        if entries[0].0 != name {
            if names.contains(name) {
                let k = choose|k: int| 0 <= k < names.len() && names[k] == name;
                assert(rest[k - 1] == name);
            }
            if rest.contains(name) {
                let k = choose|k: int| 0 <= k < rest.len() && rest[k] == name;
                assert(names[k + 1] == name);
            }
            assert forall|j: int| 0 <= j < entry_position(entries, name) implies entries[j].0
                != name by {
                if j > 0 {
                    assert(entries[j] == entries.drop_first()[j - 1]);
                }
            }
        } else {
            assert(names[0] == name);
        }
    }
}

/// A node inserted under a new name is found under that name, and every
/// other name finds what it found before.
pub proof fn inserted_node_is_found(
    entries: Seq<(Seq<char>, NirNode)>,
    name: Seq<char>,
    node: NirNode,
    other: Seq<char>,
)
    requires
        !entry_names(entries).contains(name),
    ensures
        entry_position(entries.push((name, node)), name) == entries.len(),
        entries.push((name, node))[entries.len() as int].1 == node,
        other != name ==> entry_position(entries.push((name, node)), other) == entry_position(
            entries,
            other,
        ),
    decreases entries.len(),
{
    let after = entries.push((name, node));
    if entries.len() > 0 {
        assert(after.drop_first() =~= entries.drop_first().push((name, node)));
        assert(entries[0].0 != name) by {
            assert(entry_names(entries)[0] == entries[0].0);
        }
        assert(!entry_names(entries.drop_first()).contains(name)) by {
            if entry_names(entries.drop_first()).contains(name) {
                let k = choose|k: int|
                    0 <= k < entry_names(entries.drop_first()).len() && entry_names(
                        entries.drop_first(),
                    )[k] == name;
                assert(entry_names(entries)[k + 1] == name);
            }
        }
        inserted_node_is_found(entries.drop_first(), name, node, other);
        assert(after[0] == entries[0]);
    } else {
        assert(after.drop_first() =~= Seq::<(Seq<char>, NirNode)>::empty());
        assert(entry_position(after.drop_first(), other) == -1);
    }
}

impl NodeMap {
    /// An empty map.
    ///
    /// Trusted: calls `IndexMap::new`, which starts with no entries.
    #[verifier::external_body]
    pub fn new() -> (m: NodeMap)
        ensures
            node_entries(m) == Seq::<(Seq<char>, NirNode)>::empty(),
    {
        NodeMap { map: IndexMap::new() }
    }

    /// Number of entries.
    ///
    /// Trusted: calls `IndexMap::len`.
    #[verifier::external_body]
    pub fn len(&self) -> (n: usize)
        ensures
            n == node_entries(*self).len(),
    {
        self.map.len()
    }

    /// Whether the map has no entries.
    pub fn is_empty(&self) -> (b: bool)
        ensures
            b == (node_entries(*self).len() == 0),
    {
        self.len() == 0
    }

    /// The `i`-th entry in insertion order.
    ///
    /// Trusted: calls `IndexMap::get_index`, which returns the entry at that
    /// position, or `None` past the end.
    #[verifier::external_body]
    pub fn get_index(&self, i: usize) -> (r: Option<NodeRef<'_>>)
        ensures
            i < node_entries(*self).len() ==> r is Some,
            i < node_entries(*self).len() ==> r.unwrap().0@ == node_entries(*self)[i as int].0,
            i < node_entries(*self).len() ==> *r.unwrap().1 == node_entries(*self)[i as int].1,
            i >= node_entries(*self).len() ==> r is None,
    {
        self.map.get_index(i)
    }

    /// Whether an entry is named `key`.
    ///
    /// Trusted: calls `IndexMap::contains_key`.
    #[verifier::external_body]
    pub fn contains_key(&self, key: &str) -> (b: bool)
        ensures
            b == entry_names(node_entries(*self)).contains(key@),
    {
        self.map.contains_key(key)
    }

    /// The node named `key`.
    ///
    /// Trusted: calls `IndexMap::get`; names in an `IndexMap` are unique, so
    /// the node found is the one at the first (only) position of `key`.
    #[verifier::external_body]
    pub fn get(&self, key: &str) -> (r: Option<&NirNode>)
        ensures
            match r {
                Some(v) => entry_position(node_entries(*self), key@) >= 0 && *v == node_entries(
                    *self,
                )[entry_position(node_entries(*self), key@)].1,
                None => entry_position(node_entries(*self), key@) < 0,
            },
    {
        self.map.get(key)
    }

    /// The node named `key`, to modify in place.
    ///
    /// Trusted: calls `IndexMap::get_mut`. Names in an `IndexMap` are unique;
    /// the entry keeps its name and position, and holds whatever node the
    /// caller leaves behind the reference. Without such an entry nothing
    /// changes.
    #[verifier::external_body]
    pub fn get_mut(&mut self, key: &str) -> (r: Option<&mut NirNode>)
        ensures
            entry_position(node_entries(*old(self)), key@) < 0 ==> r is None && node_entries(
                *final(self),
            ) == node_entries(*old(self)),
            entry_position(node_entries(*old(self)), key@) >= 0 ==> r is Some && *r.unwrap()
                == node_entries(*old(self))[entry_position(node_entries(*old(self)), key@)].1
                && node_entries(*final(self)) == node_entries(*old(self)).update(
                entry_position(node_entries(*old(self)), key@),
                (key@, *final(r.unwrap())),
            ),
    {
        self.map.get_mut(key)
    }

    /// Insert `node` under `key`.
    ///
    /// Trusted: calls `IndexMap::insert`. A new name is appended at the end;
    /// an existing name keeps its position, its node is replaced, and the old
    /// node is returned.
    #[verifier::external_body]
    pub fn insert(&mut self, key: String, node: NirNode) -> (r: Option<NirNode>)
        ensures
            ({
                let pos = entry_position(node_entries(*old(self)), key@);
                if pos < 0 {
                    &&& r is None
                    &&& node_entries(*final(self)) == node_entries(*old(self)).push((key@, node))
                } else {
                    &&& r == Some(node_entries(*old(self))[pos].1)
                    &&& node_entries(*final(self)) == node_entries(*old(self)).update(
                        pos,
                        (key@, node),
                    )
                }
            }),
    {
        self.map.insert(key, node)
    }

    /// The names, in insertion order.
    pub fn keys(&self) -> (v: Vec<String>)
        ensures
            v@.map_values(|s: String| s@) == entry_names(node_entries(*self)),
    {
        let mut v: Vec<String> = Vec::new();
        let n = self.len();
        let mut i: usize = 0;
        while i < n
            invariant
                n == node_entries(*self).len(),
                i <= n,
                v@.len() == i,
                v@.map_values(|s: String| s@) == entry_names(node_entries(*self)).take(i as int),
            decreases n - i,
        {
            let (k, _) = self.get_index(i).unwrap();
            let ghost before = v@;
            v.push(k.clone());
            assert(v@ == before.push(v@[i as int]));
            assert(v@[i as int]@ == entry_names(node_entries(*self))[i as int]);
            i = i + 1;
            assert(v@.map_values(|s: String| s@) =~= entry_names(node_entries(*self)).take(
                i as int,
            ));
        }
        assert(entry_names(node_entries(*self)).take(n as int) =~= entry_names(
            node_entries(*self),
        ));
        v
    }
}

/// Directed NIR computation graph.
///
/// Node insertion order is preserved (stable iteration for serialization and
/// debugging). Edges are an ordered list of `(src, dst)` name pairs.
#[derive(Debug, Clone, PartialEq)]
pub struct NirGraph {
    /// Named computational nodes (insertion-ordered).
    pub nodes: NodeMap,
    /// Directed edges as `(source_name, destination_name)`.
    pub edges: Vec<(String, String)>,
    /// Free-form graph metadata.
    pub metadata: MetadataMap,
    /// Optional NIR version string.
    pub version: Option<String>,
}

/// The `(name, node)` pairs of a graph, in insertion order.
pub open spec fn graph_entries(g: NirGraph) -> Seq<(Seq<char>, NirNode)> {
    node_entries(g.nodes)
}

/// The node names of a graph, in insertion order.
pub open spec fn graph_names(g: NirGraph) -> Seq<Seq<char>> {
    entry_names(node_entries(g.nodes))
}

/// The edges of a graph as `(source, destination)` name pairs, in order.
pub open spec fn graph_edges(g: NirGraph) -> Seq<(Seq<char>, Seq<char>)> {
    g.edges@.map_values(|e: (String, String)| (e.0@, e.1@))
}

impl NirGraph {
    /// Maximum nesting depth of [`NirNode::Graph`] subgraphs that
    /// [`Self::validate_structure`] will walk (the root has depth `0`).
    pub const MAX_NESTING_DEPTH: usize = 1024;

    /// Create an empty graph.
    pub fn new() -> (g: NirGraph)
        ensures
            graph_entries(g) == Seq::<(Seq<char>, NirNode)>::empty(),
            g.edges@.len() == 0,
            g.metadata@ == Seq::<(Seq<char>, MetadataValue)>::empty(),
            g.version is None,
    {
        NirGraph {
            nodes: NodeMap::new(),
            edges: Vec::new(),
            metadata: MetadataMap::new(),
            version: None,
        }
    }

    /// Insert a node under `name`.
    ///
    /// Fails with [`NirError::DuplicateNode`], leaving the graph unchanged, if
    /// `name` is already present; otherwise appends the node.
    pub fn insert_node(&mut self, name: String, node: NirNode) -> (r: Result<(), NirError>)
        ensures
            graph_names(*old(self)).contains(name@) ==> {
                &&& r matches Err(e) && e@ == ErrorModel::DuplicateNode(name@)
                &&& *final(self) == *old(self)
            },
            !graph_names(*old(self)).contains(name@) ==> {
                &&& r is Ok
                &&& graph_entries(*final(self)) == graph_entries(*old(self)).push((name@, node))
                &&& final(self).edges == old(self).edges
                &&& final(self).metadata == old(self).metadata
                &&& final(self).version == old(self).version
            },
    {
        if self.nodes.contains_key(name.as_str()) {
            return Err(NirError::DuplicateNode(name));
        }
        proof { entry_position_spec(graph_entries(*self), name@); }
        self.nodes.insert(name, node);
        Ok(())
    }

    /// Append a directed edge `(from -> to)` without validating endpoints.
    pub fn add_edge(&mut self, from: String, to: String)
        ensures
            final(self).edges@ == old(self).edges@.push((from, to)),
            final(self).nodes == old(self).nodes,
            final(self).metadata == old(self).metadata,
            final(self).version == old(self).version,
    {
        self.edges.push((from, to));
    }

    /// Borrow the node named `name`, if present.
    pub fn get(&self, name: &str) -> (r: Option<&NirNode>)
        ensures
            match r {
                Some(v) => entry_position(graph_entries(*self), name@) >= 0 && *v
                    == graph_entries(*self)[entry_position(graph_entries(*self), name@)].1,
                None => !graph_names(*self).contains(name@),
            },
    {
        proof { entry_position_spec(graph_entries(*self), name@); }
        self.nodes.get(name)
    }

    /// Mutably borrow the node named `name`, if present.
    pub fn get_mut(&mut self, name: &str) -> (r: Option<&mut NirNode>)
        ensures
            !graph_names(*old(self)).contains(name@) ==> r is None && graph_entries(*final(self))
                == graph_entries(*old(self)),
            graph_names(*old(self)).contains(name@) ==> r is Some && *r.unwrap() == graph_entries(
                *old(self),
            )[entry_position(graph_entries(*old(self)), name@)].1 && graph_entries(*final(self))
                == graph_entries(*old(self)).update(
                entry_position(graph_entries(*old(self)), name@),
                (name@, *final(r.unwrap())),
            ),
            final(self).edges == old(self).edges,
            final(self).metadata == old(self).metadata,
            final(self).version == old(self).version,
    {
        proof { entry_position_spec(graph_entries(*self), name@); }
        self.nodes.get_mut(name)
    }

    /// Number of nodes.
    pub fn len(&self) -> (n: usize)
        ensures
            n == graph_entries(*self).len(),
    {
        self.nodes.len()
    }

    /// Whether the graph has no nodes.
    pub fn is_empty(&self) -> (b: bool)
        ensures
            b == (graph_entries(*self).len() == 0),
    {
        self.nodes.is_empty()
    }
}

impl Default for NirGraph {
    fn default() -> (g: NirGraph)
        ensures
            graph_entries(g) == Seq::<(Seq<char>, NirNode)>::empty(),
            g.edges@.len() == 0,
            g.version is None,
    {
        NirGraph::new()
    }
}

/// Nesting limit of [`NirGraph::validate_structure`], as a number.
pub open spec fn max_depth() -> nat {
    1024
}

/// A subgraph awaiting validation: the graph, the names of the enclosing
/// subgraph nodes from the root inwards, and its nesting depth.
pub type Visit = (NirGraph, Seq<Seq<char>>, nat);

/// The first edge endpoint, scanning edges from index `i` and each edge's
/// source before its destination, that names no node.
pub open spec fn first_missing_endpoint(
    edges: Seq<(Seq<char>, Seq<char>)>,
    names: Seq<Seq<char>>,
    i: nat,
) -> Option<Seq<char>>
    decreases edges.len() - i,
{
    if i >= edges.len() {
        None
    } else if !names.contains(edges[i as int].0) {
        Some(edges[i as int].0)
    } else if !names.contains(edges[i as int].1) {
        Some(edges[i as int].1)
    } else {
        first_missing_endpoint(edges, names, i + 1)
    }
}

/// The first edge, from index `i` on, that repeats an earlier edge.
pub open spec fn first_repeated_edge(edges: Seq<(Seq<char>, Seq<char>)>, i: nat) -> Option<
    (Seq<char>, Seq<char>),
>
    decreases edges.len() - i,
{
    if i >= edges.len() {
        None
    } else if edges.take(i as int).contains(edges[i as int]) {
        Some(edges[i as int])
    } else {
        first_repeated_edge(edges, i + 1)
    }
}

/// Endpoint and duplicate-edge checks for a single graph, ignoring nesting:
/// the first unknown endpoint, else the first repeated edge.
pub open spec fn local_structure(g: NirGraph) -> Checked {
    match first_missing_endpoint(graph_edges(g), graph_names(g), 0) {
        Some(n) => Err(ErrorModel::MissingNode(n)),
        None => match first_repeated_edge(graph_edges(g), 0) {
            Some(e) => Err(ErrorModel::DuplicateEdge(e.0, e.1)),
            None => Ok(()),
        },
    }
}

/// Message of the nesting-limit error.
pub open spec fn nesting_text() -> Seq<char> {
    "graph nesting depth exceeds "@ + decimal(max_depth())
}

/// The error `e` of subgraph `name`, as reported by the enclosing graph.
pub open spec fn subgraph_prefix(name: Seq<char>, e: ErrorModel) -> ErrorModel {
    let lead = "in subgraph "@ + debug_quoted(name) + ": "@;
    match e {
        ErrorModel::MissingNode(n) => ErrorModel::InvalidGraph(lead + "missing node: "@ + n),
        ErrorModel::DuplicateEdge(a, b) => ErrorModel::InvalidGraph(
            lead + "duplicate edge: ("@ + a + ", "@ + b + ")"@,
        ),
        ErrorModel::DuplicateNode(n) => ErrorModel::InvalidGraph(lead + "duplicate node: "@ + n),
        ErrorModel::InvalidGraph(m) => ErrorModel::InvalidGraph(lead + m),
        other => ErrorModel::InvalidGraph(lead + error_text(other)),
    }
}

/// `e` as reported at the root, for a graph reached through the subgraph
/// nodes named by `path` (outermost first).
pub open spec fn wrap_path(path: Seq<Seq<char>>, e: ErrorModel) -> ErrorModel
    decreases path.len(),
{
    if path.len() == 0 {
        e
    } else {
        wrap_path(path.drop_last(), subgraph_prefix(path.last(), e))
    }
}

/// `c` as reported at the root, for a graph reached through `path`.
pub open spec fn wrap_checked(path: Seq<Seq<char>>, c: Checked) -> Checked {
    match c {
        Ok(()) => Ok(()),
        Err(e) => Err(wrap_path(path, e)),
    }
}

/// Structural validity of `g` at nesting depth `depth`: its own endpoints and
/// edges, then its subgraph nodes in insertion order, depth-first.
pub open spec fn structure_check(g: NirGraph, depth: nat) -> Checked
    decreases max_depth() - depth, 1nat, 0nat,
{
    match local_structure(g) {
        Err(e) => Err(e),
        Ok(()) => children_check(graph_entries(g), depth, 0),
    }
}

/// Validity of the subgraph nodes among `entries[i..]` of a graph at depth
/// `depth`. A subgraph below a graph already at [`max_depth`] is an error.
pub open spec fn children_check(entries: Seq<(Seq<char>, NirNode)>, depth: nat, i: nat) -> Checked
    decreases max_depth() - depth, 0nat, entries.len() - i,
{
    if i >= entries.len() {
        Ok(())
    } else {
        match entries[i as int].1 {
            NirNode::Graph(inner) => if depth >= max_depth() {
                Err(subgraph_prefix(entries[i as int].0, ErrorModel::InvalidGraph(nesting_text())))
            } else {
                match structure_check(*inner, depth + 1) {
                    Err(e) => Err(subgraph_prefix(entries[i as int].0, e)),
                    Ok(()) => children_check(entries, depth, i + 1),
                }
            },
            _ => children_check(entries, depth, i + 1),
        }
    }
}

/// The subgraph reached from `g` by following, at each level, the subgraph
/// node at position `path[k]` of the graph reached so far; `None` when a
/// position is out of range or holds no subgraph.
pub open spec fn reach(g: NirGraph, path: Seq<nat>) -> Option<NirGraph>
    decreases path.len(),
{
    if path.len() == 0 {
        Some(g)
    } else if path[0] < graph_entries(g).len() {
        match graph_entries(g)[path[0] as int].1 {
            NirNode::Graph(inner) => reach(*inner, path.drop_first()),
            _ => None,
        }
    } else {
        None
    }
}

/// `g` at depth `depth` and every subgraph below it have valid local
/// structure, and no subgraph sits below a graph already at [`max_depth`].
pub open spec fn tree_ok(g: NirGraph, depth: nat) -> bool
    decreases max_depth() - depth, 1nat, 0nat,
{
    local_structure(g) is Ok && children_ok(graph_entries(g), depth, 0)
}

/// [`tree_ok`] for the subgraph nodes among `entries[i..]` of a graph at
/// `depth`.
pub open spec fn children_ok(entries: Seq<(Seq<char>, NirNode)>, depth: nat, i: nat) -> bool
    decreases max_depth() - depth, 0nat, entries.len() - i,
{
    if i >= entries.len() {
        true
    } else {
        (match entries[i as int].1 {
            NirNode::Graph(inner) => depth < max_depth() && tree_ok(*inner, depth + 1),
            _ => true,
        }) && children_ok(entries, depth, i + 1)
    }
}

proof fn structure_check_is_tree_ok(g: NirGraph, depth: nat)
    ensures
        structure_check(g, depth) is Ok <==> tree_ok(g, depth),
    decreases max_depth() - depth, 1nat, 0nat,
{
    if local_structure(g) is Ok {
        children_check_is_children_ok(graph_entries(g), depth, 0);
    }
}

proof fn children_check_is_children_ok(entries: Seq<(Seq<char>, NirNode)>, depth: nat, i: nat)
    ensures
        children_check(entries, depth, i) is Ok <==> children_ok(entries, depth, i),
    decreases max_depth() - depth, 0nat, entries.len() - i,
{
    if i < entries.len() {
        children_check_is_children_ok(entries, depth, i + 1);
        match entries[i as int].1 {
            NirNode::Graph(inner) => {
                if depth < max_depth() {
                    structure_check_is_tree_ok(*inner, depth + 1);
                }
            },
            _ => {},
        }
    }
}

proof fn children_ok_at(entries: Seq<(Seq<char>, NirNode)>, depth: nat, i: nat, j: nat)
    requires
        children_ok(entries, depth, i),
        i <= j < entries.len(),
    ensures
        entries[j as int].1 matches NirNode::Graph(inner) ==> depth < max_depth() && tree_ok(
            *inner,
            depth + 1,
        ),
    decreases j - i,
{
    if i < j {
        children_ok_at(entries, depth, i + 1, j);
    }
}

proof fn tree_ok_reaches(g: NirGraph, depth: nat, path: Seq<nat>)
    requires
        tree_ok(g, depth),
        depth <= max_depth(),
        reach(g, path) is Some,
    ensures
        depth + path.len() <= max_depth(),
        local_structure(reach(g, path).unwrap()) is Ok,
    decreases path.len(),
{
    if path.len() > 0 {
        let entries = graph_entries(g);
        children_ok_at(entries, depth, 0, path[0]);
        match entries[path[0] as int].1 {
            NirNode::Graph(inner) => {
                tree_ok_reaches(*inner, depth + 1, path.drop_first());
            },
            _ => {},
        }
    }
}

proof fn reach_step(g: NirGraph, i: nat, inner: NirGraph, rest: Seq<nat>)
    requires
        i < graph_entries(g).len(),
        graph_entries(g)[i as int].1 == NirNode::Graph(Box::new(inner)),
    ensures
        reach(g, seq![i] + rest) == reach(inner, rest),
{
    assert((seq![i] + rest).drop_first() =~= rest);
}

proof fn reaches_tree_ok(g: NirGraph, depth: nat)
    requires
        depth <= max_depth(),
        forall|path: Seq<nat>| #[trigger]
            reach(g, path) is Some ==> depth + path.len() <= max_depth() && local_structure(
                reach(g, path).unwrap(),
            ) is Ok,
    ensures
        tree_ok(g, depth),
    decreases max_depth() - depth, 1nat, 0nat,
{
    assert(reach(g, Seq::empty()) == Some(g));
    reaches_children_ok(g, depth, graph_entries(g).len());
}

proof fn reaches_children_ok(g: NirGraph, depth: nat, i: nat)
    requires
        depth <= max_depth(),
        i <= graph_entries(g).len(),
        forall|path: Seq<nat>| #[trigger]
            reach(g, path) is Some ==> depth + path.len() <= max_depth() && local_structure(
                reach(g, path).unwrap(),
            ) is Ok,
    ensures
        children_ok(graph_entries(g), depth, (graph_entries(g).len() - i) as nat),
    decreases max_depth() - depth, 0nat, i,
{
    let entries = graph_entries(g);
    let k = (entries.len() - i) as nat;
    if i > 0 {
        reaches_children_ok(g, depth, (i - 1) as nat);
        match entries[k as int].1 {
            NirNode::Graph(inner) => {
                reach_step(g, k, *inner, Seq::empty());
                assert(seq![k] + Seq::<nat>::empty() =~= seq![k]);
                assert(reach(g, seq![k]) is Some);
                assert forall|p: Seq<nat>| #[trigger]
                    reach(*inner, p) is Some implies depth + 1 + p.len() <= max_depth()
                    && local_structure(reach(*inner, p).unwrap()) is Ok by {
                    reach_step(g, k, *inner, p);
                    assert(reach(g, seq![k] + p) is Some);
                }
                reaches_tree_ok(*inner, depth + 1);
            },
            _ => {},
        }
    }
}

/// Every edge endpoint of `g` names one of its nodes.
pub open spec fn endpoints_known(g: NirGraph) -> bool {
    forall|k: int|
        0 <= k < graph_edges(g).len() ==> graph_names(g).contains((#[trigger] graph_edges(g)[k]).0)
            && graph_names(g).contains(graph_edges(g)[k].1)
}

/// No directed edge of `g` occurs twice: any two edges at different
/// positions differ in their source or in their destination.
pub open spec fn edges_distinct(g: NirGraph) -> bool {
    forall|j: int, k: int|
        0 <= j < k < graph_edges(g).len() ==> #[trigger] graph_edges(g)[j] != #[trigger] graph_edges(
            g,
        )[k]
}

proof fn missing_endpoint_none(edges: Seq<(Seq<char>, Seq<char>)>, names: Seq<Seq<char>>, i: nat)
    requires
        i <= edges.len(),
    ensures
        first_missing_endpoint(edges, names, i) is None <==> (forall|k: int|
            i <= k < edges.len() ==> names.contains((#[trigger] edges[k]).0) && names.contains(
                edges[k].1,
            )),
        first_missing_endpoint(edges, names, i) matches Some(n) ==> !names.contains(n) && exists|
            k: int,
        |
            i <= k < edges.len() && ((#[trigger] edges[k]).0 == n || edges[k].1 == n),
    decreases edges.len() - i,
{
    if i < edges.len() {
        missing_endpoint_none(edges, names, i + 1);
        assert(i <= i as int && i < edges.len());
        if first_missing_endpoint(edges, names, i) is Some {
            let n = first_missing_endpoint(edges, names, i)->0;
            if !names.contains(edges[i as int].0) || !names.contains(edges[i as int].1) {
                assert(edges[i as int].0 == n || edges[i as int].1 == n);
            }
        }
    }
}

proof fn repeated_edge_none(edges: Seq<(Seq<char>, Seq<char>)>, i: nat)
    requires
        i <= edges.len(),
    ensures
        first_repeated_edge(edges, i) is None <==> (forall|j: int, k: int|
            0 <= j < k && i <= k < edges.len() ==> #[trigger] edges[j] != #[trigger] edges[k]),
        first_repeated_edge(edges, i) matches Some(e) ==> exists|j: int, k: int|
            0 <= j < k < edges.len() && #[trigger] edges[j] == e && #[trigger] edges[k] == e,
    decreases edges.len() - i,
{
    if i < edges.len() {
        repeated_edge_none(edges, i + 1);
        let t = edges.take(i as int);
        if t.contains(edges[i as int]) {
            let j = choose|j: int| 0 <= j < t.len() && t[j] == edges[i as int];
            assert(edges[j] == edges[i as int]);
        } else {
            assert forall|j: int| 0 <= j < i implies edges[j] != edges[i as int] by {
                assert(t[j] == edges[j]);
            }
        }
    }
}

/// A graph's own structure check passes exactly when every edge endpoint
/// names a node and no directed `(source, destination)` edge occurs twice;
/// edges that share only a source or only a destination are fine. A
/// reported repeated edge is one that occurs at two positions.
pub proof fn local_structure_accepts_distinct_edges(g: NirGraph)
    ensures
        local_structure(g) is Ok <==> endpoints_known(g) && edges_distinct(g),
        local_structure(g) matches Err(ErrorModel::DuplicateEdge(a, b)) ==> exists|j: int, k: int|
            0 <= j < k < graph_edges(g).len() && #[trigger] graph_edges(g)[j] == (a, b)
                && #[trigger] graph_edges(g)[k] == (a, b),
        local_structure(g) matches Err(ErrorModel::MissingNode(n)) ==> !graph_names(g).contains(n),
{
    let edges = graph_edges(g);
    missing_endpoint_none(edges, graph_names(g), 0);
    repeated_edge_none(edges, 0);
}

/// Structure validation accepts a graph exactly when, in the graph and in
/// every subgraph reached from it through subgraph nodes, every edge
/// endpoint names a node and no directed edge occurs twice, and no subgraph
/// lies deeper than [`max_depth`] (the root at depth 0).
pub proof fn structure_valid_iff_edges_known_and_distinct(g: NirGraph)
    ensures
        structure_check(g, 0) is Ok <==> (forall|path: Seq<nat>| #[trigger]
            reach(g, path) is Some ==> path.len() <= max_depth() && endpoints_known(
                reach(g, path).unwrap(),
            ) && edges_distinct(reach(g, path).unwrap())),
{
    structure_valid_iff_every_subgraph_valid(g);
    assert forall|path: Seq<nat>| #[trigger] reach(g, path) is Some implies (local_structure(
        reach(g, path).unwrap(),
    ) is Ok <==> endpoints_known(reach(g, path).unwrap()) && edges_distinct(
        reach(g, path).unwrap(),
    )) by {
        local_structure_accepts_distinct_edges(reach(g, path).unwrap());
    }
}

/// Structure validation accepts a graph exactly when every subgraph reached
/// from it through subgraph nodes (the root itself at depth 0, each level
/// one deeper) lies at depth at most [`max_depth`] and has only known edge
/// endpoints and no repeated edge. Cycles and node parameters play no part.
pub proof fn structure_valid_iff_every_subgraph_valid(g: NirGraph)
    ensures
        structure_check(g, 0) is Ok <==> (forall|path: Seq<nat>| #[trigger]
            reach(g, path) is Some ==> path.len() <= max_depth() && local_structure(
                reach(g, path).unwrap(),
            ) is Ok),
{
    structure_check_is_tree_ok(g, 0);
    if tree_ok(g, 0) {
        assert forall|path: Seq<nat>| #[trigger]
            reach(g, path) is Some implies path.len() <= max_depth() && local_structure(
                reach(g, path).unwrap(),
            ) is Ok by {
            tree_ok_reaches(g, 0, path);
        }
    }
    if forall|path: Seq<nat>| #[trigger]
        reach(g, path) is Some ==> path.len() <= max_depth() && local_structure(
            reach(g, path).unwrap(),
        ) is Ok {
        reaches_tree_ok(g, 0);
    }
}

/// The subgraph nodes among `entries[i..]`, as visits at `depth` below `path`.
pub open spec fn graph_children(
    entries: Seq<(Seq<char>, NirNode)>,
    path: Seq<Seq<char>>,
    depth: nat,
    i: nat,
) -> Seq<Visit>
    decreases entries.len() - i,
{
    if i >= entries.len() {
        Seq::empty()
    } else {
        let rest = graph_children(entries, path, depth, i + 1);
        match entries[i as int].1 {
            NirNode::Graph(inner) => seq![(*inner, path.push(entries[i as int].0), depth)] + rest,
            _ => rest,
        }
    }
}

/// The subgraph nodes among `entries[..i]`, as visits at `depth` below `path`.
pub open spec fn graph_children_before(
    entries: Seq<(Seq<char>, NirNode)>,
    path: Seq<Seq<char>>,
    depth: nat,
    i: nat,
) -> Seq<Visit>
    decreases i,
{
    if i == 0 || i > entries.len() {
        Seq::empty()
    } else {
        let before = graph_children_before(entries, path, depth, (i - 1) as nat);
        match entries[i - 1].1 {
            NirNode::Graph(inner) => before.push(
                (*inner, path.push(entries[i - 1].0), depth),
            ),
            _ => before,
        }
    }
}

/// Name of the first subgraph node among `entries[i..]`.
pub open spec fn first_graph_child(entries: Seq<(Seq<char>, NirNode)>, i: nat) -> Option<
    Seq<char>,
>
    decreases entries.len() - i,
{
    if i >= entries.len() {
        None
    } else {
        match entries[i as int].1 {
            NirNode::Graph(_) => Some(entries[i as int].0),
            _ => first_graph_child(entries, i + 1),
        }
    }
}

/// The error a visit reports on its own, before its subgraphs are visited.
pub open spec fn visit_error(v: Visit) -> Option<ErrorModel> {
    match local_structure(v.0) {
        Err(e) => Some(wrap_path(v.1, e)),
        Ok(()) => if v.2 >= max_depth() {
            match first_graph_child(graph_entries(v.0), 0) {
                Some(c) => Some(wrap_path(v.1.push(c), ErrorModel::InvalidGraph(nesting_text()))),
                None => None,
            }
        } else {
            None
        },
    }
}

/// The visits of a depth-first walk from `g` (at `depth`, below `path`).
pub open spec fn preorder(g: NirGraph, path: Seq<Seq<char>>, depth: nat) -> Seq<Visit>
    decreases max_depth() - depth, 0nat, 0nat,
{
    seq![(g, path, depth)] + if depth < max_depth() {
        preorder_list(graph_children(graph_entries(g), path, depth + 1, 0), depth + 1)
    } else {
        Seq::empty()
    }
}

/// The walks from each of `visits` (all at `depth`), concatenated in order.
pub open spec fn preorder_list(visits: Seq<Visit>, depth: nat) -> Seq<Visit>
    decreases max_depth() - depth, 1nat, visits.len(),
{
    if visits.len() == 0 {
        Seq::empty()
    } else {
        preorder(visits[0].0, visits[0].1, depth) + preorder_list(visits.drop_first(), depth)
    }
}

/// The walks from each of `visits` at their own depths, concatenated in order.
pub open spec fn walk_all(visits: Seq<Visit>) -> Seq<Visit>
    decreases visits.len(),
{
    if visits.len() == 0 {
        Seq::empty()
    } else {
        preorder(visits[0].0, visits[0].1, visits[0].2) + walk_all(visits.drop_first())
    }
}

/// The first error reported by a sequence of visits.
pub open spec fn first_error(visits: Seq<Visit>) -> Checked
    decreases visits.len(),
{
    if visits.len() == 0 {
        Ok(())
    } else {
        match visit_error(visits[0]) {
            Some(e) => Err(e),
            None => first_error(visits.drop_first()),
        }
    }
}

proof fn first_error_concat(a: Seq<Visit>, b: Seq<Visit>)
    ensures
        first_error(a + b) == match first_error(a) {
            Err(e) => Err(e),
            Ok(()) => first_error(b),
        },
    decreases a.len(),
{
    if a.len() == 0 {
        assert(a + b =~= b);
    } else {
        assert((a + b).drop_first() =~= a.drop_first() + b);
        first_error_concat(a.drop_first(), b);
    }
}

proof fn wrap_path_root(e: ErrorModel)
    ensures
        wrap_path(Seq::<Seq<char>>::empty(), e) == e,
{
}

proof fn wrap_checked_root(c: Checked)
    ensures
        wrap_checked(Seq::<Seq<char>>::empty(), c) == c,
{
    let p = Seq::<Seq<char>>::empty();
    if c is Err {
        let e = c->Err_0;
        wrap_path_root(e);
        assert(wrap_checked(p, c) == Err::<(), ErrorModel>(e));
    } else {
        let u: () = c->Ok_0;
        assert(u == ());
        assert(c == Ok::<(), ErrorModel>(()));
    }
    assert(wrap_checked(p, c) == c);
}

proof fn wrap_path_push(path: Seq<Seq<char>>, c: Seq<char>, e: ErrorModel)
    ensures
        wrap_path(path.push(c), e) == wrap_path(path, subgraph_prefix(c, e)),
{
    assert(path.push(c).drop_last() =~= path);
}

proof fn deep_children_check(entries: Seq<(Seq<char>, NirNode)>, depth: nat, i: nat)
    requires
        depth >= max_depth(),
    ensures
        children_check(entries, depth, i) == match first_graph_child(entries, i) {
            Some(c) => Err(subgraph_prefix(c, ErrorModel::InvalidGraph(nesting_text()))),
            None => Ok(()),
        },
    decreases entries.len() - i,
{
    if i < entries.len() {
        deep_children_check(entries, depth, i + 1);
    }
}

proof fn preorder_list_is_walk_all(visits: Seq<Visit>, depth: nat)
    requires
        forall|k: int| 0 <= k < visits.len() ==> #[trigger] visits[k].2 == depth,
    ensures
        preorder_list(visits, depth) == walk_all(visits),
    decreases visits.len(),
{
    if visits.len() > 0 {
        preorder_list_is_walk_all(visits.drop_first(), depth);
    }
}

proof fn graph_children_depth(
    entries: Seq<(Seq<char>, NirNode)>,
    path: Seq<Seq<char>>,
    depth: nat,
    i: nat,
)
    ensures
        forall|k: int|
            0 <= k < graph_children(entries, path, depth, i).len() ==> #[trigger] graph_children(
                entries,
                path,
                depth,
                i,
            )[k].2 == depth,
    decreases entries.len() - i,
{
    if i < entries.len() {
        graph_children_depth(entries, path, depth, i + 1);
        let rest = graph_children(entries, path, depth, i + 1);
        match entries[i as int].1 {
            NirNode::Graph(inner) => {
                let all = seq![(*inner, path.push(entries[i as int].0), depth)] + rest;
                assert forall|k: int| 0 <= k < all.len() implies #[trigger] all[k].2 == depth by {
                    if k > 0 {
                        assert(all[k] == rest[k - 1]);
                    }
                }
            },
            _ => {},
        }
    }
}

/// A depth-first walk reports exactly the error of [`structure_check`],
/// prefixed by the path to the subgraph where it was found.
proof fn preorder_reports_structure(g: NirGraph, path: Seq<Seq<char>>, depth: nat)
    ensures
        first_error(preorder(g, path, depth)) == wrap_checked(path, structure_check(g, depth)),
    decreases max_depth() - depth, 1nat, 0nat,
{
    let head = seq![(g, path, depth)];
    let rest = if depth < max_depth() {
        preorder_list(graph_children(graph_entries(g), path, depth + 1, 0), depth + 1)
    } else {
        Seq::<Visit>::empty()
    };
    assert(preorder(g, path, depth) == head + rest);
    first_error_concat(head, rest);
    assert(head.drop_first() =~= Seq::<Visit>::empty());
    assert(head[0] == (g, path, depth));
    assert(first_error(head.drop_first()) == Ok::<(), ErrorModel>(()));
    assert(first_error(head) == match visit_error((g, path, depth)) {
        Some(e) => Err(e),
        None => Ok::<(), ErrorModel>(()),
    });
    match local_structure(g) {
        Err(e) => {},
        Ok(()) => {
            if depth >= max_depth() {
                deep_children_check(graph_entries(g), depth, 0);
                match first_graph_child(graph_entries(g), 0) {
                    Some(c) => wrap_path_push(path, c, ErrorModel::InvalidGraph(nesting_text())),
                    None => {},
                }
            } else {
                children_report_structure(graph_entries(g), path, depth, 0);
            }
        },
    }
}

proof fn children_report_structure(
    entries: Seq<(Seq<char>, NirNode)>,
    path: Seq<Seq<char>>,
    depth: nat,
    i: nat,
)
    requires
        depth < max_depth(),
    ensures
        first_error(preorder_list(graph_children(entries, path, depth + 1, i), depth + 1))
            == wrap_checked(path, children_check(entries, depth, i)),
    decreases max_depth() - depth, 0nat, entries.len() - i,
{
    if i < entries.len() {
        let rest = graph_children(entries, path, depth + 1, i + 1);
        match entries[i as int].1 {
            NirNode::Graph(inner) => {
                let name = entries[i as int].0;
                let kids = seq![(*inner, path.push(name), depth + 1)] + rest;
                assert(kids.drop_first() =~= rest);
                let here = preorder(*inner, path.push(name), depth + 1);
                let later = preorder_list(rest, depth + 1);
                assert(preorder_list(kids, depth + 1) == here + later);
                first_error_concat(here, later);
                preorder_reports_structure(*inner, path.push(name), depth + 1);
                children_report_structure(entries, path, depth, i + 1);
                match structure_check(*inner, depth + 1) {
                    Err(e) => wrap_path_push(path, name, e),
                    Ok(()) => {},
                }
            },
            _ => {
                children_report_structure(entries, path, depth, i + 1);
            },
        }
    } else {
        assert(graph_children(entries, path, depth + 1, i) =~= Seq::<Visit>::empty());
    }
}

/// Parent-linked frame tracking subgraph ancestry with O(1) prefix sharing.
#[derive(Clone, Copy)]
struct PathFrame<'a> {
    name: &'a str,
    parent: Option<usize>,
    depth: usize,
}

/// Names from the root to frame `f`, outermost first.
spec fn frame_path(frames: Seq<PathFrame>, f: int) -> Seq<Seq<char>>
    decreases f,
{
    if f < 0 || f >= frames.len() {
        Seq::empty()
    } else {
        match frames[f].parent {
            None => seq![frames[f].name@],
            Some(p) => if p < f {
                frame_path(frames, p as int).push(frames[f].name@)
            } else {
                Seq::empty()
            },
        }
    }
}

/// Path of an optional frame; the root graph has none.
spec fn opt_path(frames: Seq<PathFrame>, f: Option<usize>) -> Seq<Seq<char>> {
    match f {
        None => Seq::empty(),
        Some(i) => frame_path(frames, i as int),
    }
}

/// Depth of an optional frame; the root graph has depth zero.
spec fn opt_depth(frames: Seq<PathFrame>, f: Option<usize>) -> nat {
    match f {
        None => 0,
        Some(i) => frames[i as int].depth as nat,
    }
}

/// Whether `f` is absent or indexes `frames`.
spec fn frame_in(frames: Seq<PathFrame>, f: Option<usize>) -> bool {
    match f {
        None => true,
        Some(i) => i < frames.len(),
    }
}

/// Each frame's parent comes before it and its depth is one more than its
/// parent's.
spec fn frames_wf(frames: Seq<PathFrame>) -> bool {
    forall|i: int|
        0 <= i < frames.len() ==> {
            &&& frame_in(frames, #[trigger] frames[i].parent)
            &&& (frames[i].parent matches Some(p) ==> p < i)
            &&& frames[i].depth == opt_depth(frames, frames[i].parent) + 1
            &&& frames[i].depth <= max_depth() + 1
        }
}

proof fn frame_path_extend(frames: Seq<PathFrame>, x: PathFrame, f: int)
    requires
        0 <= f < frames.len(),
    ensures
        frame_path(frames.push(x), f) == frame_path(frames, f),
    decreases f,
{
    assert(frames.push(x)[f] == frames[f]);
    match frames[f].parent {
        None => {},
        Some(p) => if p < f {
            frame_path_extend(frames, x, p as int);
        },
    }
}

/// The visit a work-list entry stands for.
spec fn visit_of(frames: Seq<PathFrame>, w: (&NirGraph, Option<usize>)) -> Visit {
    (*w.0, opt_path(frames, w.1), opt_depth(frames, w.1))
}

/// The visits of a work list, in the order they will be popped.
spec fn pending(frames: Seq<PathFrame>, work: Seq<(&NirGraph, Option<usize>)>) -> Seq<Visit>
    decreases work.len(),
{
    if work.len() == 0 {
        Seq::empty()
    } else {
        let v = visit_of(frames, work.last());
        preorder(v.0, v.1, v.2) + pending(frames, work.drop_last())
    }
}

/// Every work-list entry's frame exists and is within the nesting limit.
spec fn work_wf(frames: Seq<PathFrame>, work: Seq<(&NirGraph, Option<usize>)>) -> bool {
    forall|k: int|
        0 <= k < work.len() ==> {
            &&& frame_in(frames, (#[trigger] work[k]).1)
            &&& opt_depth(frames, work[k].1) <= max_depth()
        }
}

proof fn pending_extend(
    frames: Seq<PathFrame>,
    x: PathFrame,
    work: Seq<(&NirGraph, Option<usize>)>,
)
    requires
        work_wf(frames, work),
    ensures
        pending(frames.push(x), work) == pending(frames, work),
    decreases work.len(),
{
    if work.len() > 0 {
        let w = work.last();
        assert(frame_in(frames, work[work.len() - 1].1));
        match w.1 {
            None => {},
            Some(i) => {
                frame_path_extend(frames, x, i as int);
                assert(frames.push(x)[i as int] == frames[i as int]);
            },
        }
        assert(work_wf(frames, work.drop_last())) by {
            assert forall|k: int| 0 <= k < work.drop_last().len() implies {
                &&& frame_in(frames, (#[trigger] work.drop_last()[k]).1)
                &&& opt_depth(frames, work.drop_last()[k].1) <= max_depth()
            } by {
                assert(work.drop_last()[k] == work[k]);
            }
        }
        pending_extend(frames, x, work.drop_last());
    }
}

proof fn graph_children_split(
    entries: Seq<(Seq<char>, NirNode)>,
    path: Seq<Seq<char>>,
    depth: nat,
    i: nat,
)
    requires
        i <= entries.len(),
    ensures
        graph_children(entries, path, depth, 0) == graph_children_before(entries, path, depth, i)
            + graph_children(entries, path, depth, i),
    decreases i,
{
    if i == 0 {
        assert(graph_children_before(entries, path, depth, 0) =~= Seq::<Visit>::empty());
        assert(Seq::<Visit>::empty() + graph_children(entries, path, depth, 0) =~= graph_children(
            entries,
            path,
            depth,
            0,
        ));
    } else {
        graph_children_split(entries, path, depth, (i - 1) as nat);
        let before = graph_children_before(entries, path, depth, (i - 1) as nat);
        let rest = graph_children(entries, path, depth, i);
        match entries[i - 1].1 {
            NirNode::Graph(inner) => {
                let v = (*inner, path.push(entries[i - 1].0), depth);
                assert(before + (seq![v] + rest) =~= before.push(v) + rest);
            },
            _ => {},
        }
    }
}

proof fn no_graph_children_before(
    entries: Seq<(Seq<char>, NirNode)>,
    path: Seq<Seq<char>>,
    depth: nat,
    i: nat,
)
    requires
        i <= entries.len(),
        forall|k: int| 0 <= k < i ==> !(#[trigger] entries[k].1 is Graph),
    ensures
        graph_children_before(entries, path, depth, i).len() == 0,
    decreases i,
{
    if i > 0 {
        no_graph_children_before(entries, path, depth, (i - 1) as nat);
        assert(!(entries[i - 1].1 is Graph));
    }
}

proof fn first_graph_child_skip(entries: Seq<(Seq<char>, NirNode)>, i: nat)
    requires
        i <= entries.len(),
        forall|k: int| 0 <= k < i ==> !(#[trigger] entries[k].1 is Graph),
    ensures
        first_graph_child(entries, 0) == first_graph_child(entries, i),
    decreases i,
{
    if i > 0 {
        first_graph_child_skip(entries, (i - 1) as nat);
        assert(!(entries[i - 1].1 is Graph));
    }
}

proof fn pending_push_all(
    frames: Seq<PathFrame>,
    work: Seq<(&NirGraph, Option<usize>)>,
    nested: Seq<(&NirGraph, Option<usize>)>,
    k: int,
)
    requires
        0 <= k < nested.len(),
    ensures
        pending(frames, work.push(nested[k])) == preorder(
            visit_of(frames, nested[k]).0,
            visit_of(frames, nested[k]).1,
            visit_of(frames, nested[k]).2,
        ) + pending(frames, work),
{
    assert(work.push(nested[k]).drop_last() =~= work);
}

/// Prefix a structure-validation error with `in subgraph {name:?}: ...`.
///
/// Nested [`NirError::InvalidGraph`] payloads are unwrapped so path prefixes
/// compose; other variants keep their message text.
pub fn prefix_subgraph_error(name: &str, err: NirError) -> (r: NirError)
    ensures
        r@ == subgraph_prefix(name@, err@),
{
    let lead = String::from_str("in subgraph ").concat(quoted(name).as_str()).concat(": ");
    match err {
        NirError::MissingNode(n) => NirError::InvalidGraph(
            lead.concat("missing node: ").concat(n.as_str()),
        ),
        NirError::DuplicateEdge(a, b) => NirError::InvalidGraph(
            lead.concat("duplicate edge: (").concat(a.as_str()).concat(", ").concat(
                b.as_str(),
            ).concat(")"),
        ),
        NirError::DuplicateNode(n) => NirError::InvalidGraph(
            lead.concat("duplicate node: ").concat(n.as_str()),
        ),
        NirError::InvalidGraph(msg) => NirError::InvalidGraph(lead.concat(msg.as_str())),
        other => NirError::InvalidGraph(lead.concat(other.message().as_str())),
    }
}

/// Apply [`prefix_subgraph_error`] from the innermost subgraph out to the root.
fn wrap_frame_error(frames: &Vec<PathFrame>, start: Option<usize>, err: NirError) -> (r: NirError)
    requires
        frames_wf(frames@),
        frame_in(frames@, start),
    ensures
        r@ == wrap_path(opt_path(frames@, start), err@),
{
    let ghost err0 = err;
    let mut curr = start;
    let mut err = err;
    while curr.is_some()
        invariant
            frames_wf(frames@),
            frame_in(frames@, curr),
            wrap_path(opt_path(frames@, curr), err@) == wrap_path(opt_path(frames@, start), err0@),
        decreases match curr {
            Some(i) => i + 1,
            None => 0,
        },
    {
        let idx = curr.unwrap();
        let frame = frames[idx];
        proof {
            assert(frame_in(frames@, frames@[idx as int].parent));
            wrap_path_push(opt_path(frames@, frame.parent), frame.name@, err@);
        }
        err = prefix_subgraph_error(frame.name, err);
        curr = frame.parent;
    }
    err
}

impl NirGraph {
    /// Endpoint and duplicate-edge checks for a single graph, ignoring nesting:
    /// the first edge endpoint (source before destination) that names no
    /// node, else the first edge that repeats an earlier one.
    pub fn validate_local_structure(&self) -> (r: Result<(), NirError>)
        ensures
            checked_view(r) == local_structure(*self),
    {
        let ghost edges = graph_edges(*self);
        let ghost names = graph_names(*self);
        let n = self.edges.len();
        let mut i: usize = 0;
        while i < n
            invariant
                n == self.edges@.len(),
                edges == graph_edges(*self),
                names == graph_names(*self),
                i <= n,
                first_missing_endpoint(edges, names, 0) == first_missing_endpoint(
                    edges,
                    names,
                    i as nat,
                ),
            decreases n - i,
        {
            let (src, dst) = &self.edges[i];
            assert(edges[i as int] == (src@, dst@));
            if !self.nodes.contains_key(src.as_str()) {
                return Err(NirError::MissingNode(src.clone()));
            }
            if !self.nodes.contains_key(dst.as_str()) {
                return Err(NirError::MissingNode(dst.clone()));
            }
            i = i + 1;
        }
        let mut j: usize = 0;
        while j < n
            invariant
                n == self.edges@.len(),
                edges == graph_edges(*self),
                j <= n,
                first_missing_endpoint(edges, names, 0) is None,
                names == graph_names(*self),
                first_repeated_edge(edges, 0) == first_repeated_edge(edges, j as nat),
            decreases n - j,
        {
            let (src, dst) = &self.edges[j];
            let mut k: usize = 0;
            while k < j
                invariant
                    n == self.edges@.len(),
                    edges == graph_edges(*self),
                    k <= j < n,
                    names == graph_names(*self),
                    first_missing_endpoint(edges, names, 0) is None,
                    first_repeated_edge(edges, 0) == first_repeated_edge(edges, j as nat),
                    edges[j as int] == (src@, dst@),
                    forall|m: int| 0 <= m < k ==> edges[m] != edges[j as int],
                decreases j - k,
            {
                let (a, b) = &self.edges[k];
                assert(edges[k as int] == (a@, b@));
                if *a == *src && *b == *dst {
                    assert(edges.take(j as int)[k as int] == edges[j as int]);
                    assert(edges.take(j as int).contains(edges[j as int]));
                    return Err(NirError::DuplicateEdge(src.clone(), dst.clone()));
                }
                k = k + 1;
            }
            assert(!edges.take(j as int).contains(edges[j as int])) by {
                if edges.take(j as int).contains(edges[j as int]) {
                    let m = choose|m: int| 0 <= m < j && edges.take(j as int)[m] == edges[j as int];
                    assert(edges[m] == edges[j as int]);
                }
            }
            j = j + 1;
        }
        Ok(())
    }

    /// Validate structural integrity.
    ///
    /// Checks that every edge endpoint names an existing node, that no
    /// directed edge `(src, dst)` repeats, and that nested
    /// [`NirNode::Graph`] subgraphs validate too, in node insertion order,
    /// depth-first. Nested failures are re-prefixed so the message names each
    /// enclosing subgraph. A chain deeper than [`Self::MAX_NESTING_DEPTH`]
    /// fails with [`NirError::InvalidGraph`]. Cycles are allowed.
    ///
    /// Subgraphs are walked with an explicit heap-allocated work list, so
    /// process-stack usage does not grow with nesting depth.
    pub fn validate_structure(&self) -> (r: Result<(), NirError>)
        ensures
            checked_view(r) == structure_check(*self, 0),
    {
        let mut frames: Vec<PathFrame> = Vec::new();
        let mut work: Vec<(&NirGraph, Option<usize>)> = Vec::new();
        work.push((self, None));
        let ghost root_walk = preorder(*self, Seq::empty(), 0);
        let ghost mut done: Seq<Visit> = Seq::empty();
        proof {
            preorder_reports_structure(*self, Seq::empty(), 0);
            assert(work@.drop_last() =~= Seq::<(&NirGraph, Option<usize>)>::empty());
            assert(work@.last() == (self, Option::<usize>::None));
            assert(pending(frames@, work@.drop_last()) == Seq::<Visit>::empty());
            assert(visit_of(frames@, work@.last()) == (*self, Seq::<Seq<char>>::empty(), 0nat));
            assert(pending(frames@, work@) =~= root_walk);
            assert(done + pending(frames@, work@) =~= root_walk);
        }
        while work.len() > 0
            invariant
                frames_wf(frames@),
                work_wf(frames@, work@),
                root_walk == preorder(*self, Seq::empty(), 0),
                root_walk == done + pending(frames@, work@),
                first_error(done) == Ok::<(), ErrorModel>(()),
                first_error(root_walk) == wrap_checked(Seq::empty(), structure_check(*self, 0)),
            decreases root_walk.len() - done.len(),
        {
            let ghost work_before = work@;
            let (graph, frame_idx) = work.pop().unwrap();
            let ghost top = visit_of(frames@, (graph, frame_idx));
            let ghost rest = pending(frames@, work@);
            proof {
                assert(work_before.last() == (graph, frame_idx));
                assert(work_before.drop_last() =~= work@);
                assert(frame_in(frames@, work_before[work_before.len() - 1].1));
                assert(work_wf(frames@, work@)) by {
                    assert forall|k: int| 0 <= k < work@.len() implies {
                        &&& frame_in(frames@, (#[trigger] work@[k]).1)
                        &&& opt_depth(frames@, work@[k].1) <= max_depth()
                    } by {
                        assert(work@[k] == work_before[k]);
                    }
                }
            }
            let ghost top_walk = preorder(top.0, top.1, top.2);
            let ghost top_rest = if top.2 < max_depth() {
                preorder_list(graph_children(graph_entries(top.0), top.1, top.2 + 1, 0), top.2 + 1)
            } else {
                Seq::<Visit>::empty()
            };
            proof {
                assert(top_walk == seq![top] + top_rest);
                assert(pending(frames@, work_before) == top_walk + rest);
                first_error_concat(done, pending(frames@, work_before));
                first_error_concat(top_walk, rest);
                first_error_concat(seq![top], top_rest);
                first_error_concat(top_rest, rest);
                assert(seq![top].drop_first() =~= Seq::<Visit>::empty());
                assert(seq![top][0] == top);
                assert(first_error(seq![top].drop_first()) == Ok::<(), ErrorModel>(()));
                assert(first_error(seq![top]) == match visit_error(top) {
                    Some(e) => Err(e),
                    None => Ok::<(), ErrorModel>(()),
                });
                wrap_checked_root(structure_check(*self, 0));
                assert(structure_check(*self, 0) == match visit_error(top) {
                    Some(e) => Err(e),
                    None => first_error(top_rest + rest),
                });
            }
            match graph.validate_local_structure() {
                Err(err) => {
                    return Err(wrap_frame_error(&frames, frame_idx, err));
                },
                Ok(()) => {},
            }
            let parent_depth = match frame_idx {
                None => 0,
                Some(idx) => frames[idx].depth,
            };
            let ghost frames_before = frames@;
            let ghost entries = graph_entries(*graph);
            let mut nested: Vec<(&NirGraph, Option<usize>)> = Vec::new();
            let n = graph.nodes.len();
            let mut i: usize = 0;
            while i < n
                invariant
                    n == entries.len(),
                    entries == graph_entries(*graph),
                    i <= n,
                    frames_wf(frames@),
                    frames_before.len() <= frames@.len(),
                    forall|f: int|
                        0 <= f < frames_before.len() ==> #[trigger] frames@[f] == frames_before[f],
                    frame_in(frames_before, frame_idx),
                    parent_depth == opt_depth(frames_before, frame_idx),
                    top == visit_of(frames_before, (graph, frame_idx)),
                    structure_check(*self, 0) == match visit_error(top) {
                        Some(e) => Err(e),
                        None => first_error(top_rest + rest),
                    },
                    local_structure(*graph) == Ok::<(), ErrorModel>(()),
                    parent_depth <= max_depth(),
                    work_wf(frames_before, work@),
                    opt_path(frames@, frame_idx) == top.1,
                    top.1 == opt_path(frames_before, frame_idx),
                    pending(frames@, work@) == rest,
                    parent_depth >= max_depth() ==> forall|k: int|
                        0 <= k < i ==> !(#[trigger] entries[k].1 is Graph),
                    nested@.len() == graph_children_before(entries, top.1, top.2 + 1, i as nat).len(),
                    forall|k: int|
                        0 <= k < nested@.len() ==> {
                            &&& frame_in(frames@, (#[trigger] nested@[k]).1)
                            &&& visit_of(frames@, nested@[k]) == graph_children_before(
                                entries,
                                top.1,
                                top.2 + 1,
                                i as nat,
                            )[k]
                            &&& opt_depth(frames@, nested@[k].1) <= max_depth()
                        },
                decreases n - i,
            {
                let (name, node) = graph.nodes.get_index(i).unwrap();
                let ghost before_children = graph_children_before(entries, top.1, top.2 + 1, i as nat);
                match node {
                    NirNode::Graph(inner) => {
                        let child_depth = parent_depth + 1;
                        let child_idx = frames.len();
                        let frame = PathFrame { name: name.as_str(), parent: frame_idx, depth: child_depth };
                        let ghost frames_prev = frames@;
                        frames.push(frame);
                        proof {
                            assert forall|f: int| 0 <= f < frames@.len() implies {
                                &&& frame_in(frames@, #[trigger] frames@[f].parent)
                                &&& (frames@[f].parent matches Some(p) ==> p < f)
                                &&& frames@[f].depth == opt_depth(frames@, frames@[f].parent) + 1
                                &&& frames@[f].depth <= max_depth() + 1
                            } by {
                                if f < frames_prev.len() {
                                    assert(frames@[f] == frames_prev[f]);
                                    assert(frame_in(frames_prev, frames_prev[f].parent));
                                    match frames_prev[f].parent {
                                        Some(p) => assert(frames@[p as int] == frames_prev[p as int]),
                                        None => {},
                                    }
                                } else {
                                    match frame_idx {
                                        Some(p) => assert(frames@[p as int] == frames_before[p as int]),
                                        None => {},
                                    }
                                }
                            }
                            match frame_idx {
                                Some(p) => {
                                    frame_path_extend(frames_prev, frame, p as int);
                                },
                                None => {},
                            }
                            assert(frame_path(frames@, child_idx as int) == top.1.push(name@));
                            pending_extend(frames_prev, frame, work@);
                            assert forall|k: int| 0 <= k < nested@.len() implies {
                                &&& frame_in(frames@, (#[trigger] nested@[k]).1)
                                &&& visit_of(frames@, nested@[k]) == before_children[k]
                                &&& opt_depth(frames@, nested@[k].1) <= max_depth()
                            } by {
                                match nested@[k].1 {
                                    Some(f) => {
                                        frame_path_extend(frames_prev, frame, f as int);
                                        assert(frames@[f as int] == frames_prev[f as int]);
                                    },
                                    None => {},
                                }
                            }
                        }
                        if parent_depth >= Self::MAX_NESTING_DEPTH {
                            proof {
                                first_graph_child_skip(entries, i as nat);
                                assert(first_graph_child(entries, i as nat) == Some(name@));
                            }
                            let msg = String::from_str("graph nesting depth exceeds ").concat(
                                usize_text(Self::MAX_NESTING_DEPTH).as_str(),
                            );
                            proof {
                                assert(msg@ == nesting_text());
                                assert(top.2 >= max_depth());
                                assert(visit_error(top) == Some(wrap_path(top.1.push(name@),
                                    ErrorModel::InvalidGraph(nesting_text()))));
                            }
                            return Err(wrap_frame_error(&frames, Some(child_idx), NirError::InvalidGraph(msg)));
                        }
                        let ghost nested_prev = nested@;
                        nested.push((&**inner, Some(child_idx)));
                        proof {
                            let v = (**inner, top.1.push(name@), top.2 + 1);
                            assert(graph_children_before(entries, top.1, top.2 + 1, (i + 1) as nat)
                                == before_children.push(v));
                            assert(frames@[child_idx as int].depth == top.2 + 1);
                            assert(visit_of(frames@, nested@[nested_prev.len() as int]) == v);
                            assert forall|k: int| 0 <= k < nested@.len() implies {
                                &&& frame_in(frames@, (#[trigger] nested@[k]).1)
                                &&& visit_of(frames@, nested@[k]) == before_children.push(v)[k]
                                &&& opt_depth(frames@, nested@[k].1) <= max_depth()
                            } by {
                                if k < nested_prev.len() {
                                    assert(nested@[k] == nested_prev[k]);
                                }
                            }
                        }
                    },
                    _ => {
                        proof {
                            assert(graph_children_before(entries, top.1, top.2 + 1, (i + 1) as nat)
                                == before_children);
                        }
                    },
                }
                i = i + 1;
            }
            proof {
                if top.2 >= max_depth() {
                    first_graph_child_skip(entries, n as nat);
                }
                graph_children_split(entries, top.1, top.2 + 1, n as nat);
                assert(graph_children(entries, top.1, top.2 + 1, n as nat) =~= Seq::<Visit>::empty());
            }
            let ghost kids = graph_children_before(entries, top.1, top.2 + 1, n as nat);
            let ghost work_mid = work@;
            let mut k = nested.len();
            while k > 0
                invariant
                    k <= nested@.len(),
                    frames_wf(frames@),
                    work_wf(frames@, work@),
                    pending(frames@, work@) == walk_all(kids.skip(k as int)) + rest,
                    kids.len() == nested@.len(),
                    forall|m: int|
                        0 <= m < nested@.len() ==> {
                            &&& frame_in(frames@, (#[trigger] nested@[m]).1)
                            &&& visit_of(frames@, nested@[m]) == kids[m]
                            &&& opt_depth(frames@, nested@[m].1) <= max_depth()
                        },
                decreases k,
            {
                k = k - 1;
                let ghost work_prev = work@;
                work.push(nested[k]);
                proof {
                    pending_push_all(frames@, work_prev, nested@, k as int);
                    assert(kids.skip(k as int).drop_first() =~= kids.skip(k + 1));
                    assert(kids.skip(k as int)[0] == kids[k as int]);
                    assert forall|m: int| 0 <= m < work@.len() implies {
                        &&& frame_in(frames@, (#[trigger] work@[m]).1)
                        &&& opt_depth(frames@, work@[m].1) <= max_depth()
                    } by {
                        if m < work_prev.len() {
                            assert(work@[m] == work_prev[m]);
                        }
                    }
                }
            }
            proof {
                assert(kids.skip(0) =~= kids);
                if top.2 < max_depth() {
                    graph_children_depth(entries, top.1, top.2 + 1, 0);
                    assert(graph_children(entries, top.1, top.2 + 1, 0) =~= kids);
                    preorder_list_is_walk_all(kids, top.2 + 1);
                } else {
                    no_graph_children_before(entries, top.1, top.2 + 1, n as nat);
                    assert(walk_all(kids) =~= Seq::<Visit>::empty());
                }
                assert(pending(frames@, work@) == top_rest + rest);
                if top.2 >= max_depth() {
                    assert(first_graph_child(entries, n as nat) is None);
                }
                assert(visit_error(top) is None);
                assert(seq![top].drop_first() =~= Seq::<Visit>::empty());
                assert(seq![top][0] == top);
                assert(first_error(seq![top].drop_first()) == Ok::<(), ErrorModel>(()));
                assert(first_error(seq![top]) == Ok::<(), ErrorModel>(()));
                let old_done = done;
                done = done.push(top);
                assert(done + pending(frames@, work@) =~= root_walk);
                first_error_concat(old_done, seq![top]);
                assert(old_done + seq![top] =~= done);
            }
        }
        proof {
            assert(pending(frames@, work@) == Seq::<Visit>::empty());
            assert(done =~= root_walk);
            wrap_checked_root(structure_check(*self, 0));
        }
        Ok(())
    }
}

} // verus!

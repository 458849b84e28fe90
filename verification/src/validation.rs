//! Opt-in local convolution and pooling parameter checks.
//!
//! [`NirGraph::validate_structure`] only inspects edge endpoints and duplicate
//! directed edges. This module checks invariants that are unambiguous from a
//! single node's fields: weight rank, grouped-convolution divisibility,
//! stride/dilation/padding extents, bias length, and pooling windows.
//! Reads stay permissive; callers opt in with
//! [`NirNode::validate_parameters`] / [`NirGraph::validate_parameters`].

use vstd::prelude::*;
use crate::error::{checked_view, Checked, ErrorModel, NirError, ParamModel, ParameterError};
use crate::graph::{graph_entries, max_depth, nesting_text, NirGraph};
use crate::nodes::{AvgPool2d, Conv1d, Conv2d, NirNode, Padding, SumPool2d};
use crate::text::usize_text;
use crate::types::{shape_product, DType, Tensor, TensorData, TensorModel};

verus! {

/// Sentinel node name used by isolated [`NirNode::validate_parameters`].
pub const ANONYMOUS_NODE: &'static str = "<node>";

/// Label of a dtype in parameter errors.
pub open spec fn dtype_text(d: DType) -> Seq<char> {
    match d {
        DType::F32 => "f32"@,
        DType::F64 => "f64"@,
        DType::I64 => "i64"@,
        DType::Bool => "bool"@,
    }
}

fn dtype_label(dtype: DType) -> (s: &'static str)
    ensures
        s@ == dtype_text(dtype),
{
    match dtype {
        DType::F32 => "f32",
        DType::F64 => "f64",
        DType::I64 => "i64",
        DType::Bool => "bool",
    }
}

/// Human-readable allowed arity.
pub open spec fn arity_text(allowed: Seq<usize>) -> Seq<char> {
    if allowed == seq![1usize] {
        "1"@
    } else if allowed == seq![1usize, 2usize] {
        "1 or 2"@
    } else {
        "a valid arity"@
    }
}

fn arity_label(allowed: &[usize]) -> (s: &'static str)
    ensures
        s@ == arity_text(allowed@),
{
    if allowed.len() == 1 && allowed[0] == 1 {
        assert(allowed@ =~= seq![1usize]);
        "1"
    } else if allowed.len() == 2 && allowed[0] == 1 && allowed[1] == 2 {
        assert(allowed@ =~= seq![1usize, 2usize]);
        "1 or 2"
    } else {
        assert(allowed@ != seq![1usize]) by {
            if allowed@ == seq![1usize] {
                assert(allowed@[0] == 1);
            }
        }
        assert(allowed@ != seq![1usize, 2usize]) by {
            if allowed@ == seq![1usize, 2usize] {
                assert(allowed@[0] == 1 && allowed@[1] == 2);
            }
        }
        "a valid arity"
    }
}

/// Whether an extent satisfies its sign rule: strictly positive, or
/// non-negative.
pub open spec fn extent_ok(value: i64, positive: bool) -> bool {
    if positive { value > 0 } else { value >= 0 }
}

/// Index of the first extent from `i` on that breaks its sign rule.
pub open spec fn first_bad_extent(extents: Seq<i64>, positive: bool, i: nat) -> Option<nat>
    decreases extents.len() - i,
{
    if i >= extents.len() {
        None
    } else if !extent_ok(extents[i as int], positive) {
        Some(i)
    } else {
        first_bad_extent(extents, positive, i + 1)
    }
}

/// Sign check of every extent of `field`, reporting the first offender.
pub open spec fn extent_values_check(field: Seq<char>, extents: Seq<i64>, positive: bool) -> Result<
    (),
    ParamModel,
> {
    match first_bad_extent(extents, positive, 0) {
        None => Ok(()),
        Some(k) => if positive {
            Err(ParamModel::ExtentPositive { field, index: k, value: extents[k as int] as int })
        } else {
            Err(ParamModel::ExtentNonNegative { field, index: k, value: extents[k as int] as int })
        },
    }
}

/// Arity, then sign, of a convolution extent list.
pub open spec fn vec_extents_check(
    field: Seq<char>,
    extents: Seq<i64>,
    allowed: Seq<usize>,
    positive: bool,
) -> Result<(), ParamModel> {
    if !allowed.contains(extents.len() as usize) {
        Err(
            ParamModel::ExtentArity {
                field,
                expected: arity_text(allowed),
                found: extents.len(),
            },
        )
    } else {
        extent_values_check(field, extents, positive)
    }
}

/// Padding check: symbolic modes always pass; explicit extents must have an
/// allowed arity and be non-negative.
pub open spec fn padding_check(padding: Padding, allowed: Seq<usize>) -> Result<(), ParamModel> {
    match padding {
        Padding::Explicit(extents) => vec_extents_check("padding"@, extents@, allowed, false),
        _ => Ok(()),
    }
}

/// Index of the first zero axis from `i` on.
pub open spec fn first_zero_axis(shape: Seq<usize>, i: nat) -> Option<nat>
    decreases shape.len() - i,
{
    if i >= shape.len() {
        None
    } else if shape[i as int] == 0 {
        Some(i)
    } else {
        first_zero_axis(shape, i + 1)
    }
}

/// The local invariants of a convolution, in the order they are checked:
/// groups, weight rank, weight extents, channel/group divisibility, stride,
/// dilation, padding, bias rank, bias length.
pub open spec fn conv_check(
    weight_shape: Seq<usize>,
    expected_rank: nat,
    stride: Seq<i64>,
    padding: Padding,
    dilation: Seq<i64>,
    groups: i64,
    bias_shape: Seq<usize>,
    allowed: Seq<usize>,
) -> Result<(), ParamModel> {
    if groups <= 0 {
        Err(ParamModel::Groups { found: groups as int })
    } else if weight_shape.len() != expected_rank {
        Err(ParamModel::WeightRank { found: weight_shape.len(), expected: expected_rank })
    } else if first_zero_axis(weight_shape, 0) is Some {
        Err(ParamModel::WeightExtentPositive { axis: first_zero_axis(weight_shape, 0)->0 })
    } else if (weight_shape[0] as int) % (groups as int) != 0 {
        Err(
            ParamModel::ChannelGroupDivisibility {
                channels: weight_shape[0] as nat,
                groups: groups as int,
            },
        )
    } else if vec_extents_check("stride"@, stride, allowed, true) is Err {
        vec_extents_check("stride"@, stride, allowed, true)
    } else if vec_extents_check("dilation"@, dilation, allowed, true) is Err {
        vec_extents_check("dilation"@, dilation, allowed, true)
    } else if padding_check(padding, allowed) is Err {
        padding_check(padding, allowed)
    } else if bias_shape.len() != 1 {
        Err(ParamModel::BiasRank { found: bias_shape.len() })
    } else if shape_product(bias_shape) != weight_shape[0] as nat {
        Err(
            ParamModel::BiasLength {
                found: shape_product(bias_shape),
                expected: weight_shape[0] as nat,
            },
        )
    } else {
        Ok(())
    }
}

/// The extents of a pooling window tensor: it must hold `i64` values, be a
/// scalar or a vector, and have one or two entries.
pub open spec fn pool_extents(field: Seq<char>, shape: Seq<usize>, data: TensorModel) -> Result<
    Seq<i64>,
    ParamModel,
> {
    match data {
        TensorModel::I64(values) => if shape.len() > 1 {
            Err(ParamModel::ExtentRank { field, found: shape.len() })
        } else if values.len() != 1 && values.len() != 2 {
            Err(ParamModel::ExtentArity { field, expected: "1 or 2"@, found: values.len() })
        } else {
            Ok(values)
        },
        _ => Err(ParamModel::ExtentDType { field, dtype: dtype_text(data.dtype()) }),
    }
}

/// One pooling window field: its extents, then their sign.
pub open spec fn pool_field_check(field: Seq<char>, t: Tensor, positive: bool) -> Result<
    (),
    ParamModel,
> {
    match pool_extents(field, t.shape_view(), t.data_view()) {
        Err(e) => Err(e),
        Ok(values) => extent_values_check(field, values, positive),
    }
}

/// The local invariants of a pooling node: kernel size, stride, padding.
pub open spec fn pool_check(kernel_size: Tensor, stride: Tensor, padding: Tensor) -> Result<
    (),
    ParamModel,
> {
    if pool_field_check("kernel_size"@, kernel_size, true) is Err {
        pool_field_check("kernel_size"@, kernel_size, true)
    } else if pool_field_check("stride"@, stride, true) is Err {
        pool_field_check("stride"@, stride, true)
    } else {
        pool_field_check("padding"@, padding, false)
    }
}

/// A parameter failure of node `name` of wire type `node_type`.
pub open spec fn lift_param(name: Seq<char>, node_type: Seq<char>, r: Result<(), ParamModel>) -> Checked {
    match r {
        Ok(()) => Ok(()),
        Err(kind) => Err(ErrorModel::InvalidNodeParameters { node: name, node_type, kind }),
    }
}

/// Parameter validity of `node` named `name`, at subgraph depth `depth`.
pub open spec fn node_parameters(node: NirNode, name: Seq<char>, depth: nat) -> Checked
    decreases max_depth() + 1 - depth, 0nat, 0nat,
{
    if depth > max_depth() {
        Err(ErrorModel::InvalidGraph(nesting_text()))
    } else {
        match node {
            NirNode::Conv1d(c) => lift_param(name, "Conv1d"@, conv_check(
                c.weight.shape_view(), 3, c.stride@, c.padding, c.dilation@, c.groups,
                c.bias.shape_view(), seq![1usize],
            )),
            NirNode::Conv2d(c) => lift_param(name, "Conv2d"@, conv_check(
                c.weight.shape_view(), 4, c.stride@, c.padding, c.dilation@, c.groups,
                c.bias.shape_view(), seq![1usize, 2usize],
            )),
            NirNode::SumPool2d(p) => lift_param(name, "SumPool2d"@, pool_check(
                p.kernel_size, p.stride, p.padding,
            )),
            NirNode::AvgPool2d(p) => lift_param(name, "AvgPool2d"@, pool_check(
                p.kernel_size, p.stride, p.padding,
            )),
            NirNode::Graph(g) => graph_parameters(*g, Some(name), depth + 1),
            _ => Ok(()),
        }
    }
}

/// The name a node of a subgraph is reported under: `parent/name`.
pub open spec fn qualify(prefix: Option<Seq<char>>, name: Seq<char>) -> Seq<char> {
    match prefix {
        Some(p) => p + "/"@ + name,
        None => name,
    }
}

/// Parameter validity of every node of `g`, in insertion order.
pub open spec fn graph_parameters(g: NirGraph, prefix: Option<Seq<char>>, depth: nat) -> Checked
    decreases max_depth() + 1 - depth, 2nat, 0nat,
{
    if depth > max_depth() {
        Err(ErrorModel::InvalidGraph(nesting_text()))
    } else {
        entries_parameters(graph_entries(g), prefix, depth, 0)
    }
}

/// Parameter validity of `entries[i..]`, reporting the first failure.
pub open spec fn entries_parameters(
    entries: Seq<(Seq<char>, NirNode)>,
    prefix: Option<Seq<char>>,
    depth: nat,
    i: nat,
) -> Checked
    decreases max_depth() + 1 - depth, 1nat, entries.len() - i,
{
    if i >= entries.len() || depth > max_depth() {
        Ok(())
    } else {
        match node_parameters(entries[i as int].1, qualify(prefix, entries[i as int].0), depth) {
            Err(e) => Err(e),
            Ok(()) => entries_parameters(entries, prefix, depth, i + 1),
        }
    }
}

proof fn entries_parameters_first_failure(
    entries: Seq<(Seq<char>, NirNode)>,
    prefix: Option<Seq<char>>,
    depth: nat,
    i: nat,
)
    requires
        depth <= max_depth(),
        i <= entries.len(),
    ensures
        entries_parameters(entries, prefix, depth, i) is Ok <==> (forall|k: int|
            i <= k < entries.len() ==> #[trigger] node_parameters(
                entries[k].1,
                qualify(prefix, entries[k].0),
                depth,
            ) is Ok),
        entries_parameters(entries, prefix, depth, i) is Err ==> exists|k: int|
            i <= k < entries.len() && (forall|m: int|
                i <= m < k ==> #[trigger] node_parameters(
                    entries[m].1,
                    qualify(prefix, entries[m].0),
                    depth,
                ) is Ok) && entries_parameters(entries, prefix, depth, i) == #[trigger] node_parameters(
                entries[k].1,
                qualify(prefix, entries[k].0),
                depth,
            ),
    decreases entries.len() - i,
{
    if i < entries.len() {
        entries_parameters_first_failure(entries, prefix, depth, i + 1);
        let here = node_parameters(entries[i as int].1, qualify(prefix, entries[i as int].0), depth);
        if here is Err {
            assert(forall|m: int| i <= m < i ==> #[trigger] node_parameters(
                entries[m].1,
                qualify(prefix, entries[m].0),
                depth,
            ) is Ok);
        } else if entries_parameters(entries, prefix, depth, i) is Err {
            let k = choose|k: int|
                i + 1 <= k < entries.len() && (forall|m: int|
                    i + 1 <= m < k ==> #[trigger] node_parameters(
                        entries[m].1,
                        qualify(prefix, entries[m].0),
                        depth,
                    ) is Ok) && entries_parameters(entries, prefix, depth, i + 1)
                    == #[trigger] node_parameters(entries[k].1, qualify(prefix, entries[k].0), depth);
            assert forall|m: int| i <= m < k implies #[trigger] node_parameters(
                entries[m].1,
                qualify(prefix, entries[m].0),
                depth,
            ) is Ok by {
                if m > i {
                }
            }
        }
    }
}

/// Parameter validation of a graph checks every one of its nodes, whatever
/// comes before it (subgraph nodes included): it passes exactly when every
/// node, named by its path below `prefix`, passes on its own; otherwise the
/// result is the failure of the first node, in insertion order, that fails.
pub proof fn graph_parameters_checks_every_node(g: NirGraph, prefix: Option<Seq<char>>, depth: nat)
    requires
        depth <= max_depth(),
    ensures
        graph_parameters(g, prefix, depth) is Ok <==> (forall|k: int|
            0 <= k < graph_entries(g).len() ==> #[trigger] node_parameters(
                graph_entries(g)[k].1,
                qualify(prefix, graph_entries(g)[k].0),
                depth,
            ) is Ok),
        graph_parameters(g, prefix, depth) is Err ==> exists|k: int|
            0 <= k < graph_entries(g).len() && (forall|m: int|
                0 <= m < k ==> #[trigger] node_parameters(
                    graph_entries(g)[m].1,
                    qualify(prefix, graph_entries(g)[m].0),
                    depth,
                ) is Ok) && graph_parameters(g, prefix, depth) == #[trigger] node_parameters(
                graph_entries(g)[k].1,
                qualify(prefix, graph_entries(g)[k].0),
                depth,
            ),
{
    entries_parameters_first_failure(graph_entries(g), prefix, depth, 0);
}

fn check_extent_values(field: &'static str, extents: &[i64], positive: bool) -> (r: Result<
    (),
    ParameterError,
>)
    ensures
        match r {
            Ok(()) => extent_values_check(field@, extents@, positive) is Ok,
            Err(e) => extent_values_check(field@, extents@, positive) == Err::<(), ParamModel>(e@),
        },
{
    let mut index: usize = 0;
    while index < extents.len()
        invariant
            index <= extents@.len(),
            first_bad_extent(extents@, positive, 0) == first_bad_extent(
                extents@,
                positive,
                index as nat,
            ),
        decreases extents@.len() - index,
    {
        let value = extents[index];
        if positive && value <= 0 {
            return Err(ParameterError::ExtentPositive { field, index, value });
        }
        if !positive && value < 0 {
            return Err(ParameterError::ExtentNonNegative { field, index, value });
        }
        index = index + 1;
    }
    Ok(())
}

fn check_vec_extents(
    field: &'static str,
    extents: &[i64],
    allowed: &[usize],
    positive: bool,
) -> (r: Result<(), ParameterError>)
    ensures
        match r {
            Ok(()) => vec_extents_check(field@, extents@, allowed@, positive) is Ok,
            Err(e) => vec_extents_check(field@, extents@, allowed@, positive) == Err::<(), ParamModel>(
                e@,
            ),
        },
{
    let n = extents.len();
    let mut found = false;
    let mut k: usize = 0;
    while k < allowed.len()
        invariant
            k <= allowed@.len(),
            n == extents@.len(),
            found == allowed@.take(k as int).contains(n),
        decreases allowed@.len() - k,
    {
        proof {
            assert(allowed@.take(k + 1) =~= allowed@.take(k as int).push(allowed@[k as int]));
            vstd::seq_lib::lemma_seq_contains_after_push(allowed@.take(k as int), allowed@[k as int], n);
        }
        if allowed[k] == n {
            found = true;
        }
        k = k + 1;
    }
    assert(allowed@.take(allowed@.len() as int) =~= allowed@);
    if !found {
        return Err(ParameterError::ExtentArity { field, expected: arity_label(allowed), found: n });
    }
    check_extent_values(field, extents, positive)
}

fn check_padding(padding: &Padding, allowed: &[usize]) -> (r: Result<(), ParameterError>)
    ensures
        match r {
            Ok(()) => padding_check(*padding, allowed@) is Ok,
            Err(e) => padding_check(*padding, allowed@) == Err::<(), ParamModel>(e@),
        },
{
    match padding {
        Padding::Explicit(extents) => check_vec_extents("padding", extents.as_slice(), allowed, false),
        _ => Ok(()),
    }
}

#[verifier::rlimit(30)]
fn check_conv(
    weight: &Tensor,
    expected_rank: usize,
    stride: &[i64],
    padding: &Padding,
    dilation: &[i64],
    groups: i64,
    bias: &Tensor,
    allowed: &[usize],
) -> (r: Result<(), ParameterError>)
    requires
        expected_rank >= 1,
    ensures
        match r {
            Ok(()) => conv_check(weight.shape_view(), expected_rank as nat, stride@, *padding,
                dilation@, groups, bias.shape_view(), allowed@) is Ok,
            Err(e) => conv_check(weight.shape_view(), expected_rank as nat, stride@, *padding,
                dilation@, groups, bias.shape_view(), allowed@) == Err::<(), ParamModel>(e@),
        },
{
    if groups <= 0 {
        return Err(ParameterError::Groups { found: groups });
    }
    let rank = weight.ndim();
    if rank != expected_rank {
        return Err(ParameterError::WeightRank { found: rank, expected: expected_rank });
    }
    let shape = weight.shape();
    let mut axis: usize = 0;
    while axis < shape.len()
        invariant
            axis <= shape@.len(),
            shape@ == weight.shape_view(),
            groups > 0,
            shape@.len() == expected_rank,
            first_zero_axis(shape@, 0) == first_zero_axis(shape@, axis as nat),
        decreases shape@.len() - axis,
    {
        if shape[axis] == 0 {
            return Err(ParameterError::WeightExtentPositive { axis });
        }
        axis = axis + 1;
    }
    let out_channels = shape[0];
    if (out_channels as u64) % (groups as u64) != 0 {
        return Err(ParameterError::ChannelGroupDivisibility { channels: out_channels, groups });
    }
    match check_vec_extents("stride", stride, allowed, true) {
        Err(e) => return Err(e),
        Ok(()) => {},
    }
    match check_vec_extents("dilation", dilation, allowed, true) {
        Err(e) => return Err(e),
        Ok(()) => {},
    }
    match check_padding(padding, allowed) {
        Err(e) => return Err(e),
        Ok(()) => {},
    }
    let bias_rank = bias.ndim();
    if bias_rank != 1 {
        return Err(ParameterError::BiasRank { found: bias_rank });
    }
    let bias_len = bias.numel();
    if bias_len != out_channels {
        return Err(ParameterError::BiasLength { found: bias_len, expected: out_channels });
    }
    Ok(())
}

fn pool_extents_of<'a>(field: &'static str, tensor: &'a Tensor) -> (r: Result<&'a [i64], ParameterError>)
    ensures
        match r {
            Ok(values) => pool_extents(field@, tensor.shape_view(), tensor.data_view()) == Ok::<
                Seq<i64>,
                ParamModel,
            >(values@),
            Err(e) => pool_extents(field@, tensor.shape_view(), tensor.data_view()) == Err::<
                Seq<i64>,
                ParamModel,
            >(e@),
        },
{
    match tensor.data() {
        TensorData::I64(values) => {
            if tensor.ndim() > 1 {
                return Err(ParameterError::ExtentRank { field, found: tensor.ndim() });
            }
            if values.len() != 1 && values.len() != 2 {
                return Err(ParameterError::ExtentArity { field, expected: "1 or 2", found: values.len() });
            }
            Ok(values.as_slice())
        },
        _ => Err(ParameterError::ExtentDType { field, dtype: dtype_label(tensor.dtype()) }),
    }
}

fn check_pool_field(field: &'static str, tensor: &Tensor, positive: bool) -> (r: Result<(), ParameterError>)
    ensures
        match r {
            Ok(()) => pool_field_check(field@, *tensor, positive) is Ok,
            Err(e) => pool_field_check(field@, *tensor, positive) == Err::<(), ParamModel>(e@),
        },
{
    let values = match pool_extents_of(field, tensor) {
        Ok(values) => values,
        Err(e) => return Err(e),
    };
    check_extent_values(field, values, positive)
}

fn check_pool(kernel_size: &Tensor, stride: &Tensor, padding: &Tensor) -> (r: Result<(), ParameterError>)
    ensures
        match r {
            Ok(()) => pool_check(*kernel_size, *stride, *padding) is Ok,
            Err(e) => pool_check(*kernel_size, *stride, *padding) == Err::<(), ParamModel>(e@),
        },
{
    match check_pool_field("kernel_size", kernel_size, true) {
        Err(e) => return Err(e),
        Ok(()) => {},
    }
    match check_pool_field("stride", stride, true) {
        Err(e) => return Err(e),
        Ok(()) => {},
    }
    check_pool_field("padding", padding, false)
}

fn invalid(node: &str, node_type: &'static str, kind: ParameterError) -> (e: NirError)
    ensures
        e@ == (ErrorModel::InvalidNodeParameters { node: node@, node_type: node_type@, kind: kind@ }),
{
    NirError::InvalidNodeParameters { node: node.to_owned(), node_type, kind }
}

fn lift(node: &str, node_type: &'static str, r: Result<(), ParameterError>) -> (out: Result<(), NirError>)
    ensures
        match r {
            Ok(()) => out is Ok,
            Err(k) => crate::error::checked_view(out) == Err::<(), ErrorModel>(
                ErrorModel::InvalidNodeParameters { node: node@, node_type: node_type@, kind: k@ },
            ),
        },
{
    match r {
        Ok(()) => Ok(()),
        Err(kind) => Err(invalid(node, node_type, kind)),
    }
}

fn nesting_error() -> (e: NirError)
    ensures
        e@ == ErrorModel::InvalidGraph(nesting_text()),
{
    NirError::InvalidGraph(
        String::from_str("graph nesting depth exceeds ").concat(
            usize_text(NirGraph::MAX_NESTING_DEPTH).as_str(),
        ),
    )
}

fn validate_conv1d(node: &str, conv: &Conv1d) -> (r: Result<(), NirError>)
    ensures
        checked_view(r) == lift_param(node@, "Conv1d"@, conv_check(conv.weight.shape_view(), 3,
            conv.stride@, conv.padding, conv.dilation@, conv.groups, conv.bias.shape_view(),
            seq![1usize])),
{
    let allowed = [1usize];
    assert(allowed@ =~= seq![1usize]);
    lift(node, "Conv1d", check_conv(&conv.weight, 3, conv.stride.as_slice(), &conv.padding,
        conv.dilation.as_slice(), conv.groups, &conv.bias, &allowed))
}

fn validate_conv2d(node: &str, conv: &Conv2d) -> (r: Result<(), NirError>)
    ensures
        checked_view(r) == lift_param(node@, "Conv2d"@, conv_check(conv.weight.shape_view(), 4,
            conv.stride@, conv.padding, conv.dilation@, conv.groups, conv.bias.shape_view(),
            seq![1usize, 2usize])),
{
    let allowed = [1usize, 2usize];
    assert(allowed@ =~= seq![1usize, 2usize]);
    lift(node, "Conv2d", check_conv(&conv.weight, 4, conv.stride.as_slice(), &conv.padding,
        conv.dilation.as_slice(), conv.groups, &conv.bias, &allowed))
}

fn validate_sum_pool2d(node: &str, pool: &SumPool2d) -> (r: Result<(), NirError>)
    ensures
        checked_view(r) == lift_param(node@, "SumPool2d"@, pool_check(pool.kernel_size,
            pool.stride, pool.padding)),
{
    lift(node, "SumPool2d", check_pool(&pool.kernel_size, &pool.stride, &pool.padding))
}

fn validate_avg_pool2d(node: &str, pool: &AvgPool2d) -> (r: Result<(), NirError>)
    ensures
        checked_view(r) == lift_param(node@, "AvgPool2d"@, pool_check(pool.kernel_size,
            pool.stride, pool.padding)),
{
    lift(node, "AvgPool2d", check_pool(&pool.kernel_size, &pool.stride, &pool.padding))
}

fn validate_node_with_depth(node: &NirNode, name: &str, depth: usize) -> (r: Result<(), NirError>)
    ensures
        checked_view(r) == node_parameters(*node, name@, depth as nat),
    decreases max_depth() + 1 - depth, 0nat, 0nat,
{
    if depth > NirGraph::MAX_NESTING_DEPTH {
        return Err(nesting_error());
    }
    match node {
        NirNode::Conv1d(conv) => validate_conv1d(name, conv),
        NirNode::Conv2d(conv) => validate_conv2d(name, conv),
        NirNode::SumPool2d(pool) => validate_sum_pool2d(name, pool),
        NirNode::AvgPool2d(pool) => validate_avg_pool2d(name, pool),
        NirNode::Graph(g) => validate_graph_with_prefix_and_depth(g, Some(name), depth + 1),
        _ => Ok(()),
    }
}

fn validate_graph_with_prefix_and_depth(graph: &NirGraph, prefix: Option<&str>, depth: usize) -> (r:
    Result<(), NirError>)
    requires
        depth <= max_depth() + 1,
    ensures
        checked_view(r) == graph_parameters(*graph, match prefix {
            Some(p) => Some(p@),
            None => None,
        }, depth as nat),
    decreases max_depth() + 1 - depth, 2nat, 0nat,
{
    let ghost prefix_view = match prefix {
        Some(p) => Some(p@),
        None => None::<Seq<char>>,
    };
    if depth > NirGraph::MAX_NESTING_DEPTH {
        return Err(nesting_error());
    }
    let ghost entries = graph_entries(*graph);
    let n = graph.nodes.len();
    let mut i: usize = 0;
    while i < n
        invariant
            n == entries.len(),
            entries == graph_entries(*graph),
            prefix_view == match prefix {
                Some(p) => Some(p@),
                None => None::<Seq<char>>,
            },
            i <= n,
            depth <= max_depth(),
            entries_parameters(entries, prefix_view, depth as nat, 0) == entries_parameters(
                entries,
                prefix_view,
                depth as nat,
                i as nat,
            ),
        decreases n - i,
    {
        let (name, node) = graph.nodes.get_index(i).unwrap();
        let qualified = match prefix {
            Some(parent) => String::from_str(parent).concat("/").concat(name.as_str()),
            None => name.clone(),
        };
        assert(qualified@ == qualify(prefix_view, name@));
        match validate_node_with_depth(node, qualified.as_str(), depth) {
            Err(e) => return Err(e),
            Ok(()) => {},
        }
        i = i + 1;
    }
    Ok(())
}

impl NirNode {
    /// Check this node's local convolution / pooling parameter invariants.
    ///
    /// Non-convolution, non-pooling leaves pass. A nested graph is checked
    /// node by node. Errors name the node [`ANONYMOUS_NODE`].
    pub fn validate_parameters(&self) -> (r: Result<(), NirError>)
        ensures
            checked_view(r) == node_parameters(*self, ANONYMOUS_NODE@, 0),
    {
        validate_node_with_depth(self, ANONYMOUS_NODE, 0)
    }
}

impl NirGraph {
    /// Check every node's local convolution / pooling parameter invariants,
    /// in insertion order, naming nested nodes by their `/`-separated path.
    pub fn validate_parameters(&self) -> (r: Result<(), NirError>)
        ensures
            checked_view(r) == graph_parameters(*self, None, 0),
    {
        validate_graph_with_prefix_and_depth(self, None, 0)
    }
}

} // verus!

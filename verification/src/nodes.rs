//! Wire-accurate NIR computational node types.
//!
//! The closed [`NirNode`] enum mirrors upstream HDF5 `type` strings exactly
//! (`CubaLIF`, `Conv2d`, `SumPool2d`, `I`, ...). Field names use snake_case
//! matching the neuromorphs/NIR Python dataclasses. Numeric array parameters
//! are [`Tensor`] values.

use vstd::prelude::*;
use crate::graph::NirGraph;
use crate::types::{MetadataMap, Tensor};

verus! {

/// Convolution / pooling padding specification.
///
/// Upstream NIR accepts integer extents or the string modes `"same"` / `"valid"`.
#[derive(Debug, Clone, PartialEq)]
#[non_exhaustive]
pub enum Padding {
    /// Explicit per-axis padding extents (length 1 for 1d, 2 for 2d, ...).
    Explicit(Vec<i64>),
    /// Pad so that spatial output size matches input (`"same"`).
    Same,
    /// No padding (`"valid"`).
    Valid,
}

impl Padding {
    /// Single-axis explicit padding.
    pub fn single(value: i64) -> (p: Padding)
        ensures
            p matches Padding::Explicit(v) && v@ == seq![value],
    {
        let v = vec![value];
        assert(v@ =~= seq![value]);
        Padding::Explicit(v)
    }

    /// Two-axis explicit padding `(h, w)`.
    pub fn pair(h: i64, w: i64) -> (p: Padding)
        ensures
            p matches Padding::Explicit(v) && v@ == seq![h, w],
    {
        let v = vec![h, w];
        assert(v@ =~= seq![h, w]);
        Padding::Explicit(v)
    }
}

/// Closed set of NIR computational nodes.
///
/// Exhaustive matching is intentional: new wire types are a major API change.
#[derive(Debug, Clone, PartialEq)]
pub enum NirNode {
    /// Graph input port (`type = "Input"`).
    Input(Input),
    /// Graph output port (`type = "Output"`).
    Output(Output),
    /// Affine transform `y = W x + b` (`type = "Affine"`).
    Affine(Affine),
    /// Linear transform without bias (`type = "Linear"`).
    Linear(Linear),
    /// Elementwise scale (`type = "Scale"`).
    Scale(Scale),
    /// 1-D convolution (`type = "Conv1d"`).
    Conv1d(Conv1d),
    /// 2-D convolution (`type = "Conv2d"`).
    Conv2d(Conv2d),
    /// Current-based leaky integrator (`type = "CubaLI"`).
    CubaLi(CubaLi),
    /// Current-based LIF (`type = "CubaLIF"`).
    CubaLif(CubaLif),
    /// Pure delay (`type = "Delay"`).
    Delay(Delay),
    /// Flatten (`type = "Flatten"`).
    Flatten(Flatten),
    /// Integrator (`type = "I"`).
    I(I),
    /// Integrate-and-fire (`type = "IF"`).
    If(If),
    /// Leaky integrator (`type = "LI"`).
    Li(Li),
    /// Leaky integrate-and-fire (`type = "LIF"`).
    Lif(Lif),
    /// Sum pooling 2-D (`type = "SumPool2d"`).
    SumPool2d(SumPool2d),
    /// Average pooling 2-D (`type = "AvgPool2d"`).
    AvgPool2d(AvgPool2d),
    /// Heaviside threshold (`type = "Threshold"`).
    Threshold(Threshold),
    /// Nested subgraph (`type = "NIRGraph"`).
    Graph(Box<NirGraph>),
}

/// The exact upstream wire `type` string of a node.
pub open spec fn wire_type_of(n: NirNode) -> Seq<char> {
    match n {
        NirNode::Input(_) => "Input"@,
        NirNode::Output(_) => "Output"@,
        NirNode::Affine(_) => "Affine"@,
        NirNode::Linear(_) => "Linear"@,
        NirNode::Scale(_) => "Scale"@,
        NirNode::Conv1d(_) => "Conv1d"@,
        NirNode::Conv2d(_) => "Conv2d"@,
        NirNode::CubaLi(_) => "CubaLI"@,
        NirNode::CubaLif(_) => "CubaLIF"@,
        NirNode::Delay(_) => "Delay"@,
        NirNode::Flatten(_) => "Flatten"@,
        NirNode::I(_) => "I"@,
        NirNode::If(_) => "IF"@,
        NirNode::Li(_) => "LI"@,
        NirNode::Lif(_) => "LIF"@,
        NirNode::SumPool2d(_) => "SumPool2d"@,
        NirNode::AvgPool2d(_) => "AvgPool2d"@,
        NirNode::Threshold(_) => "Threshold"@,
        NirNode::Graph(_) => "NIRGraph"@,
    }
}

impl NirNode {
    /// Exact upstream HDF5 / Python wire `type` string.
    pub fn wire_type_name(&self) -> (s: &'static str)
        ensures
            s@ == wire_type_of(*self),
    {
        match self {
            NirNode::Input(_) => "Input",
            NirNode::Output(_) => "Output",
            NirNode::Affine(_) => "Affine",
            NirNode::Linear(_) => "Linear",
            NirNode::Scale(_) => "Scale",
            NirNode::Conv1d(_) => "Conv1d",
            NirNode::Conv2d(_) => "Conv2d",
            NirNode::CubaLi(_) => "CubaLI",
            NirNode::CubaLif(_) => "CubaLIF",
            NirNode::Delay(_) => "Delay",
            NirNode::Flatten(_) => "Flatten",
            NirNode::I(_) => "I",
            NirNode::If(_) => "IF",
            NirNode::Li(_) => "LI",
            NirNode::Lif(_) => "LIF",
            NirNode::SumPool2d(_) => "SumPool2d",
            NirNode::AvgPool2d(_) => "AvgPool2d",
            NirNode::Threshold(_) => "Threshold",
            NirNode::Graph(_) => "NIRGraph",
        }
    }
}

/// Input port: virtual node feeding data into the graph.
#[derive(Debug, Clone, PartialEq)]
pub struct Input {
    /// Shape of the input tensor.
    pub shape: Vec<usize>,
    /// Free-form node metadata.
    pub metadata: MetadataMap,
}

/// Output port: virtual node collecting graph results.
#[derive(Debug, Clone, PartialEq)]
pub struct Output {
    /// Shape of the output tensor.
    pub shape: Vec<usize>,
    /// Free-form node metadata.
    pub metadata: MetadataMap,
}

/// Affine map `y = W x + b`.
#[derive(Debug, Clone, PartialEq)]
pub struct Affine {
    /// Weight matrix / tensor.
    pub weight: Tensor,
    /// Bias vector / tensor.
    pub bias: Tensor,
    /// Free-form node metadata.
    pub metadata: MetadataMap,
}

/// Linear map without bias `y = W x`.
#[derive(Debug, Clone, PartialEq)]
pub struct Linear {
    /// Weight matrix / tensor.
    pub weight: Tensor,
    /// Free-form node metadata.
    pub metadata: MetadataMap,
}

/// Elementwise scale `y = x * s`.
#[derive(Debug, Clone, PartialEq)]
pub struct Scale {
    /// Per-element scale factors.
    pub scale: Tensor,
    /// Free-form node metadata.
    pub metadata: MetadataMap,
}

/// 1-D convolution.
#[derive(Debug, Clone, PartialEq)]
pub struct Conv1d {
    /// Kernel weights, typically `(C_out, C_in, K)`.
    pub weight: Tensor,
    /// Stride (scalar or length-1).
    pub stride: Vec<i64>,
    /// Padding specification.
    pub padding: Padding,
    /// Dilation (scalar or length-1).
    pub dilation: Vec<i64>,
    /// Grouped convolution groups.
    pub groups: i64,
    /// Bias of shape `(C_out,)` (required on the NIR wire).
    pub bias: Tensor,
    /// Optional spatial input length `N` used for shape inference.
    pub input_shape: Option<usize>,
    /// Free-form node metadata.
    pub metadata: MetadataMap,
}

/// 2-D convolution.
#[derive(Debug, Clone, PartialEq)]
pub struct Conv2d {
    /// Kernel weights, typically `(C_out, C_in, Kh, Kw)`.
    pub weight: Tensor,
    /// Stride per spatial axis (or single value expanded on the wire).
    pub stride: Vec<i64>,
    /// Padding specification.
    pub padding: Padding,
    /// Dilation per spatial axis.
    pub dilation: Vec<i64>,
    /// Grouped convolution groups.
    pub groups: i64,
    /// Bias of shape `(C_out,)` (required on the NIR wire).
    pub bias: Tensor,
    /// Optional spatial input `(N_x, N_y)`.
    pub input_shape: Option<Vec<usize>>,
    /// Free-form node metadata.
    pub metadata: MetadataMap,
}

/// Current-based leaky integrator (`CubaLI`).
#[derive(Debug, Clone, PartialEq)]
pub struct CubaLi {
    /// Synaptic time constant.
    pub tau_syn: Tensor,
    /// Membrane time constant.
    pub tau_mem: Tensor,
    /// Resistance.
    pub r: Tensor,
    /// Leak voltage.
    pub v_leak: Tensor,
    /// Input current weight (elementwise); the reader fills ones when absent.
    pub w_in: Option<Tensor>,
    /// Free-form node metadata.
    pub metadata: MetadataMap,
}

/// Current-based leaky integrate-and-fire (`CubaLIF`).
#[derive(Debug, Clone, PartialEq)]
pub struct CubaLif {
    /// Synaptic time constant.
    pub tau_syn: Tensor,
    /// Membrane time constant.
    pub tau_mem: Tensor,
    /// Resistance.
    pub r: Tensor,
    /// Leak voltage.
    pub v_leak: Tensor,
    /// Firing threshold.
    pub v_threshold: Tensor,
    /// Reset potential (optional; the reader fills zeros when absent).
    pub v_reset: Option<Tensor>,
    /// Input current weight (elementwise); the reader fills ones when absent.
    pub w_in: Option<Tensor>,
    /// Free-form node metadata.
    pub metadata: MetadataMap,
}

/// Pure delay `y(t) = x(t - tau)`.
#[derive(Debug, Clone, PartialEq)]
pub struct Delay {
    /// Delay amount(s).
    pub delay: Tensor,
    /// Free-form node metadata.
    pub metadata: MetadataMap,
}

/// Flatten a contiguous range of dimensions.
#[derive(Debug, Clone, PartialEq)]
pub struct Flatten {
    /// First dimension to flatten (Python default: 1).
    pub start_dim: i64,
    /// Last dimension to flatten (Python default: -1).
    pub end_dim: i64,
    /// Optional input shape used for shape inference / wire `input_type`.
    pub input_type: Option<Vec<usize>>,
    /// Free-form node metadata.
    pub metadata: MetadataMap,
}

/// Integrator neuron (`I`): `dv/dt = R I`.
#[derive(Debug, Clone, PartialEq)]
pub struct I {
    /// Resistance.
    pub r: Tensor,
    /// Free-form node metadata.
    pub metadata: MetadataMap,
}

/// Integrate-and-fire neuron (`IF`).
#[derive(Debug, Clone, PartialEq)]
pub struct If {
    /// Resistance.
    pub r: Tensor,
    /// Firing threshold.
    pub v_threshold: Tensor,
    /// Reset potential (optional).
    pub v_reset: Option<Tensor>,
    /// Free-form node metadata.
    pub metadata: MetadataMap,
}

/// Leaky integrator (`LI`).
#[derive(Debug, Clone, PartialEq)]
pub struct Li {
    /// Membrane time constant.
    pub tau: Tensor,
    /// Resistance.
    pub r: Tensor,
    /// Leak voltage.
    pub v_leak: Tensor,
    /// Free-form node metadata.
    pub metadata: MetadataMap,
}

/// Leaky integrate-and-fire (`LIF`).
#[derive(Debug, Clone, PartialEq)]
pub struct Lif {
    /// Membrane time constant.
    pub tau: Tensor,
    /// Resistance.
    pub r: Tensor,
    /// Leak voltage.
    pub v_leak: Tensor,
    /// Firing threshold.
    pub v_threshold: Tensor,
    /// Reset potential (optional).
    pub v_reset: Option<Tensor>,
    /// Free-form node metadata.
    pub metadata: MetadataMap,
}

/// 2-D sum pooling.
#[derive(Debug, Clone, PartialEq)]
pub struct SumPool2d {
    /// Kernel size `(H, W)`.
    pub kernel_size: Tensor,
    /// Stride `(H, W)`.
    pub stride: Tensor,
    /// Padding `(H, W)`.
    pub padding: Tensor,
    /// Free-form node metadata.
    pub metadata: MetadataMap,
}

/// 2-D average pooling.
#[derive(Debug, Clone, PartialEq)]
pub struct AvgPool2d {
    /// Kernel size `(H, W)`.
    pub kernel_size: Tensor,
    /// Stride `(H, W)`.
    pub stride: Tensor,
    /// Padding `(H, W)`.
    pub padding: Tensor,
    /// Free-form node metadata.
    pub metadata: MetadataMap,
}

/// Heaviside threshold / surrogate step.
#[derive(Debug, Clone, PartialEq)]
pub struct Threshold {
    /// Threshold value(s).
    pub threshold: Tensor,
    /// Free-form node metadata.
    pub metadata: MetadataMap,
}

} // verus!

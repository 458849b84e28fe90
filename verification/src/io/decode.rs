//! Decisions a `.nir` reader takes between its HDF5 reads.
//!
//! The reader itself opens groups and datasets; everything it decides from
//! what it read is here: the decoded-allocation budget, how each element type
//! is decoded and charged, the defaults of absent fields, and the shape rules
//! of edge lists and string metadata.
//!
//! Reading is deliberately permissive: a graph is returned as the file
//! describes it, without structure validation. The only normalization is
//! lossless widening of element types and the upstream Python defaults of
//! absent optional fields.

use vstd::prelude::*;
use crate::error::{checked_view, Checked, ErrorModel, NirError, ReadLimitResource};
use crate::nodes::{Flatten, NirNode, wire_type_of};
use crate::text::{debug_quoted, decimal, i64_text, quoted, same_text, signed_decimal, text_less, text_lt, text_lt_irreflexive, text_lt_total, text_lt_transitive, u64_text, usize_list, usize_list_text, usize_text};
use crate::types::{dtype_width, is_filled, DType, MetadataMap, MetadataValue, Tensor, TensorData, TensorModel};
use super::ReadOptions;
use super::wire::wire_types;

verus! {

/// Total `NIRGraph` groups decoded from one file, counting the root.
///
/// Bounds total work rather than depth, which covers both failure modes: an
/// unbounded chain would overflow the stack, and hard-link aliases could
/// re-expand a shared subtree exponentially. The writer enforces the same
/// bound, so nesting alone never makes this crate emit a file it would then
/// refuse to read.
pub const MAX_NESTED_GRAPHS: usize = 1024usize;

// ---------------------------------------------------------------------------
// Allocation budget
// ---------------------------------------------------------------------------

/// What charging `requested` bytes does to a ledger with `limit` and `used`:
/// the new `used`, or the limit error. With no limit nothing is recorded; an
/// unknown (overflowed) request, or one that would pass the limit, is refused.
pub open spec fn charge_outcome(
    limit: Option<usize>,
    used: nat,
    context: Seq<char>,
    requested: Option<usize>,
) -> Result<nat, ErrorModel> {
    match limit {
        None => Ok(used),
        Some(l) => match requested {
            None => Err(
                ErrorModel::ReadLimitExceeded {
                    context,
                    limit: l as nat,
                    used,
                    requested: usize::MAX as nat,
                },
            ),
            Some(r) => if used + r > usize::MAX || used + r > l {
                Err(
                    ErrorModel::ReadLimitExceeded {
                        context,
                        limit: l as nat,
                        used,
                        requested: r as nat,
                    },
                )
            } else {
                Ok((used + r) as nat)
            },
        },
    }
}

/// A charge never lowers the ledger and never takes it past its limit.
pub proof fn charges_stay_within_limit(
    limit: Option<usize>,
    used: nat,
    context: Seq<char>,
    requested: Option<usize>,
)
    ensures
        charge_outcome(limit, used, context, requested) matches Ok(after) ==> used <= after && (
        limit matches Some(l) ==> after <= l),
{
}

/// Monotonic decoded-allocation ledger shared by one read operation.
///
/// Charging happens before each allocation. Temporary allocations stay
/// charged after they are released, so the ledger only grows, and it never
/// passes its limit.
#[derive(Debug)]
pub struct ReadBudget {
    limit: Option<usize>,
    used: usize,
}

impl ReadBudget {
    #[verifier::type_invariant]
    closed spec fn within_limit(self) -> bool {
        self.limit matches Some(l) ==> self.used <= l
    }

    /// The configured limit, if any.
    pub closed spec fn limit_view(self) -> Option<usize> {
        self.limit
    }

    /// Bytes charged so far.
    pub closed spec fn used_view(self) -> nat {
        self.used as nat
    }

    /// A fresh ledger with the budget of `opts`.
    pub fn new(opts: &ReadOptions) -> (b: ReadBudget)
        ensures
            b.limit_view() == opts.max_bytes,
            b.used_view() == 0,
            b.limit_view() matches Some(l) ==> b.used_view() <= l,
    {
        ReadBudget { limit: opts.max_bytes, used: 0 }
    }

    /// The configured limit, if any.
    pub fn limit(&self) -> (l: Option<usize>)
        ensures
            l == self.limit_view(),
    {
        self.limit
    }

    /// Bytes charged so far; never more than the limit.
    pub fn used(&self) -> (u: usize)
        ensures
            u == self.used_view(),
            self.limit_view() matches Some(l) ==> u <= l,
    {
        proof {
            use_type_invariant(self);
        }
        self.used
    }

    fn exceeded(&self, context: &str, requested: usize) -> (e: NirError)
        requires
            self.limit_view() is Some,
        ensures
            e@ == (ErrorModel::ReadLimitExceeded {
                context: context@,
                limit: self.limit_view()->0 as nat,
                used: self.used_view(),
                requested: requested as nat,
            }),
    {
        NirError::ReadLimitExceeded {
            context: context.to_owned(),
            limit: self.limit.unwrap(),
            used: self.used,
            requested,
        }
    }

    /// Dry-run check of a charge that must fit before an expensive operation.
    ///
    /// `requested` is `None` when computing it overflowed; that never fits a
    /// finite budget.
    pub fn would_fit(&self, context: &str, requested: Option<usize>) -> (r: Result<(), NirError>)
        ensures
            self.limit_view() matches Some(l) ==> self.used_view() <= l,
            match charge_outcome(self.limit_view(), self.used_view(), context@, requested) {
                Ok(_) => r is Ok,
                Err(e) => r matches Err(x) && x@ == e,
            },
    {
        proof {
            use_type_invariant(self);
        }
        let limit = match self.limit {
            Some(l) => l,
            None => return Ok(()),
        };
        let requested = match requested {
            Some(r) => r,
            None => return Err(self.exceeded(context, usize::MAX)),
        };
        let next = match self.used.checked_add(requested) {
            Some(n) => n,
            None => return Err(self.exceeded(context, requested)),
        };
        if next > limit {
            return Err(self.exceeded(context, requested));
        }
        Ok(())
    }

    /// Charge `requested` bytes before allocating them.
    ///
    /// Overflow is reported through the same limit error because no finite
    /// `usize` budget can admit it. A refused charge leaves the ledger
    /// unchanged.
    pub fn charge(&mut self, context: &str, requested: Option<usize>) -> (r: Result<(), NirError>)
        ensures
            final(self).limit_view() == old(self).limit_view(),
            old(self).used_view() <= final(self).used_view(),
            final(self).limit_view() matches Some(l) ==> final(self).used_view() <= l,
            match charge_outcome(old(self).limit_view(), old(self).used_view(), context@, requested) {
                Ok(used) => r is Ok && final(self).used_view() == used,
                Err(e) => (r matches Err(x) && x@ == e) && final(self).used_view()
                    == old(self).used_view(),
            },
    {
        proof {
            use_type_invariant(&*self);
        }
        let limit = match self.limit {
            Some(l) => l,
            None => return Ok(()),
        };
        let requested = match requested {
            Some(r) => r,
            None => return Err(self.exceeded(context, usize::MAX)),
        };
        let next = match self.used.checked_add(requested) {
            Some(n) => n,
            None => return Err(self.exceeded(context, requested)),
        };
        if next > limit {
            return Err(self.exceeded(context, requested));
        }
        self.used = next;
        Ok(())
    }
}

/// What charging `requested` items of `resource` does to a count ledger with
/// `limit` and `used`: the new `used`, or the count-limit error. With no limit
/// nothing is recorded; a charge that would pass the limit (or overflow
/// `usize`, which no limit admits) is refused and leaves `used` as it was.
pub open spec fn count_charge_outcome(
    resource: ReadLimitResource,
    limit: Option<usize>,
    used: nat,
    context: Seq<char>,
    requested: usize,
) -> Result<nat, ErrorModel> {
    match limit {
        None => Ok(used),
        Some(l) => if used + requested > l {
            Err(
                ErrorModel::ReadCountLimitExceeded {
                    resource,
                    context,
                    limit: l as nat,
                    used,
                    requested: requested as nat,
                },
            )
        } else {
            Ok((used + requested) as nat)
        },
    }
}

/// A count charge never lowers the ledger and never takes it past its
/// limit; a refused charge asked for more than the limit leaves.
pub proof fn count_charges_stay_within_limit(
    resource: ReadLimitResource,
    limit: Option<usize>,
    used: nat,
    context: Seq<char>,
    requested: usize,
)
    ensures
        count_charge_outcome(resource, limit, used, context, requested) matches Ok(after) ==> used
            <= after && (limit matches Some(l) ==> after <= l),
        count_charge_outcome(resource, limit, used, context, requested) is Err ==> (limit matches Some(
            l,
        ) && used + requested > l),
{
}

/// The limit that `opts` sets for `resource`.
pub open spec fn count_limit(opts: ReadOptions, resource: ReadLimitResource) -> Option<usize> {
    match resource {
        ReadLimitResource::Nodes => opts.max_nodes,
        ReadLimitResource::Edges => opts.max_edges,
        ReadLimitResource::NestedGraphs => opts.max_nested_graphs,
    }
}

/// Monotonic ledger of one structural collection (nodes, edges or nested
/// graphs), summed over the whole file.
///
/// Each collection is charged as a whole before it is decoded. Like
/// [`ReadBudget`] it only grows and never passes its limit.
#[derive(Debug)]
pub struct CountBudget {
    resource: ReadLimitResource,
    limit: Option<usize>,
    used: usize,
}

impl CountBudget {
    #[verifier::type_invariant]
    closed spec fn count_within_limit(self) -> bool {
        self.limit matches Some(l) ==> self.used <= l
    }

    /// The collection this ledger counts.
    pub closed spec fn resource_view(self) -> ReadLimitResource {
        self.resource
    }

    /// The configured limit, if any.
    pub closed spec fn limit_view(self) -> Option<usize> {
        self.limit
    }

    /// Items charged so far.
    pub closed spec fn used_view(self) -> nat {
        self.used as nat
    }

    /// A fresh ledger for `resource` with the limit that `opts` sets for it.
    pub fn new(resource: ReadLimitResource, opts: &ReadOptions) -> (b: CountBudget)
        ensures
            b.resource_view() == resource,
            b.limit_view() == count_limit(*opts, resource),
            b.used_view() == 0,
    {
        let limit = match resource {
            ReadLimitResource::Nodes => opts.max_nodes,
            ReadLimitResource::Edges => opts.max_edges,
            ReadLimitResource::NestedGraphs => opts.max_nested_graphs,
        };
        CountBudget { resource, limit, used: 0 }
    }

    /// The collection this ledger counts.
    pub fn resource(&self) -> (r: ReadLimitResource)
        ensures
            r == self.resource_view(),
    {
        self.resource
    }

    /// The configured limit, if any.
    pub fn limit(&self) -> (l: Option<usize>)
        ensures
            l == self.limit_view(),
    {
        self.limit
    }

    /// Items charged so far; never more than the limit.
    pub fn used(&self) -> (u: usize)
        ensures
            u == self.used_view(),
            self.limit_view() matches Some(l) ==> u <= l,
    {
        proof {
            use_type_invariant(self);
        }
        self.used
    }

    /// Charge a whole collection of `requested` items before decoding it.
    ///
    /// A refused charge leaves the ledger unchanged.
    pub fn charge(&mut self, context: &str, requested: usize) -> (r: Result<(), NirError>)
        ensures
            final(self).resource_view() == old(self).resource_view(),
            final(self).limit_view() == old(self).limit_view(),
            old(self).used_view() <= final(self).used_view(),
            final(self).limit_view() matches Some(l) ==> final(self).used_view() <= l,
            match count_charge_outcome(
                old(self).resource_view(),
                old(self).limit_view(),
                old(self).used_view(),
                context@,
                requested,
            ) {
                Ok(used) => r is Ok && final(self).used_view() == used,
                Err(e) => (r matches Err(x) && x@ == e) && final(self).used_view()
                    == old(self).used_view(),
            },
    {
        proof {
            use_type_invariant(&*self);
        }
        let limit = match self.limit {
            Some(l) => l,
            None => return Ok(()),
        };
        let over = match self.used.checked_add(requested) {
            Some(n) => {
                if n > limit {
                    true
                } else {
                    self.used = n;
                    false
                }
            },
            None => true,
        };
        if over {
            return Err(
                NirError::ReadCountLimitExceeded {
                    resource: self.resource,
                    context: context.to_owned(),
                    limit,
                    used: self.used,
                    requested,
                },
            );
        }
        Ok(())
    }
}

/// The three count ledgers of one read.
#[derive(Debug)]
pub struct StructureBudget {
    /// Nodes over all graphs.
    pub nodes: CountBudget,
    /// Edges over all graphs.
    pub edges: CountBudget,
    /// `NIRGraph` groups, the root included.
    pub graphs: CountBudget,
}

impl StructureBudget {
    /// Fresh ledgers with the count limits of `opts`.
    pub fn new(opts: &ReadOptions) -> (b: StructureBudget)
        ensures
            b.nodes.resource_view() == ReadLimitResource::Nodes,
            b.nodes.limit_view() == opts.max_nodes,
            b.nodes.used_view() == 0,
            b.edges.resource_view() == ReadLimitResource::Edges,
            b.edges.limit_view() == opts.max_edges,
            b.edges.used_view() == 0,
            b.graphs.resource_view() == ReadLimitResource::NestedGraphs,
            b.graphs.limit_view() == opts.max_nested_graphs,
            b.graphs.used_view() == 0,
    {
        StructureBudget {
            nodes: CountBudget::new(ReadLimitResource::Nodes, opts),
            edges: CountBudget::new(ReadLimitResource::Edges, opts),
            graphs: CountBudget::new(ReadLimitResource::NestedGraphs, opts),
        }
    }
}

/// Sum of `parts`, or `None` when a part is unknown or the total does not
/// fit `usize`.
pub open spec fn checked_total(parts: Seq<Option<usize>>) -> Option<usize> {
    if exists|i: int| 0 <= i < parts.len() && #[trigger] parts[i] is None {
        None
    } else if known_total(parts) > usize::MAX {
        None
    } else {
        Some(known_total(parts) as usize)
    }
}

/// Sum of the known parts.
pub open spec fn known_total(parts: Seq<Option<usize>>) -> nat
    decreases parts.len(),
{
    if parts.len() == 0 {
        0
    } else {
        known_total(parts.drop_last()) + match parts.last() {
            Some(v) => v as nat,
            None => 0,
        }
    }
}

proof fn known_total_prefix(parts: Seq<Option<usize>>, i: int)
    requires
        0 <= i <= parts.len(),
    ensures
        known_total(parts.take(i)) <= known_total(parts),
    decreases parts.len() - i,
{
    if i < parts.len() {
        known_total_prefix(parts, i + 1);
        assert(parts.take(i + 1).drop_last() =~= parts.take(i));
    } else {
        assert(parts.take(i) =~= parts);
    }
}

/// Sum of allocation sizes with every step checked.
pub fn checked_sum(parts: &[Option<usize>]) -> (r: Option<usize>)
    ensures
        r == checked_total(parts@),
{
    let mut sum: usize = 0;
    let mut i: usize = 0;
    let mut overflowed = false;
    while i < parts.len()
        invariant
            i <= parts@.len(),
            forall|j: int| 0 <= j < i ==> #[trigger] parts@[j] is Some,
            overflowed ==> known_total(parts@.take(i as int)) > usize::MAX,
            !overflowed ==> sum == known_total(parts@.take(i as int)),
        decreases parts@.len() - i,
    {
        assert(parts@.take(i + 1).drop_last() =~= parts@.take(i as int));
        match parts[i] {
            None => {
                assert(parts@[i as int] is None);
                return None;
            },
            Some(v) => {
                if !overflowed {
                    match sum.checked_add(v) {
                        Some(s) => {
                            sum = s;
                        },
                        None => {
                            overflowed = true;
                        },
                    }
                }
            },
        }
        i = i + 1;
    }
    assert(parts@.take(parts@.len() as int) =~= parts@);
    if overflowed {
        None
    } else {
        Some(sum)
    }
}

// ---------------------------------------------------------------------------
// Element types
// ---------------------------------------------------------------------------

/// Element type of an HDF5 dataset, as far as decoding cares.
#[derive(Debug, Clone, PartialEq, Eq)]
pub enum ElementType {
    /// 4-byte IEEE float.
    Float32,
    /// 8-byte IEEE float.
    Float64,
    /// Signed integer of any width.
    Signed,
    /// Unsigned integer of 1, 2 or 4 bytes.
    UnsignedNarrow,
    /// Unsigned 8-byte integer.
    Unsigned64,
    /// Boolean.
    Boolean,
    /// Variable-length UTF-8 string.
    VarLenUnicode,
    /// Variable-length ASCII string.
    VarLenAscii,
    /// Fixed-length ASCII string of the given byte width.
    FixedAscii(usize),
    /// Fixed-length UTF-8 string of the given byte width.
    FixedUnicode(usize),
    /// Anything else.
    Other,
}

/// Whether an element type holds strings.
pub open spec fn is_string_type(e: ElementType) -> bool {
    match e {
        ElementType::VarLenUnicode | ElementType::VarLenAscii | ElementType::FixedAscii(_)
        | ElementType::FixedUnicode(_) => true,
        _ => false,
    }
}

/// Whether an element type holds strings.
pub fn is_string(e: &ElementType) -> (b: bool)
    ensures
        b == is_string_type(*e),
{
    match e {
        ElementType::VarLenUnicode | ElementType::VarLenAscii | ElementType::FixedAscii(_)
        | ElementType::FixedUnicode(_) => true,
        _ => false,
    }
}


/// How a numeric dataset is decoded into a tensor payload.
#[derive(Debug, Clone, Copy, PartialEq, Eq)]
pub enum TensorDecode {
    /// Read as `f32`.
    F32,
    /// Read as `f64`.
    F64,
    /// Read as `i64` (narrower integers widen losslessly).
    I64,
    /// Read as `u64`, then convert each value to `i64`.
    U64,
    /// Read as `bool`.
    Bool,
}

/// Bytes one decoded element of a plan takes; the `u64` path holds both the
/// `u64` buffer and the converted `i64` buffer.
pub open spec fn decode_width(plan: TensorDecode) -> nat {
    match plan {
        TensorDecode::F32 => 4,
        TensorDecode::F64 => 8,
        TensorDecode::I64 => 8,
        TensorDecode::U64 => 16,
        TensorDecode::Bool => 1,
    }
}

/// The decode plan of a numeric element type, or `None` when it has no NIR
/// dtype.
pub open spec fn tensor_plan(e: ElementType) -> Option<TensorDecode> {
    match e {
        ElementType::Float32 => Some(TensorDecode::F32),
        ElementType::Float64 => Some(TensorDecode::F64),
        ElementType::Signed | ElementType::UnsignedNarrow => Some(TensorDecode::I64),
        ElementType::Unsigned64 => Some(TensorDecode::U64),
        ElementType::Boolean => Some(TensorDecode::Bool),
        _ => None,
    }
}

/// The charge of decoding `count` elements with `plan`, `None` on overflow.
pub open spec fn plan_request(plan: TensorDecode, count: usize) -> Option<usize> {
    if count * decode_width(plan) > usize::MAX {
        None
    } else {
        Some((count * decode_width(plan)) as usize)
    }
}

fn plan_width(plan: TensorDecode) -> (w: usize)
    ensures
        w == decode_width(plan),
{
    match plan {
        TensorDecode::F32 => 4,
        TensorDecode::F64 => 8,
        TensorDecode::I64 => 8,
        TensorDecode::U64 => 16,
        TensorDecode::Bool => 1,
    }
}

/// The error for a dataset whose element type has no NIR dtype.
pub open spec fn no_dtype_error(context: Seq<char>, description: Seq<char>) -> ErrorModel {
    ErrorModel::InvalidTensor(context + ": element type "@ + description + " has no NIR dtype"@)
}

/// Choose how to decode `count` elements of type `element` (described as
/// `description`) and charge the decoded buffers to `budget` first.
///
/// Narrower integers widen into `i64`; floats keep their width so an `f32`
/// file never silently becomes `f64`. Anything else is rejected rather than
/// guessed at.
pub fn plan_tensor(
    element: &ElementType,
    description: &str,
    count: usize,
    context: &str,
    budget: &mut ReadBudget,
) -> (r: Result<TensorDecode, NirError>)
    ensures
        final(budget).limit_view() == old(budget).limit_view(),
        match tensor_plan(*element) {
            None => (r matches Err(x) && x@ == no_dtype_error(context@, description@))
                && final(budget).used_view() == old(budget).used_view(),
            Some(plan) => match charge_outcome(
                old(budget).limit_view(),
                old(budget).used_view(),
                context@,
                plan_request(plan, count),
            ) {
                Ok(used) => r == Ok::<TensorDecode, NirError>(plan) && final(budget).used_view()
                    == used,
                Err(e) => (r matches Err(x) && x@ == e) && final(budget).used_view()
                    == old(budget).used_view(),
            },
        },
{
    let plan = match element {
        ElementType::Float32 => TensorDecode::F32,
        ElementType::Float64 => TensorDecode::F64,
        ElementType::Signed | ElementType::UnsignedNarrow => TensorDecode::I64,
        ElementType::Unsigned64 => TensorDecode::U64,
        ElementType::Boolean => TensorDecode::Bool,
        _ => {
            return Err(
                NirError::InvalidTensor(
                    String::from_str(context).concat(": element type ").concat(description).concat(
                        " has no NIR dtype",
                    ),
                ),
            );
        },
    };
    let requested = count.checked_mul(plan_width(plan));
    match budget.charge(context, requested) {
        Err(e) => Err(e),
        Ok(()) => Ok(plan),
    }
}

/// The error for a `u64` value that does not fit `i64`.
pub open spec fn u64_overflow_error(context: Seq<char>, v: u64) -> ErrorModel {
    ErrorModel::InvalidTensor(context + ": u64 value "@ + decimal(v as nat) + " does not fit in i64"@)
}

/// Index of the first value above `i64::MAX`, from `i` on.
pub open spec fn first_too_big(values: Seq<u64>, i: nat) -> Option<nat>
    decreases values.len() - i,
{
    if i >= values.len() {
        None
    } else if values[i as int] > i64::MAX {
        Some(i)
    } else {
        first_too_big(values, i + 1)
    }
}

/// `u64` is the one integer width that does not fit losslessly in `i64`:
/// convert every value, or report the first that does not fit.
pub fn u64s_to_i64s(values: &[u64], context: &str) -> (r: Result<Vec<i64>, NirError>)
    ensures
        match first_too_big(values@, 0) {
            None => r matches Ok(v) && v@.len() == values@.len() && forall|i: int|
                0 <= i < values@.len() ==> v@[i] as int == #[trigger] values@[i] as int,
            Some(k) => r matches Err(x) && x@ == u64_overflow_error(context@, values@[k as int]),
        },
{
    let mut out: Vec<i64> = Vec::new();
    let mut i: usize = 0;
    while i < values.len()
        invariant
            i <= values@.len(),
            out@.len() == i,
            first_too_big(values@, 0) == first_too_big(values@, i as nat),
            forall|j: int| 0 <= j < i ==> out@[j] as int == #[trigger] values@[j] as int,
        decreases values@.len() - i,
    {
        let v = values[i];
        if v > i64::MAX as u64 {
            return Err(
                NirError::InvalidTensor(
                    String::from_str(context).concat(": u64 value ").concat(u64_text(v).as_str()).concat(
                        " does not fit in i64",
                    ),
                ),
            );
        }
        out.push(v as i64);
        i = i + 1;
    }
    Ok(out)
}

/// A scalar `u64` metadata value, kept as `i64` when it fits.
pub fn u64_metadata(v: u64, context: &str) -> (r: Result<MetadataValue, NirError>)
    ensures
        v <= i64::MAX ==> (r matches Ok(MetadataValue::I64(x)) && x as int == v as int),
        v > i64::MAX ==> (r matches Err(x) && x@ == u64_overflow_error(context@, v)),
{
    if v > i64::MAX as u64 {
        return Err(
            NirError::InvalidTensor(
                String::from_str(context).concat(": u64 value ").concat(u64_text(v).as_str()).concat(
                    " does not fit in i64",
                ),
            ),
        );
    }
    Ok(MetadataValue::I64(v as i64))
}

// ---------------------------------------------------------------------------
// Integer fields
// ---------------------------------------------------------------------------

/// The error for an integer field that should hold one value.
pub open spec fn single_int_error(context: Seq<char>, n: nat) -> ErrorModel {
    ErrorModel::InvalidTensor(context + ": expected a single integer, found "@ + decimal(n) + " values"@)
}

/// The one value of a scalar integer field.
pub fn single_int(values: &[i64], context: &str) -> (r: Result<i64, NirError>)
    ensures
        values@.len() == 1 ==> r == Ok::<i64, NirError>(values@[0]),
        values@.len() != 1 ==> (r matches Err(x) && x@ == single_int_error(context@, values@.len())),
{
    if values.len() == 1 {
        Ok(values[0])
    } else {
        Err(
            NirError::InvalidTensor(
                String::from_str(context).concat(": expected a single integer, found ").concat(
                    usize_text(values.len()).as_str(),
                ).concat(" values"),
            ),
        )
    }
}

/// The error for a negative axis length.
pub open spec fn negative_axis_error(context: Seq<char>, v: i64) -> ErrorModel {
    ErrorModel::InvalidTensor(context + ": negative axis length "@ + signed_decimal(v as int))
}

/// Index of the first value from `i` on that is no `usize`: negative (or,
/// where `usize` is narrower than `i64`, too large).
pub open spec fn first_negative(values: Seq<i64>, i: nat) -> Option<nat>
    decreases values.len() - i,
{
    if i >= values.len() {
        None
    } else if values[i as int] < 0 || values[i as int] > usize::MAX {
        Some(i)
    } else {
        first_negative(values, i + 1)
    }
}

/// Bytes of one `usize`.
pub open spec fn usize_bytes() -> nat {
    (usize::BITS / 8) as nat
}

/// What [`to_usizes`] charges for `n` extents.
pub open spec fn usizes_request(n: nat) -> Option<usize> {
    if n * usize_bytes() > usize::MAX {
        None
    } else {
        Some((n * usize_bytes()) as usize)
    }
}

/// Convert an `i64` extent list to `usize`, charging the destination buffer
/// first (the source is still alive while it is allocated).
pub fn to_usizes(values: &[i64], context: &str, budget: &mut ReadBudget) -> (r: Result<
    Vec<usize>,
    NirError,
>)
    ensures
        final(budget).limit_view() == old(budget).limit_view(),
        match charge_outcome(
            old(budget).limit_view(),
            old(budget).used_view(),
            context@,
            usizes_request(values@.len()),
        ) {
            Err(e) => (r matches Err(x) && x@ == e) && final(budget).used_view()
                == old(budget).used_view(),
            Ok(used) => final(budget).used_view() == used && match first_negative(values@, 0) {
                None => r matches Ok(v) && v@.len() == values@.len() && forall|i: int|
                    0 <= i < values@.len() ==> v@[i] as int == #[trigger] values@[i] as int,
                Some(k) => r matches Err(x) && x@ == negative_axis_error(context@, values@[k as int]),
            },
        },
{
    let width: usize = (usize::BITS / 8) as usize;
    match budget.charge(context, values.len().checked_mul(width)) {
        Err(e) => return Err(e),
        Ok(()) => {},
    }
    let mut out: Vec<usize> = Vec::new();
    let mut i: usize = 0;
    while i < values.len()
        invariant
            i <= values@.len(),
            out@.len() == i,
            first_negative(values@, 0) == first_negative(values@, i as nat),
            forall|j: int| 0 <= j < i ==> out@[j] as int == #[trigger] values@[j] as int,
            budget.limit_view() == old(budget).limit_view(),
            charge_outcome(
                old(budget).limit_view(),
                old(budget).used_view(),
                context@,
                usizes_request(values@.len()),
            ) == Ok::<nat, ErrorModel>(budget.used_view()),
        decreases values@.len() - i,
    {
        let v = values[i];
        if v < 0 || v as u64 > usize::MAX as u64 {
            return Err(
                NirError::InvalidTensor(
                    String::from_str(context).concat(": negative axis length ").concat(
                        i64_text(v).as_str(),
                    ),
                ),
            );
        }
        out.push(v as usize);
        i = i + 1;
    }
    Ok(out)
}

/// The error for a `Conv1d.input_shape` that is not one extent.
pub open spec fn single_extent_error(context: Seq<char>, n: nat) -> ErrorModel {
    ErrorModel::InvalidTensor(context + ": expected a single extent, found "@ + decimal(n) + " values"@)
}

/// A single non-negative extent, for `Conv1d.input_shape`: absent stays
/// absent, one value is taken, any other count is an error.
pub fn opt_dim(values: Option<Vec<usize>>, context: &str) -> (r: Result<Option<usize>, NirError>)
    ensures
        match values {
            None => r == Ok::<Option<usize>, NirError>(None),
            Some(v) => if v@.len() == 1 {
                r == Ok::<Option<usize>, NirError>(Some(v@[0]))
            } else {
                r matches Err(x) && x@ == single_extent_error(context@, v@.len())
            },
        },
{
    match values {
        None => Ok(None),
        Some(v) => {
            if v.len() == 1 {
                Ok(Some(v[0]))
            } else {
                Err(
                    NirError::InvalidTensor(
                        String::from_str(context).concat(": expected a single extent, found ").concat(
                            usize_text(v.len()).as_str(),
                        ).concat(" values"),
                    ),
                )
            }
        },
    }
}

// ---------------------------------------------------------------------------
// Defaults of absent fields
// ---------------------------------------------------------------------------

/// What synthesizing a tensor shaped like `like` charges.
pub open spec fn synthesized_request(like: Tensor) -> Option<usize> {
    if like.data_view().len() * dtype_width(like.data_view().dtype()) > usize::MAX {
        None
    } else {
        Some((like.data_view().len() * dtype_width(like.data_view().dtype())) as usize)
    }
}

/// `v_reset`, defaulting to `zeros_like(v_threshold)` as Python does; the
/// synthesized payload is charged as `<node>.v_reset (synthesized)`.
pub fn v_reset_or_default(
    given: Option<Tensor>,
    v_threshold: &Tensor,
    node: &str,
    budget: &mut ReadBudget,
) -> (r: Result<Option<Tensor>, NirError>)
    ensures
        final(budget).limit_view() == old(budget).limit_view(),
        given is Some ==> r == Ok::<Option<Tensor>, NirError>(given) && final(budget).used_view()
            == old(budget).used_view(),
        given is None ==> match charge_outcome(
            old(budget).limit_view(),
            old(budget).used_view(),
            node@ + ".v_reset (synthesized)"@,
            synthesized_request(*v_threshold),
        ) {
            Err(e) => (r matches Err(x) && x@ == e) && final(budget).used_view()
                == old(budget).used_view(),
            Ok(used) => final(budget).used_view() == used && (r matches Ok(Some(t))
                && t.shape_view() == v_threshold.shape_view() && is_filled(
                t.data_view(),
                v_threshold.data_view().dtype(),
                v_threshold.data_view().len(),
                false,
            )),
        },
{
    match given {
        Some(t) => Ok(Some(t)),
        None => {
            let context = String::from_str(node).concat(".v_reset (synthesized)");
            let requested = v_threshold.data().len().checked_mul(v_threshold.dtype().size_of());
            match budget.charge(context.as_str(), requested) {
                Err(e) => Err(e),
                Ok(()) => Ok(Some(v_threshold.zeros_like())),
            }
        },
    }
}

/// `w_in`, defaulting to `ones_like(v_leak)` as Python does; the synthesized
/// payload is charged as `<node>.w_in (synthesized)`.
pub fn w_in_or_default(
    given: Option<Tensor>,
    v_leak: &Tensor,
    node: &str,
    budget: &mut ReadBudget,
) -> (r: Result<Option<Tensor>, NirError>)
    ensures
        final(budget).limit_view() == old(budget).limit_view(),
        given is Some ==> r == Ok::<Option<Tensor>, NirError>(given) && final(budget).used_view()
            == old(budget).used_view(),
        given is None ==> match charge_outcome(
            old(budget).limit_view(),
            old(budget).used_view(),
            node@ + ".w_in (synthesized)"@,
            synthesized_request(*v_leak),
        ) {
            Err(e) => (r matches Err(x) && x@ == e) && final(budget).used_view()
                == old(budget).used_view(),
            Ok(used) => final(budget).used_view() == used && (r matches Ok(Some(t))
                && t.shape_view() == v_leak.shape_view() && is_filled(
                t.data_view(),
                v_leak.data_view().dtype(),
                v_leak.data_view().len(),
                true,
            )),
        },
{
    match given {
        Some(t) => Ok(Some(t)),
        None => {
            let context = String::from_str(node).concat(".w_in (synthesized)");
            let requested = v_leak.data().len().checked_mul(v_leak.dtype().size_of());
            match budget.charge(context.as_str(), requested) {
                Err(e) => Err(e),
                Ok(()) => Ok(Some(v_leak.ones_like())),
            }
        },
    }
}

/// A `Flatten` node from its wire fields: upstream's defaults are
/// `start_dim = 1` and `end_dim = -1`; the input shape is stored under
/// `input_type`.
pub fn flatten_from_wire(
    start_dim: Option<i64>,
    end_dim: Option<i64>,
    input_type: Option<Vec<usize>>,
    metadata: MetadataMap,
) -> (f: Flatten)
    ensures
        f.start_dim == match start_dim {
            Some(v) => v,
            None => 1i64,
        },
        f.end_dim == match end_dim {
            Some(v) => v,
            None => -1i64,
        },
        f.input_type == input_type,
        f.metadata == metadata,
{
    Flatten {
        start_dim: match start_dim {
            Some(v) => v,
            None => 1,
        },
        end_dim: match end_dim {
            Some(v) => v,
            None => -1,
        },
        input_type,
        metadata,
    }
}

// ---------------------------------------------------------------------------
// Node types
// ---------------------------------------------------------------------------

/// Which node a wire `type` string decodes to.
#[derive(Debug, Clone, Copy, PartialEq, Eq)]
pub enum NodeKind {
    /// `Input`.
    Input,
    /// `Output`.
    Output,
    /// `Affine`.
    Affine,
    /// `Linear`.
    Linear,
    /// `Scale`.
    Scale,
    /// `Conv1d`.
    Conv1d,
    /// `Conv2d`.
    Conv2d,
    /// `CubaLI`.
    CubaLi,
    /// `CubaLIF`.
    CubaLif,
    /// `Delay`.
    Delay,
    /// `Flatten`.
    Flatten,
    /// `I`.
    I,
    /// `IF`.
    If,
    /// `LI`.
    Li,
    /// `LIF`.
    Lif,
    /// `SumPool2d`.
    SumPool2d,
    /// `AvgPool2d`.
    AvgPool2d,
    /// `Threshold`.
    Threshold,
    /// `NIRGraph`.
    Graph,
}

/// The kind of a node value.
pub open spec fn kind_of(n: NirNode) -> NodeKind {
    match n {
        NirNode::Input(_) => NodeKind::Input,
        NirNode::Output(_) => NodeKind::Output,
        NirNode::Affine(_) => NodeKind::Affine,
        NirNode::Linear(_) => NodeKind::Linear,
        NirNode::Scale(_) => NodeKind::Scale,
        NirNode::Conv1d(_) => NodeKind::Conv1d,
        NirNode::Conv2d(_) => NodeKind::Conv2d,
        NirNode::CubaLi(_) => NodeKind::CubaLi,
        NirNode::CubaLif(_) => NodeKind::CubaLif,
        NirNode::Delay(_) => NodeKind::Delay,
        NirNode::Flatten(_) => NodeKind::Flatten,
        NirNode::I(_) => NodeKind::I,
        NirNode::If(_) => NodeKind::If,
        NirNode::Li(_) => NodeKind::Li,
        NirNode::Lif(_) => NodeKind::Lif,
        NirNode::SumPool2d(_) => NodeKind::SumPool2d,
        NirNode::AvgPool2d(_) => NodeKind::AvgPool2d,
        NirNode::Threshold(_) => NodeKind::Threshold,
        NirNode::Graph(_) => NodeKind::Graph,
    }
}

/// The wire `type` string of a kind.
pub open spec fn kind_text(k: NodeKind) -> Seq<char> {
    match k {
        NodeKind::Input => "Input"@,
        NodeKind::Output => "Output"@,
        NodeKind::Affine => "Affine"@,
        NodeKind::Linear => "Linear"@,
        NodeKind::Scale => "Scale"@,
        NodeKind::Conv1d => "Conv1d"@,
        NodeKind::Conv2d => "Conv2d"@,
        NodeKind::CubaLi => "CubaLI"@,
        NodeKind::CubaLif => "CubaLIF"@,
        NodeKind::Delay => "Delay"@,
        NodeKind::Flatten => "Flatten"@,
        NodeKind::I => "I"@,
        NodeKind::If => "IF"@,
        NodeKind::Li => "LI"@,
        NodeKind::Lif => "LIF"@,
        NodeKind::SumPool2d => "SumPool2d"@,
        NodeKind::AvgPool2d => "AvgPool2d"@,
        NodeKind::Threshold => "Threshold"@,
        NodeKind::Graph => "NIRGraph"@,
    }
}

/// The kind a wire `type` string names, if any.
pub open spec fn kind_named(ty: Seq<char>) -> Option<NodeKind> {
    if ty == "Input"@ { Some(NodeKind::Input) }
    else if ty == "Output"@ { Some(NodeKind::Output) }
    else if ty == "Affine"@ { Some(NodeKind::Affine) }
    else if ty == "Linear"@ { Some(NodeKind::Linear) }
    else if ty == "Scale"@ { Some(NodeKind::Scale) }
    else if ty == "Conv1d"@ { Some(NodeKind::Conv1d) }
    else if ty == "Conv2d"@ { Some(NodeKind::Conv2d) }
    else if ty == "CubaLI"@ { Some(NodeKind::CubaLi) }
    else if ty == "CubaLIF"@ { Some(NodeKind::CubaLif) }
    else if ty == "Delay"@ { Some(NodeKind::Delay) }
    else if ty == "Flatten"@ { Some(NodeKind::Flatten) }
    else if ty == "I"@ { Some(NodeKind::I) }
    else if ty == "IF"@ { Some(NodeKind::If) }
    else if ty == "LI"@ { Some(NodeKind::Li) }
    else if ty == "LIF"@ { Some(NodeKind::Lif) }
    else if ty == "SumPool2d"@ { Some(NodeKind::SumPool2d) }
    else if ty == "AvgPool2d"@ { Some(NodeKind::AvgPool2d) }
    else if ty == "Threshold"@ { Some(NodeKind::Threshold) }
    else if ty == "NIRGraph"@ { Some(NodeKind::Graph) }
    else { None }
}

/// The reader decodes every node's wire `type` string back to that node's
/// kind: writer type names and reader dispatch agree.
pub proof fn wire_types_decode_to_their_kinds(node: NirNode)
    ensures
        kind_named(wire_type_of(node)) == Some(kind_of(node)),
        kind_text(kind_of(node)) == wire_type_of(node),
{
    wire_literal_facts();
}

/// Lengths and distinguishing characters of the wire type strings.
proof fn wire_literal_facts()
    ensures
        "Input"@.len() == 5 && "Input"@[0] == 'I',
        "Output"@.len() == 6 && "Output"@[0] == 'O',
        "Affine"@.len() == 6 && "Affine"@[0] == 'A',
        "Linear"@.len() == 6 && "Linear"@[0] == 'L',
        "Scale"@.len() == 5 && "Scale"@[0] == 'S',
        "Conv1d"@.len() == 6 && "Conv1d"@[0] == 'C',
        "Conv2d"@.len() == 6 && "Conv2d"@[0] == 'C',
        "CubaLI"@.len() == 6 && "CubaLI"@[0] == 'C',
        "CubaLIF"@.len() == 7 && "CubaLIF"@[0] == 'C',
        "Delay"@.len() == 5 && "Delay"@[0] == 'D',
        "Flatten"@.len() == 7 && "Flatten"@[0] == 'F',
        "I"@.len() == 1 && "I"@[0] == 'I',
        "IF"@.len() == 2 && "IF"@[0] == 'I',
        "LI"@.len() == 2 && "LI"@[0] == 'L',
        "LIF"@.len() == 3 && "LIF"@[0] == 'L',
        "SumPool2d"@.len() == 9 && "SumPool2d"@[0] == 'S',
        "AvgPool2d"@.len() == 9 && "AvgPool2d"@[0] == 'A',
        "Threshold"@.len() == 9 && "Threshold"@[0] == 'T',
        "NIRGraph"@.len() == 8 && "NIRGraph"@[0] == 'N',
        "Conv1d"@[1] == 'o' && "Conv2d"@[1] == 'o' && "CubaLI"@[1] == 'u',
        "Conv1d"@[4] == '1' && "Conv2d"@[4] == '2',
{
    reveal_strlit("Input");
    reveal_strlit("Output");
    reveal_strlit("Affine");
    reveal_strlit("Linear");
    reveal_strlit("Scale");
    reveal_strlit("Conv1d");
    reveal_strlit("Conv2d");
    reveal_strlit("CubaLI");
    reveal_strlit("CubaLIF");
    reveal_strlit("Delay");
    reveal_strlit("Flatten");
    reveal_strlit("I");
    reveal_strlit("IF");
    reveal_strlit("LI");
    reveal_strlit("LIF");
    reveal_strlit("SumPool2d");
    reveal_strlit("AvgPool2d");
    reveal_strlit("Threshold");
    reveal_strlit("NIRGraph");
}

/// A `type` string names a node kind exactly when it is one of the wire
/// types.
pub proof fn known_kinds_are_wire_types(ty: Seq<char>)
    ensures
        kind_named(ty) is Some <==> wire_types().contains(ty),
{
    let w = wire_types();
    assert(w[0] == "Input"@);
    assert(w[1] == "Output"@);
    assert(w[2] == "Affine"@);
    assert(w[3] == "Linear"@);
    assert(w[4] == "Scale"@);
    assert(w[5] == "Conv1d"@);
    assert(w[6] == "Conv2d"@);
    assert(w[7] == "CubaLI"@);
    assert(w[8] == "CubaLIF"@);
    assert(w[9] == "Delay"@);
    assert(w[10] == "Flatten"@);
    assert(w[11] == "I"@);
    assert(w[12] == "IF"@);
    assert(w[13] == "LI"@);
    assert(w[14] == "LIF"@);
    assert(w[15] == "SumPool2d"@);
    assert(w[16] == "AvgPool2d"@);
    assert(w[17] == "Threshold"@);
    assert(w[18] == "NIRGraph"@);
    if w.contains(ty) {
        let k = choose|k: int| 0 <= k < w.len() && w[k] == ty;
        assert(kind_named(ty) is Some);
    }
}

/// The node kind a wire `type` string decodes to.
///
/// # Errors
///
/// [`NirError::UnknownNodeType`] for a string outside the wire types.
pub fn node_kind(ty: &str) -> (r: Result<NodeKind, NirError>)
    ensures
        match kind_named(ty@) {
            Some(k) => r == Ok::<NodeKind, NirError>(k),
            None => r matches Err(x) && x@ == ErrorModel::UnknownNodeType(ty@),
        },
{
    if same_text(ty, "Input") { Ok(NodeKind::Input) }
    else if same_text(ty, "Output") { Ok(NodeKind::Output) }
    else if same_text(ty, "Affine") { Ok(NodeKind::Affine) }
    else if same_text(ty, "Linear") { Ok(NodeKind::Linear) }
    else if same_text(ty, "Scale") { Ok(NodeKind::Scale) }
    else if same_text(ty, "Conv1d") { Ok(NodeKind::Conv1d) }
    else if same_text(ty, "Conv2d") { Ok(NodeKind::Conv2d) }
    else if same_text(ty, "CubaLI") { Ok(NodeKind::CubaLi) }
    else if same_text(ty, "CubaLIF") { Ok(NodeKind::CubaLif) }
    else if same_text(ty, "Delay") { Ok(NodeKind::Delay) }
    else if same_text(ty, "Flatten") { Ok(NodeKind::Flatten) }
    else if same_text(ty, "I") { Ok(NodeKind::I) }
    else if same_text(ty, "IF") { Ok(NodeKind::If) }
    else if same_text(ty, "LI") { Ok(NodeKind::Li) }
    else if same_text(ty, "LIF") { Ok(NodeKind::Lif) }
    else if same_text(ty, "SumPool2d") { Ok(NodeKind::SumPool2d) }
    else if same_text(ty, "AvgPool2d") { Ok(NodeKind::AvgPool2d) }
    else if same_text(ty, "Threshold") { Ok(NodeKind::Threshold) }
    else if same_text(ty, "NIRGraph") { Ok(NodeKind::Graph) }
    else { Err(NirError::UnknownNodeType(ty.to_owned())) }
}

// ---------------------------------------------------------------------------
// Graph-level shape rules
// ---------------------------------------------------------------------------

/// The error for a root group whose `type` is not `NIRGraph`.
pub open spec fn root_type_error(found: Seq<char>) -> ErrorModel {
    ErrorModel::InvalidGraph("/node must be a NIRGraph, found "@ + debug_quoted(found))
}

/// `/node` is a serialized NIRGraph: checking its type is what separates a
/// NIR file from unrelated HDF5 that happens to have a `node` group.
pub fn check_root_type(root_type: &str) -> (r: Result<(), NirError>)
    ensures
        root_type@ == "NIRGraph"@ ==> r is Ok,
        root_type@ != "NIRGraph"@ ==> (r matches Err(x) && x@ == root_type_error(root_type@)),
{
    if same_text(root_type, "NIRGraph") {
        Ok(())
    } else {
        Err(
            NirError::InvalidGraph(
                String::from_str("/node must be a NIRGraph, found ").concat(
                    quoted(root_type).as_str(),
                ),
            ),
        )
    }
}

/// What entering one more `NIRGraph` group decides: more than
/// [`MAX_NESTED_GRAPHS`] groups, or a group already being decoded (a
/// hard-link cycle or alias), is refused.
pub open spec fn nested_graph_check(decoded: usize, already_seen: bool, context: Seq<char>) -> Checked {
    if decoded >= 1024 {
        Err(
            ErrorModel::InvalidGraph(
                context + ": more than "@ + decimal(1024) + " nested NIRGraph groups"@,
            ),
        )
    } else if already_seen {
        Err(
            ErrorModel::InvalidGraph(
                context
                    + ": nested NIRGraph group is already being decoded (hard-link cycle or alias)"@,
            ),
        )
    } else {
        Ok(())
    }
}

/// Decide whether one more `NIRGraph` group may be decoded, after `decoded`
/// groups, when the group is (`already_seen`) or is not among them.
///
/// Every group stays counted for the whole read, so a "diamond" of hard
/// links decodes each shared subgraph once at most.
pub fn check_nested_graph(decoded: usize, already_seen: bool, context: &str) -> (r: Result<
    (),
    NirError,
>)
    ensures
        checked_view(r) == nested_graph_check(decoded, already_seen, context@),
{
    if decoded >= MAX_NESTED_GRAPHS {
        return Err(
            NirError::InvalidGraph(
                String::from_str(context).concat(": more than ").concat(
                    usize_text(MAX_NESTED_GRAPHS).as_str(),
                ).concat(" nested NIRGraph groups"),
            ),
        );
    }
    if already_seen {
        return Err(
            NirError::InvalidGraph(
                String::from_str(context).concat(
                    ": nested NIRGraph group is already being decoded (hard-link cycle or alias)",
                ),
            ),
        );
    }
    Ok(())
}

/// Whether an `edges` dataset holds edges: an empty dataset (h5py writes an
/// empty edge list with a float element type) holds none; otherwise it must
/// be `(E, 2)`.
pub open spec fn edges_shape_check(element_count: usize, shape: Seq<usize>) -> Result<bool, ErrorModel> {
    if element_count == 0 {
        Ok(false)
    } else if shape.len() != 2 || shape[1] != 2 {
        Err(ErrorModel::InvalidGraph("edges must have shape (E, 2), found "@ + usize_list_text(shape)))
    } else {
        Ok(true)
    }
}

/// Check the shape of an `edges` dataset; `Ok(false)` means no edges.
pub fn check_edges_shape(element_count: usize, shape: &[usize]) -> (r: Result<bool, NirError>)
    ensures
        match edges_shape_check(element_count, shape@) {
            Ok(b) => r == Ok::<bool, NirError>(b),
            Err(e) => r matches Err(x) && x@ == e,
        },
{
    if element_count == 0 {
        return Ok(false);
    }
    if shape.len() != 2 || shape[1] != 2 {
        return Err(
            NirError::InvalidGraph(
                String::from_str("edges must have shape (E, 2), found ").concat(
                    usize_list(shape).as_str(),
                ),
            ),
        );
    }
    Ok(true)
}

/// Number of edges an `edges` dataset declares: `E` of a valid `(E, 2)`
/// shape, `0` for an empty dataset, or the shape error.
pub open spec fn edge_rows_check(element_count: usize, shape: Seq<usize>) -> Result<usize, ErrorModel> {
    match edges_shape_check(element_count, shape) {
        Ok(true) => Ok(shape[0]),
        Ok(false) => Ok(0usize),
        Err(e) => Err(e),
    }
}

/// The edge count to charge for an `edges` dataset, from its shape alone,
/// before anything is decoded.
pub fn edge_rows(element_count: usize, shape: &[usize]) -> (r: Result<usize, NirError>)
    ensures
        match edge_rows_check(element_count, shape@) {
            Ok(n) => r == Ok::<usize, NirError>(n),
            Err(e) => r matches Err(x) && x@ == e,
        },
{
    if check_edges_shape(element_count, shape)? {
        Ok(shape[0])
    } else {
        Ok(0)
    }
}

/// The characters of each string of a list.
pub open spec fn strings_view(s: Seq<String>) -> Seq<Seq<char>> {
    s.map_values(|x: String| x@)
}

/// The `(source, destination)` names of an edge list.
pub open spec fn edges_view(s: Seq<(String, String)>) -> Seq<(Seq<char>, Seq<char>)> {
    s.map_values(|e: (String, String)| (e.0@, e.1@))
}

/// Consecutive pairs of a flat, row-major `(E, 2)` list; a trailing unpaired
/// string is dropped.
pub open spec fn paired_edges(flat: Seq<Seq<char>>) -> Seq<(Seq<char>, Seq<char>)> {
    Seq::new(flat.len() / 2, |i: int| (flat[2 * i], flat[2 * i + 1]))
}

/// Pair a flat, row-major `(E, 2)` string list into `(source, destination)`
/// edges; a trailing unpaired string is dropped.
pub fn pair_edges(flat: Vec<String>) -> (edges: Vec<(String, String)>)
    ensures
        edges_view(edges@) == paired_edges(strings_view(flat@)),
{
    let mut edges: Vec<(String, String)> = Vec::new();
    let mut i: usize = 0;
    let n = flat.len();
    while i + 1 < n
        invariant
            n == flat@.len(),
            i % 2 == 0,
            i <= n,
            edges@.len() == i / 2,
            forall|k: int|
                0 <= k < edges@.len() ==> (#[trigger] edges@[k]).0@ == flat@[2 * k]@ && edges@[k].1@
                    == flat@[2 * k + 1]@,
        decreases n - i,
    {
        edges.push((flat[i].clone(), flat[i + 1].clone()));
        i = i + 2;
    }
    assert(edges_view(edges@) =~= paired_edges(strings_view(flat@)));
    edges
}

/// `s` is in [`text_lt`] order (equal texts may sit side by side).
pub open spec fn texts_sorted(s: Seq<Seq<char>>) -> bool {
    forall|i: int, j: int| 0 <= i < j < s.len() ==> !text_lt(#[trigger] s[j], #[trigger] s[i])
}

/// `a <= b` and `b <= c` give `a <= c`.
proof fn text_le_transitive(a: Seq<char>, b: Seq<char>, c: Seq<char>)
    requires
        !text_lt(b, a),
        !text_lt(c, b),
    ensures
        !text_lt(c, a),
{
    if text_lt(c, a) {
        if a != b {
            text_lt_total(a, b);
        }
        if b != c {
            text_lt_total(b, c);
        }
        if a != b && b != c {
            text_lt_transitive(a, b, c);
            text_lt_transitive(c, a, c);
            text_lt_irreflexive(c);
        } else if a == b && b != c {
            text_lt_transitive(c, a, c);
            text_lt_irreflexive(c);
        } else if a != b && b == c {
            text_lt_transitive(c, a, b);
            text_lt_irreflexive(c);
        } else {
            text_lt_irreflexive(a);
        }
    }
}

/// Link names in sorted order, so that decoding one file twice gives the
/// same node order both times (HDF5 promises no link order worth carrying).
pub fn sort_names(names: Vec<String>) -> (sorted: Vec<String>)
    ensures
        texts_sorted(strings_view(sorted@)),
        strings_view(sorted@).to_multiset() == strings_view(names@).to_multiset(),
{
    let mut out: Vec<String> = Vec::new();
    let mut i: usize = 0;
    assert(strings_view(out@) =~= strings_view(names@.take(0)));
    while i < names.len()
        invariant
            i <= names@.len(),
            texts_sorted(strings_view(out@)),
            strings_view(out@).to_multiset() == strings_view(names@.take(i as int)).to_multiset(),
        decreases names@.len() - i,
    {
        let x = names[i].clone();
        let ghost before = strings_view(out@);
        let mut k: usize = 0;
        while k < out.len() && text_less(out[k].as_str(), x.as_str())
            invariant
                k <= out@.len(),
                before == strings_view(out@),
                forall|j: int| 0 <= j < k ==> text_lt(#[trigger] before[j], x@),
            decreases out@.len() - k,
        {
            k = k + 1;
        }
        out.insert(k, x);
        let ghost after = strings_view(out@);
        assert(after =~= before.take(k as int).push(x@) + before.skip(k as int));
        assert(after.len() == before.len() + 1);
        assert forall|j: int| 0 <= j < k implies #[trigger] after[j] == before[j] by {}
        assert forall|j: int| k < j < after.len() implies #[trigger] after[j] == before[j - 1] by {}
        assert(after[k as int] == x@);
        assert(texts_sorted(after)) by {
            assert forall|a: int, b: int| 0 <= a < b < after.len() implies !text_lt(
                #[trigger] after[b],
                #[trigger] after[a],
            ) by {
                if b < k {
                    assert(after[a] == before[a] && after[b] == before[b]);
                } else if b == k {
                    assert(after[a] == before[a]);
                    assert(text_lt(before[a], x@));
                    if text_lt(x@, before[a]) {
                        text_lt_transitive(x@, before[a], x@);
                        text_lt_irreflexive(x@);
                    }
                } else if a < k {
                    assert(after[a] == before[a] && after[b] == before[b - 1]);
                } else if a == k {
                    assert(after[b] == before[b - 1]);
                    assert(!text_lt(before[k as int], x@));
                    if b - 1 > k {
                        assert(!text_lt(before[b - 1], before[k as int]));
                        text_le_transitive(x@, before[k as int], before[b - 1]);
                    }
                } else {
                    assert(after[a] == before[a - 1] && after[b] == before[b - 1]);
                }
            }
        }
        proof {
            let taken = strings_view(names@.take(i as int));
            assert(strings_view(names@.take(i + 1)) =~= taken.push(x@));
            vstd::seq_lib::to_multiset_build(taken, x@);
            assert(after =~= before.insert(k as int, x@));
            vstd::seq_lib::to_multiset_insert(before, k as int, x@);
        }
        i = i + 1;
    }
    assert(names@.take(names@.len() as int) =~= names@);
    out
}

/// How string metadata decodes: rank 0 is one string, rank 1 a list (even
/// with one element, so a one-element list round-trips), anything deeper is
/// refused rather than flattened.
#[derive(Debug, Clone, Copy, PartialEq, Eq)]
pub enum StringMetadataShape {
    /// A scalar string.
    Scalar,
    /// A rank-1 list of strings.
    List,
}

/// The decision of [`string_metadata_shape`].
pub open spec fn string_metadata_check(shape: Seq<usize>, context: Seq<char>) -> Result<
    StringMetadataShape,
    ErrorModel,
> {
    if shape.len() == 0 {
        Ok(StringMetadataShape::Scalar)
    } else if shape.len() == 1 {
        Ok(StringMetadataShape::List)
    } else {
        Err(
            ErrorModel::InvalidTensor(
                context + ": string metadata must be scalar or rank-1, found shape "@
                    + usize_list_text(shape),
            ),
        )
    }
}

/// Decide how a string metadata dataset of `shape` decodes.
pub fn string_metadata_shape(shape: &[usize], context: &str) -> (r: Result<
    StringMetadataShape,
    NirError,
>)
    ensures
        match string_metadata_check(shape@, context@) {
            Ok(k) => r == Ok::<StringMetadataShape, NirError>(k),
            Err(e) => r matches Err(x) && x@ == e,
        },
{
    if shape.len() == 0 {
        Ok(StringMetadataShape::Scalar)
    } else if shape.len() == 1 {
        Ok(StringMetadataShape::List)
    } else {
        Err(
            NirError::InvalidTensor(
                String::from_str(context).concat(": string metadata must be scalar or rank-1, found shape ").concat(
                    usize_list(shape).as_str(),
                ),
            ),
        )
    }
}

// ---------------------------------------------------------------------------
// Strings
// ---------------------------------------------------------------------------

/// Requested capacities for fixed-length strings, smallest first.
pub const FIXED_STRING_CAPS: [usize; 3] = [64usize, 256usize, 4096usize];

/// The smallest fixed-string capacity that holds `width` bytes.
pub open spec fn fixed_capacity(width: usize) -> Option<usize> {
    if width <= 64 {
        Some(64)
    } else if width <= 256 {
        Some(256)
    } else if width <= 4096 {
        Some(4096)
    } else {
        None
    }
}

/// The smallest fixed-string capacity that holds `width` bytes, or `None`
/// when the width exceeds the largest.
pub fn fixed_string_capacity(width: usize) -> (r: Option<usize>)
    ensures
        r == fixed_capacity(width),
{
    let caps = FIXED_STRING_CAPS;
    let mut i: usize = 0;
    while i < 3
        invariant
            i <= 3,
            caps@ == seq![64usize, 256usize, 4096usize],
            forall|j: int| 0 <= j < i ==> width > #[trigger] caps@[j],
        decreases 3 - i,
    {
        if width <= caps[i] {
            return Some(caps[i]);
        }
        i = i + 1;
    }
    None
}

/// The error for a fixed-length string wider than the largest capacity.
pub open spec fn too_wide_error(context: Seq<char>, width: usize) -> ErrorModel {
    ErrorModel::Io(
        context + ": fixed-length string of "@ + decimal(width as nat)
            + " bytes exceeds the supported maximum of 4096"@,
    )
}

/// The error for a fixed-length string wider than the largest capacity.
pub fn too_wide(context: &str, width: usize) -> (e: NirError)
    ensures
        e@ == too_wide_error(context@, width),
{
    NirError::Io(
        String::from_str(context).concat(": fixed-length string of ").concat(
            usize_text(width).as_str(),
        ).concat(" bytes exceeds the supported maximum of 4096"),
    )
}

/// How a string dataset is read.
#[derive(Debug, Clone, Copy, PartialEq, Eq)]
pub enum StringDecode {
    /// Variable-length UTF-8.
    VarLenUnicode,
    /// Variable-length ASCII.
    VarLenAscii,
    /// Fixed-length ASCII into buffers of the given capacity.
    FixedAscii(usize),
    /// Fixed-length UTF-8 into buffers of the given capacity.
    FixedUnicode(usize),
}

/// The decision of [`plan_strings`].
pub open spec fn string_plan(e: ElementType, description: Seq<char>, context: Seq<char>) -> Result<
    StringDecode,
    ErrorModel,
> {
    match e {
        ElementType::VarLenUnicode => Ok(StringDecode::VarLenUnicode),
        ElementType::VarLenAscii => Ok(StringDecode::VarLenAscii),
        ElementType::FixedAscii(w) => match fixed_capacity(w) {
            Some(c) => Ok(StringDecode::FixedAscii(c)),
            None => Err(too_wide_error(context, w)),
        },
        ElementType::FixedUnicode(w) => match fixed_capacity(w) {
            Some(c) => Ok(StringDecode::FixedUnicode(c)),
            None => Err(too_wide_error(context, w)),
        },
        _ => Err(ErrorModel::Io(context + ": expected a string dataset, found "@ + description)),
    }
}

/// Choose how to read a string dataset of element type `element`.
pub fn plan_strings(element: &ElementType, description: &str, context: &str) -> (r: Result<
    StringDecode,
    NirError,
>)
    ensures
        match string_plan(*element, description@, context@) {
            Ok(p) => r == Ok::<StringDecode, NirError>(p),
            Err(e) => r matches Err(x) && x@ == e,
        },
{
    match element {
        ElementType::VarLenUnicode => Ok(StringDecode::VarLenUnicode),
        ElementType::VarLenAscii => Ok(StringDecode::VarLenAscii),
        ElementType::FixedAscii(w) => match fixed_string_capacity(*w) {
            Some(c) => Ok(StringDecode::FixedAscii(c)),
            None => Err(too_wide(context, *w)),
        },
        ElementType::FixedUnicode(w) => match fixed_string_capacity(*w) {
            Some(c) => Ok(StringDecode::FixedUnicode(c)),
            None => Err(too_wide(context, *w)),
        },
        _ => Err(
            NirError::Io(
                String::from_str(context).concat(": expected a string dataset, found ").concat(
                    description,
                ),
            ),
        ),
    }
}

/// `a * b`, or `None` when it does not fit `usize`.
pub open spec fn mul_request(a: usize, b: usize) -> Option<usize> {
    if a * b > usize::MAX {
        None
    } else {
        Some((a * b) as usize)
    }
}

/// Charge floor of a variable-length string dataset, checked before its heap
/// is sized: the descriptors and the resulting `String` headers.
pub open spec fn vlen_floor(count: usize, descriptor: usize, header: usize) -> Option<usize> {
    checked_total(seq![mul_request(count, descriptor), mul_request(count, header)])
}

/// Full charge of a variable-length string dataset: descriptors, the heap
/// payload, the `String` headers, and the copied payload.
pub open spec fn vlen_request(count: usize, descriptor: usize, header: usize, payload: usize) -> Option<
    usize,
> {
    checked_total(
        seq![mul_request(count, descriptor), Some(payload), mul_request(count, header), Some(payload)],
    )
}

/// Charge of a fixed-length string dataset: the fixed-capacity buffers, the
/// `String` headers, and the worst-case copied payload. `None` when the width
/// has no capacity (the read then fails without charging).
pub open spec fn fixed_request(count: usize, width: usize, header: usize) -> Option<Option<usize>> {
    match fixed_capacity(width) {
        None => None,
        Some(c) => Some(
            checked_total(
                seq![mul_request(count, c), mul_request(count, header), mul_request(count, width)],
            ),
        ),
    }
}

/// Charge floor of a variable-length string dataset of `count` elements
/// whose descriptors take `descriptor` bytes and whose decoded strings take
/// `header` bytes each.
pub fn vlen_string_floor(count: usize, descriptor: usize, header: usize) -> (r: Option<usize>)
    ensures
        r == vlen_floor(count, descriptor, header),
{
    let parts = [count.checked_mul(descriptor), count.checked_mul(header)];
    assert(parts@ =~= seq![mul_request(count, descriptor), mul_request(count, header)]);
    checked_sum(&parts)
}

/// Full charge of a variable-length string dataset whose heap holds
/// `payload` bytes.
pub fn vlen_string_request(count: usize, descriptor: usize, header: usize, payload: usize) -> (r:
    Option<usize>)
    ensures
        r == vlen_request(count, descriptor, header, payload),
{
    let parts = [count.checked_mul(descriptor), Some(payload), count.checked_mul(header), Some(payload)];
    assert(parts@ =~= seq![
        mul_request(count, descriptor),
        Some(payload),
        mul_request(count, header),
        Some(payload),
    ]);
    checked_sum(&parts)
}

/// Charge of a fixed-length string dataset of `count` elements of `width`
/// bytes; `None` when the width has no capacity.
pub fn fixed_string_request(count: usize, width: usize, header: usize) -> (r: Option<Option<usize>>)
    ensures
        r == fixed_request(count, width, header),
{
    match fixed_string_capacity(width) {
        None => None,
        Some(capacity) => {
            let parts = [count.checked_mul(capacity), count.checked_mul(header), count.checked_mul(width)];
            assert(parts@ =~= seq![
                mul_request(count, capacity),
                mul_request(count, header),
                mul_request(count, width),
            ]);
            Some(checked_sum(&parts))
        },
    }
}

/// How a string dataset is charged before it is read.
#[derive(Debug, Clone, Copy, PartialEq, Eq)]
pub enum StringCharge {
    /// Nothing is charged: the read has no byte budget, the element type
    /// holds no strings, or a fixed width has no capacity (the read then
    /// fails on its own).
    Skip,
    /// Charge this request (`None`: its size overflowed).
    Charge(Option<usize>),
    /// Variable-length strings: first check that `floor` would fit, and only
    /// then ask HDF5 for the heap size `payload` and charge
    /// `vlen_request(count, descriptor, header, payload)`.
    Vlen {
        /// Charge without the heap payload.
        floor: Option<usize>,
        /// Bytes of one in-memory variable-length descriptor.
        descriptor: usize,
    },
}

/// The charge plan of a string dataset of `count` elements of type `element`:
/// `limited` says whether the read has a byte budget, `header` is the size of
/// one decoded `String`, and `unicode` / `ascii` the sizes of the
/// variable-length UTF-8 and ASCII descriptors.
pub open spec fn string_charge(
    element: ElementType,
    count: usize,
    limited: bool,
    header: usize,
    unicode: usize,
    ascii: usize,
) -> StringCharge {
    if !limited {
        StringCharge::Skip
    } else {
        match element {
            ElementType::VarLenUnicode => StringCharge::Vlen {
                floor: vlen_floor(count, unicode, header),
                descriptor: unicode,
            },
            ElementType::VarLenAscii => StringCharge::Vlen {
                floor: vlen_floor(count, ascii, header),
                descriptor: ascii,
            },
            ElementType::FixedAscii(w) | ElementType::FixedUnicode(w) => match fixed_request(
                count,
                w,
                header,
            ) {
                Some(r) => StringCharge::Charge(r),
                None => StringCharge::Skip,
            },
            _ => StringCharge::Skip,
        }
    }
}

/// Decide how a string dataset is charged: enormous declared counts of
/// variable-length strings are refused on their floor before HDF5 sizes the
/// heap, since sizing traverses the data.
pub fn string_charge_plan(
    element: &ElementType,
    count: usize,
    limited: bool,
    header: usize,
    unicode: usize,
    ascii: usize,
) -> (p: StringCharge)
    ensures
        p == string_charge(*element, count, limited, header, unicode, ascii),
{
    if !limited {
        return StringCharge::Skip;
    }
    match element {
        ElementType::VarLenUnicode => StringCharge::Vlen {
            floor: vlen_string_floor(count, unicode, header),
            descriptor: unicode,
        },
        ElementType::VarLenAscii => StringCharge::Vlen {
            floor: vlen_string_floor(count, ascii, header),
            descriptor: ascii,
        },
        ElementType::FixedAscii(w) | ElementType::FixedUnicode(w) => match fixed_string_request(
            count,
            *w,
            header,
        ) {
            Some(r) => StringCharge::Charge(r),
            None => StringCharge::Skip,
        },
        _ => StringCharge::Skip,
    }
}

/// The error for a string dataset that should hold one string.
pub open spec fn single_string_error(context: Seq<char>, n: nat) -> ErrorModel {
    ErrorModel::Io(context + ": expected a single string, found "@ + decimal(n) + " elements"@)
}

/// A scalar string field (`/version`, a node `type`, symbolic `padding`)
/// accepts one element at any rank, since producers disagree on whether a
/// lone string is `()` or `[1]`.
pub fn check_single_string(element_count: usize, context: &str) -> (r: Result<(), NirError>)
    ensures
        element_count == 1 ==> r is Ok,
        element_count != 1 ==> (r matches Err(x) && x@ == single_string_error(
            context@,
            element_count as nat,
        )),
{
    if element_count != 1 {
        return Err(
            NirError::Io(
                String::from_str(context).concat(": expected a single string, found ").concat(
                    usize_text(element_count).as_str(),
                ).concat(" elements"),
            ),
        );
    }
    Ok(())
}

// ---------------------------------------------------------------------------
// Metadata values
// ---------------------------------------------------------------------------

/// How a metadata dataset decodes.
#[derive(Debug, Clone, Copy, PartialEq, Eq)]
pub enum MetadataDecode {
    /// A string or string list (see [`string_metadata_shape`]).
    Strings,
    /// A scalar `bool`.
    Bool,
    /// A scalar float, widened to `f64`.
    F64,
    /// A scalar signed or narrow unsigned integer, widened to `i64`.
    I64,
    /// A scalar `u64`, converted to `i64` when it fits.
    U64,
    /// Anything else, as a tensor.
    Tensor,
}

/// The decision of [`plan_metadata`]: the plan and the bytes it charges up
/// front (tensors and strings charge on their own path).
pub open spec fn metadata_plan(e: ElementType, scalar: bool) -> (MetadataDecode, Option<usize>) {
    if is_string_type(e) {
        (MetadataDecode::Strings, None)
    } else if scalar {
        match e {
            ElementType::Boolean => (MetadataDecode::Bool, Some(1usize)),
            ElementType::Float32 | ElementType::Float64 => (MetadataDecode::F64, Some(8usize)),
            ElementType::Signed | ElementType::UnsignedNarrow => (MetadataDecode::I64, Some(8usize)),
            ElementType::Unsigned64 => (MetadataDecode::U64, Some(8usize)),
            _ => (MetadataDecode::Tensor, None),
        }
    } else {
        (MetadataDecode::Tensor, None)
    }
}

/// Choose how a metadata dataset of element type `element` decodes, and
/// charge the scalar decodes to `budget`.
pub fn plan_metadata(
    element: &ElementType,
    scalar: bool,
    context: &str,
    budget: &mut ReadBudget,
) -> (r: Result<MetadataDecode, NirError>)
    ensures
        final(budget).limit_view() == old(budget).limit_view(),
        match metadata_plan(*element, scalar).1 {
            None => r == Ok::<MetadataDecode, NirError>(metadata_plan(*element, scalar).0)
                && final(budget).used_view() == old(budget).used_view(),
            Some(bytes) => match charge_outcome(
                old(budget).limit_view(),
                old(budget).used_view(),
                context@,
                Some(bytes),
            ) {
                Ok(used) => r == Ok::<MetadataDecode, NirError>(metadata_plan(*element, scalar).0)
                    && final(budget).used_view() == used,
                Err(e) => (r matches Err(x) && x@ == e) && final(budget).used_view()
                    == old(budget).used_view(),
            },
        },
{
    if is_string(element) {
        return Ok(MetadataDecode::Strings);
    }
    if !scalar {
        return Ok(MetadataDecode::Tensor);
    }
    let (plan, bytes): (MetadataDecode, usize) = match element {
        ElementType::Boolean => (MetadataDecode::Bool, 1),
        ElementType::Float32 | ElementType::Float64 => (MetadataDecode::F64, 8),
        ElementType::Signed | ElementType::UnsignedNarrow => (MetadataDecode::I64, 8),
        ElementType::Unsigned64 => (MetadataDecode::U64, 8),
        _ => return Ok(MetadataDecode::Tensor),
    };
    match budget.charge(context, Some(bytes)) {
        Err(e) => Err(e),
        Ok(()) => Ok(plan),
    }
}

// ---------------------------------------------------------------------------
// Container security
// ---------------------------------------------------------------------------

/// The kind of a link inside a group.
#[derive(Debug, Clone, Copy, PartialEq, Eq)]
pub enum LinkKind {
    /// A hard link: the object lives in this file.
    Hard,
    /// A soft link, which can resolve to an external link.
    Soft,
    /// An external link into another file.
    External,
}

/// Index of the first link from `i` on that is not a hard link.
pub open spec fn first_bad_link(links: Seq<(Seq<char>, LinkKind)>, i: nat) -> Option<nat>
    decreases links.len() - i,
{
    if i >= links.len() {
        None
    } else if links[i as int].1 != LinkKind::Hard {
        Some(i)
    } else {
        first_bad_link(links, i + 1)
    }
}

/// The decision of [`check_links`].
pub open spec fn links_check(links: Seq<(Seq<char>, LinkKind)>, context: Seq<char>) -> Checked {
    match first_bad_link(links, 0) {
        None => Ok(()),
        Some(k) => Err(
            ErrorModel::InvalidGraph(
                context + (if links[k as int].1 == LinkKind::External {
                    ": external link '"@
                } else {
                    ": soft link '"@
                }) + links[k as int].0 + "' is not allowed"@,
            ),
        ),
    }
}

/// The `(name, kind)` pairs of links, by view.
pub open spec fn links_view(links: Seq<(String, LinkKind)>) -> Seq<(Seq<char>, LinkKind)> {
    links.map_values(|l: (String, LinkKind)| (l.0@, l.1))
}

/// Reject a group that holds an external or soft link, before anything in it
/// is opened: the file may only be read from inside its own container.
pub fn check_links(links: &[(String, LinkKind)], context: &str) -> (r: Result<(), NirError>)
    ensures
        checked_view(r) == links_check(links_view(links@), context@),
{
    let ghost lv = links_view(links@);
    let mut i: usize = 0;
    while i < links.len()
        invariant
            i <= links@.len(),
            lv == links_view(links@),
            lv.len() == links@.len(),
            first_bad_link(lv, 0) == first_bad_link(lv, i as nat),
        decreases links@.len() - i,
    {
        let (name, kind) = &links[i];
        assert(lv[i as int] == (name@, *kind));
        match kind {
            LinkKind::Hard => {},
            LinkKind::Soft => {
                return Err(
                    NirError::InvalidGraph(
                        String::from_str(context).concat(": soft link '").concat(name.as_str()).concat(
                            "' is not allowed",
                        ),
                    ),
                );
            },
            LinkKind::External => {
                return Err(
                    NirError::InvalidGraph(
                        String::from_str(context).concat(": external link '").concat(
                            name.as_str(),
                        ).concat("' is not allowed"),
                    ),
                );
            },
        }
        i = i + 1;
    }
    Ok(())
}

/// Storage layout of a dataset.
#[derive(Debug, Clone, Copy, PartialEq, Eq)]
pub enum StorageLayout {
    /// Stored in the object header.
    Compact,
    /// One contiguous block.
    Contiguous,
    /// Chunked.
    Chunked,
    /// A virtual dataset mapping other datasets, possibly in other files.
    Virtual,
}

/// The decision of [`check_dataset_storage`].
pub open spec fn storage_check(external_files: usize, layout: StorageLayout, context: Seq<char>) -> Checked {
    if external_files > 0 {
        Err(
            ErrorModel::InvalidGraph(
                context + ": external storage is not allowed ("@ + decimal(external_files as nat)
                    + " external file(s))"@,
            ),
        )
    } else if layout == StorageLayout::Virtual {
        Err(ErrorModel::InvalidGraph(context + ": virtual dataset layouts are not allowed"@))
    } else {
        Ok(())
    }
}

/// Reject a dataset whose raw data can come from outside the file: external
/// storage or a virtual layout.
pub fn check_dataset_storage(external_files: usize, layout: StorageLayout, context: &str) -> (r:
    Result<(), NirError>)
    ensures
        checked_view(r) == storage_check(external_files, layout, context@),
{
    if external_files > 0 {
        return Err(
            NirError::InvalidGraph(
                String::from_str(context).concat(": external storage is not allowed (").concat(
                    usize_text(external_files).as_str(),
                ).concat(" external file(s))"),
            ),
        );
    }
    match layout {
        StorageLayout::Virtual => Err(
            NirError::InvalidGraph(
                String::from_str(context).concat(": virtual dataset layouts are not allowed"),
            ),
        ),
        _ => Ok(()),
    }
}


// ---------------------------------------------------------------------------
// Unwrapping decoded payloads
// ---------------------------------------------------------------------------

/// How a dtype is named by `{:?}`.
pub open spec fn dtype_debug_text(d: DType) -> Seq<char> {
    match d {
        DType::F32 => "F32"@,
        DType::F64 => "F64"@,
        DType::I64 => "I64"@,
        DType::Bool => "Bool"@,
    }
}

/// The integers of a decoded integer field, or an error naming the dtype
/// found instead.
pub fn ints_from_data(data: TensorData, context: &str) -> (r: Result<Vec<i64>, NirError>)
    ensures
        match data@ {
            TensorModel::I64(v) => r matches Ok(x) && x@ == v,
            other => r matches Err(x) && x@ == ErrorModel::InvalidTensor(
                context@ + ": expected integer data, found "@ + dtype_debug_text(other.dtype()),
            ),
        },
{
    let dtype = data.dtype();
    match data {
        TensorData::I64(values) => Ok(values),
        _ => {
            let name = match dtype {
                DType::F32 => "F32",
                DType::F64 => "F64",
                DType::I64 => "I64",
                DType::Bool => "Bool",
            };
            Err(
                NirError::InvalidTensor(
                    String::from_str(context).concat(": expected integer data, found ").concat(name),
                ),
            )
        },
    }
}

/// The one string of a decoded scalar string field.
pub fn single_string(values: Vec<String>, context: &str) -> (r: Result<String, NirError>)
    ensures
        values@.len() == 1 ==> (r matches Ok(s) && s@ == values@[0]@),
        values@.len() != 1 ==> (r matches Err(x) && x@ == ErrorModel::Io(
            context@ + ": expected a single string, found "@ + decimal(values@.len()),
        )),
{
    if values.len() == 1 {
        let mut values = values;
        Ok(values.remove(0))
    } else {
        Err(
            NirError::Io(
                String::from_str(context).concat(": expected a single string, found ").concat(
                    usize_text(values.len()).as_str(),
                ),
            ),
        )
    }
}

} // verus!

//! How a writer lays out values on the wire.
//!
//! The writer creates groups and datasets; the shaping decisions it takes are
//! here: edge lists flatten row-major into an `(E, 2)` string dataset,
//! `usize` extents become `i64`, convolution extents take the shape upstream
//! Python produces, and only chunkable datasets are compressed.

use vstd::prelude::*;
use crate::error::{ErrorModel, NirError};
use crate::text::{decimal, usize_text};
use super::decode::{edges_view, first_negative, paired_edges, strings_view};

verus! {

/// `(source, destination)` edges flattened row-major.
pub open spec fn flat_edges(edges: Seq<(Seq<char>, Seq<char>)>) -> Seq<Seq<char>> {
    Seq::new(2 * edges.len(), |k: int| if k % 2 == 0 { edges[k / 2].0 } else { edges[k / 2].1 })
}

/// Flatten `(source, destination)` edges row-major, as the `(E, 2)` `edges`
/// dataset stores them.
pub fn flatten_edges(edges: &[(String, String)]) -> (flat: Vec<String>)
    ensures
        strings_view(flat@) == flat_edges(edges_view(edges@)),
{
    let mut flat: Vec<String> = Vec::new();
    let mut i: usize = 0;
    while i < edges.len()
        invariant
            i <= edges@.len(),
            flat@.len() == 2 * i,
            forall|k: int|
                0 <= k < i ==> flat@[2 * k]@ == (#[trigger] edges@[k]).0@ && flat@[2 * k + 1]@
                    == edges@[k].1@,
        decreases edges@.len() - i,
    {
        let (src, dst) = &edges[i];
        flat.push(src.clone());
        flat.push(dst.clone());
        i = i + 1;
    }
    let ghost ev = edges_view(edges@);
    assert forall|k: int| 0 <= k < flat@.len() implies #[trigger] strings_view(flat@)[k]
        == flat_edges(ev)[k] by {
        let j = k / 2;
        assert(0 <= j < edges@.len());
        if k % 2 == 0 {
            assert(k == 2 * j);
        } else {
            assert(k == 2 * j + 1);
        }
    }
    assert(strings_view(flat@) =~= flat_edges(ev));
    flat
}

/// Reading back a flattened edge list gives the edges that were written: the
/// reader's pairing undoes the writer's flattening.
pub proof fn pairing_undoes_flattening(edges: Seq<(Seq<char>, Seq<char>)>)
    ensures
        paired_edges(flat_edges(edges)) == edges,
{
    let flat = flat_edges(edges);
    assert forall|i: int| 0 <= i < edges.len() implies #[trigger] paired_edges(flat)[i] == edges[i] by {
        assert((2 * i) % 2 == 0 && (2 * i) / 2 == i);
        assert((2 * i + 1) % 2 == 1 && (2 * i + 1) / 2 == i);
    }
    assert(paired_edges(flat) =~= edges);
}

/// The error for an extent that does not fit the wire's `i64`.
pub open spec fn axis_overflow_error(field: Seq<char>, v: usize) -> ErrorModel {
    ErrorModel::InvalidTensor(field + ": axis length "@ + decimal(v as nat) + " does not fit in i64"@)
}

/// Index of the first extent from `i` on above `i64::MAX`.
pub open spec fn first_oversized(values: Seq<usize>, i: nat) -> Option<nat>
    decreases values.len() - i,
{
    if i >= values.len() {
        None
    } else if values[i as int] > i64::MAX {
        Some(i)
    } else {
        first_oversized(values, i + 1)
    }
}

/// One `usize` extent as the wire's `i64`.
pub fn to_i64(value: usize, field: &str) -> (r: Result<i64, NirError>)
    ensures
        value <= i64::MAX ==> (r matches Ok(v) && v as int == value as int),
        value > i64::MAX ==> (r matches Err(x) && x@ == axis_overflow_error(field@, value)),
{
    if value as u64 > i64::MAX as u64 {
        return Err(
            NirError::InvalidTensor(
                String::from_str(field).concat(": axis length ").concat(usize_text(value).as_str()).concat(
                    " does not fit in i64",
                ),
            ),
        );
    }
    Ok(value as i64)
}

/// A `usize` extent list as the wire's `i64`, or the first extent that does
/// not fit.
pub fn usizes_to_i64s(values: &[usize], field: &str) -> (r: Result<Vec<i64>, NirError>)
    ensures
        match first_oversized(values@, 0) {
            None => r matches Ok(v) && v@.len() == values@.len() && forall|i: int|
                0 <= i < values@.len() ==> v@[i] as int == #[trigger] values@[i] as int,
            Some(k) => r matches Err(x) && x@ == axis_overflow_error(field@, values@[k as int]),
        },
{
    let mut out: Vec<i64> = Vec::new();
    let mut i: usize = 0;
    while i < values.len()
        invariant
            i <= values@.len(),
            out@.len() == i,
            first_oversized(values@, 0) == first_oversized(values@, i as nat),
            forall|j: int| 0 <= j < i ==> out@[j] as int == #[trigger] values@[j] as int,
        decreases values@.len() - i,
    {
        let v = match to_i64(values[i], field) {
            Ok(v) => v,
            Err(e) => return Err(e),
        };
        out.push(v);
        i = i + 1;
    }
    Ok(out)
}

/// Which convolution an extent belongs to, and therefore how it is shaped.
#[derive(Debug, Clone, Copy, PartialEq, Eq)]
pub enum Rank {
    /// `Conv1d`: a bare scalar on the wire.
    One,
    /// `Conv2d`: a length-2 array on the wire.
    Two,
}

/// How a convolution extent is written.
#[derive(Debug, Clone, PartialEq, Eq)]
pub enum ExtentLayout {
    /// A scalar dataset.
    Scalar(i64),
    /// A one-dimensional dataset.
    Array(Vec<i64>),
}

/// The error for a convolution extent list of the wrong arity.
pub open spec fn extent_shape_error(rank: Rank, name: Seq<char>, n: nat) -> ErrorModel {
    ErrorModel::InvalidGraph(
        (match rank {
            Rank::One => "Conv1d"@,
            Rank::Two => "Conv2d"@,
        }) + " "@ + name + " must hold "@ + (match rank {
            Rank::One => "exactly one extent"@,
            Rank::Two => "one or two extents"@,
        }) + ", found "@ + decimal(n) + " values"@,
    )
}

/// Shape a convolution extent the way upstream does: `Conv1d` extents are
/// bare scalars; `Conv2d` extents are always pairs, a single value `s` being
/// the scalar form, written `(s, s)` as Python's `__post_init__` does.
pub fn conv_extent_layout(name: &str, values: &[i64], rank: Rank) -> (r: Result<
    ExtentLayout,
    NirError,
>)
    ensures
        rank == Rank::One && values@.len() == 1 ==> (r matches Ok(ExtentLayout::Scalar(v)) && v
            == values@[0]),
        rank == Rank::Two && values@.len() == 1 ==> (r matches Ok(ExtentLayout::Array(a)) && a@
            == seq![values@[0], values@[0]]),
        rank == Rank::Two && values@.len() == 2 ==> (r matches Ok(ExtentLayout::Array(a)) && a@
            == values@),
        !(values@.len() == 1 || (rank == Rank::Two && values@.len() == 2)) ==> (r matches Err(x)
            && x@ == extent_shape_error(rank, name@, values@.len())),
{
    match rank {
        Rank::One => {
            if values.len() == 1 {
                return Ok(ExtentLayout::Scalar(values[0]));
            }
        },
        Rank::Two => {
            if values.len() == 1 {
                let pair = vec![values[0], values[0]];
                assert(pair@ =~= seq![values@[0], values@[0]]);
                return Ok(ExtentLayout::Array(pair));
            }
            if values.len() == 2 {
                let pair = vec![values[0], values[1]];
                assert(pair@ =~= values@);
                return Ok(ExtentLayout::Array(pair));
            }
        },
    }
    let (node_type, expected) = match rank {
        Rank::One => ("Conv1d", "exactly one extent"),
        Rank::Two => ("Conv2d", "one or two extents"),
    };
    Err(
        NirError::InvalidGraph(
            String::from_str(node_type).concat(" ").concat(name).concat(" must hold ").concat(
                expected,
            ).concat(", found ").concat(usize_text(values.len()).as_str()).concat(" values"),
        ),
    )
}

/// The deflate level a numeric dataset is written with: HDF5 needs a chunked
/// layout for any filter, and neither scalars nor empty arrays can be
/// chunked, so those are stored uncompressed whatever the options say.
pub open spec fn deflate_for(compression: Option<u8>, rank: nat, len: nat) -> Option<u8> {
    if rank > 0 && len > 0 {
        compression
    } else {
        None
    }
}

/// The deflate level a numeric dataset of `rank` dimensions and `len`
/// elements is written with.
pub fn deflate_level(compression: Option<u8>, rank: usize, len: usize) -> (r: Option<u8>)
    ensures
        r == deflate_for(compression, rank as nat, len as nat),
{
    if rank > 0 && len > 0 {
        compression
    } else {
        None
    }
}

/// Extents from index `i` on that fit `i64` convert to wire values that the
/// reader turns back into `usize` without complaint.
proof fn accepted_extents_from(values: Seq<usize>, wire: Seq<i64>, i: nat)
    requires
        first_oversized(values, i) is None,
        wire.len() == values.len(),
        forall|j: int| 0 <= j < values.len() ==> #[trigger] wire[j] as int == values[j] as int,
    ensures
        first_negative(wire, i) is None,
    decreases values.len() - i,
{
    if i < values.len() {
        accepted_extents_from(values, wire, i + 1);
    }
}

/// Extents the writer accepts read back unchanged: each `usize` that fits
/// the wire's `i64` is written as the same number, which the reader accepts
/// and converts back to that `usize`.
pub proof fn accepted_extents_read_back(values: Seq<usize>, wire: Seq<i64>)
    requires
        first_oversized(values, 0) is None,
        wire.len() == values.len(),
        forall|j: int| 0 <= j < values.len() ==> #[trigger] wire[j] as int == values[j] as int,
    ensures
        first_negative(wire, 0) is None,
        forall|j: int| 0 <= j < values.len() ==> #[trigger] (wire[j] as usize) == values[j],
{
    accepted_extents_from(values, wire, 0);
}

} // verus!

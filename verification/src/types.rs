//! Shared value types for NIR tensors and metadata.

use vstd::prelude::*;
use crate::text::same_text;
use crate::error::{ErrorModel, NirError};
use crate::text::{decimal, usize_list, usize_list_text, usize_text};

verus! {

/// Element type of a contiguous tensor buffer.
#[derive(Debug, Clone, Copy, PartialEq, Eq, Hash)]
pub enum DType {
    /// 32-bit IEEE floating point.
    F32,
    /// 64-bit IEEE floating point.
    F64,
    /// 64-bit signed integer.
    I64,
    /// Boolean.
    Bool,
}

/// Width in bytes of one element of `dtype`.
pub open spec fn dtype_width(dtype: DType) -> nat {
    match dtype {
        DType::F32 => 4,
        DType::F64 => 8,
        DType::I64 => 8,
        DType::Bool => 1,
    }
}

impl DType {
    /// Size of one element in bytes.
    pub fn size_of(self) -> (n: usize)
        ensures
            n == dtype_width(self),
    {
        match self {
            DType::F32 => 4,
            DType::F64 => 8,
            DType::I64 => 8,
            DType::Bool => 1,
        }
    }
}

/// Contiguous payload backing a [`Tensor`].
///
/// Floating-point elements are held by their IEEE-754 bit patterns
/// (`f32::to_bits` / `f64::to_bits`), so the payload is carried exactly and
/// the shape logic never interprets a float.
#[derive(Debug, PartialEq)]
pub enum TensorData {
    /// `f32` elements, as IEEE-754 single-precision bit patterns.
    F32(Vec<u32>),
    /// `f64` elements, as IEEE-754 double-precision bit patterns.
    F64(Vec<u64>),
    /// `i64` elements.
    I64(Vec<i64>),
    /// `bool` elements.
    Bool(Vec<bool>),
}

/// Mathematical model of a [`TensorData`] payload.
pub ghost enum TensorModel {
    F32(Seq<u32>),
    F64(Seq<u64>),
    I64(Seq<i64>),
    Bool(Seq<bool>),
}

impl TensorModel {
    /// Number of elements.
    pub open spec fn len(self) -> nat {
        match self {
            TensorModel::F32(v) => v.len(),
            TensorModel::F64(v) => v.len(),
            TensorModel::I64(v) => v.len(),
            TensorModel::Bool(v) => v.len(),
        }
    }

    /// Element dtype.
    pub open spec fn dtype(self) -> DType {
        match self {
            TensorModel::F32(_) => DType::F32,
            TensorModel::F64(_) => DType::F64,
            TensorModel::I64(_) => DType::I64,
            TensorModel::Bool(_) => DType::Bool,
        }
    }
}

impl View for TensorData {
    type V = TensorModel;

    open spec fn view(&self) -> TensorModel {
        match self {
            TensorData::F32(v) => TensorModel::F32(v@),
            TensorData::F64(v) => TensorModel::F64(v@),
            TensorData::I64(v) => TensorModel::I64(v@),
            TensorData::Bool(v) => TensorModel::Bool(v@),
        }
    }
}

impl TensorData {
    /// Number of elements.
    pub fn len(&self) -> (n: usize)
        ensures
            n == self@.len(),
    {
        match self {
            TensorData::F32(v) => v.len(),
            TensorData::F64(v) => v.len(),
            TensorData::I64(v) => v.len(),
            TensorData::Bool(v) => v.len(),
        }
    }

    /// Whether the buffer is empty.
    pub fn is_empty(&self) -> (b: bool)
        ensures
            b == (self@.len() == 0),
    {
        self.len() == 0
    }

    /// Element dtype of this payload.
    pub fn dtype(&self) -> (d: DType)
        ensures
            d == self@.dtype(),
    {
        match self {
            TensorData::F32(_) => DType::F32,
            TensorData::F64(_) => DType::F64,
            TensorData::I64(_) => DType::I64,
            TensorData::Bool(_) => DType::Bool,
        }
    }
}

impl Clone for TensorData {
    fn clone(&self) -> (c: Self)
        ensures
            c@ == self@,
    {
        match self {
            TensorData::F32(v) => TensorData::F32(v.clone()),
            TensorData::F64(v) => TensorData::F64(v.clone()),
            TensorData::I64(v) => TensorData::I64(v.clone()),
            TensorData::Bool(v) => TensorData::Bool(v.clone()),
        }
    }
}

/// Product of all axis lengths; the empty shape (a scalar) has one element.
pub open spec fn shape_product(shape: Seq<usize>) -> nat
    decreases shape.len(),
{
    if shape.len() == 0 {
        1
    } else {
        shape_product(shape.drop_last()) * (shape.last() as nat)
    }
}

/// The product of `shape` computed left to right with overflow checking:
/// [`None`] as soon as a running product leaves `usize`.
pub open spec fn checked_shape_product(shape: Seq<usize>) -> Option<nat>
    decreases shape.len(),
{
    if shape.len() == 0 {
        Some(1)
    } else {
        match checked_shape_product(shape.drop_last()) {
            Some(p) => if p * (shape.last() as nat) <= usize::MAX {
                Some(p * (shape.last() as nat))
            } else {
                None
            },
            None => None,
        }
    }
}

/// When the checked product succeeds it is the true product.
pub proof fn checked_product_is_product(shape: Seq<usize>)
    ensures
        checked_shape_product(shape) matches Some(p) ==> p == shape_product(shape),
    decreases shape.len(),
{
    if shape.len() > 0 {
        checked_product_is_product(shape.drop_last());
    }
}

/// Product of shape dims; `None` if a running product overflows `usize`.
fn checked_product(shape: &[usize]) -> (r: Option<usize>)
    ensures
        match r {
            Some(p) => checked_shape_product(shape@) == Some(p as nat),
            None => checked_shape_product(shape@) is None,
        },
{
    let mut acc: usize = 1;
    let mut i: usize = 0;
    while i < shape.len()
        invariant
            i <= shape@.len(),
            checked_shape_product(shape@.take(i as int)) == Some(acc as nat),
        decreases shape@.len() - i,
    {
        assert(shape@.take(i + 1).drop_last() =~= shape@.take(i as int));
        let d = shape[i];
        if d != 0 && acc > usize::MAX / d {
            proof {
                assert(acc * d > usize::MAX) by (nonlinear_arith)
                    requires d != 0, acc > usize::MAX / d;
                let_none_stays_none(shape@, (i + 1) as nat);
            }
            return None;
        }
        proof {
            assert(acc * d <= usize::MAX) by (nonlinear_arith)
                requires d == 0 || acc <= usize::MAX / d;
        }
        acc = acc * d;
        i = i + 1;
    }
    assert(shape@.take(shape@.len() as int) =~= shape@);
    Some(acc)
}

/// Once a prefix overflows, every longer prefix does too.
proof fn let_none_stays_none(shape: Seq<usize>, k: nat)
    requires
        k <= shape.len(),
        checked_shape_product(shape.take(k as int)) is None,
    ensures
        checked_shape_product(shape) is None,
    decreases shape.len() - k,
{
    if k < shape.len() {
        assert(shape.take((k + 1) as int).drop_last() =~= shape.take(k as int));
        let_none_stays_none(shape, k + 1);
    } else {
        assert(shape.take(k as int) =~= shape);
    }
}

/// Message for a shape whose element count overflows `usize`.
pub open spec fn overflow_text(shape: Seq<usize>) -> Seq<char> {
    "shape product overflows usize (shape="@ + usize_list_text(shape) + ")"@
}

/// Message for a shape whose element count differs from the payload length.
pub open spec fn mismatch_text(expected: nat, len: nat, shape: Seq<usize>) -> Seq<char> {
    "shape product "@ + decimal(expected) + " != data len "@ + decimal(len) + " (shape="@
        + usize_list_text(shape) + ")"@
}

/// The outcome of checking `shape` against a payload of `len` elements.
pub open spec fn shape_len_check(shape: Seq<usize>, len: nat) -> Result<(), ErrorModel> {
    match checked_shape_product(shape) {
        None => Err(ErrorModel::InvalidTensor(overflow_text(shape))),
        Some(p) => if p == len {
            Ok(())
        } else {
            Err(ErrorModel::InvalidTensor(mismatch_text(p, len, shape)))
        },
    }
}

fn check_shape_len(shape: &[usize], len: usize) -> (r: Result<(), NirError>)
    ensures
        crate::error::checked_view(r) == shape_len_check(shape@, len as nat),
{
    match checked_product(shape) {
        None => Err(NirError::InvalidTensor(
            String::from_str("shape product overflows usize (shape=")
                .concat(usize_list(shape).as_str()).concat(")"),
        )),
        Some(expected) => if expected != len {
            Err(NirError::InvalidTensor(
                String::from_str("shape product ").concat(usize_text(expected).as_str())
                    .concat(" != data len ").concat(usize_text(len).as_str())
                    .concat(" (shape=").concat(usize_list(shape).as_str()).concat(")"),
            ))
        } else {
            Ok(())
        },
    }
}

/// Dense, row-major tensor (shape + contiguous typed data).
///
/// Shape is listed outer-to-inner (C-order). Element dtype is always derived
/// from the payload. Shape and data are private so the product of the shape
/// always equals the payload length.
#[derive(Debug, PartialEq)]
pub struct Tensor {
    shape: Vec<usize>,
    data: TensorData,
}

impl Tensor {
    /// Axis lengths.
    pub closed spec fn shape_view(&self) -> Seq<usize> {
        self.shape@
    }

    /// Payload.
    pub closed spec fn data_view(&self) -> TensorModel {
        self.data@
    }

    /// The element count of a tensor is the product of its shape, and the
    /// product did not overflow.
    #[verifier::type_invariant]
    closed spec fn wf(self) -> bool {
        checked_shape_product(self.shape@) == Some(self.data@.len())
    }

    /// Build a tensor from shape and typed data, checking length against shape.
    pub fn new(shape: Vec<usize>, data: TensorData) -> (r: Result<Tensor, NirError>)
        ensures
            match shape_len_check(shape@, data@.len()) {
                Ok(()) => r matches Ok(t) && t.shape_view() == shape@ && t.data_view() == data@,
                Err(e) => r matches Err(err) && err@ == e,
            },
    {
        match check_shape_len(shape.as_slice(), data.len()) {
            Ok(()) => Ok(Tensor { shape, data }),
            Err(e) => Err(e),
        }
    }

    /// Element dtype of this tensor (derived from the payload).
    pub fn dtype(&self) -> (d: DType)
        ensures
            d == self.data_view().dtype(),
    {
        self.data.dtype()
    }

    /// Axis lengths (outer-to-inner / C-order).
    pub fn shape(&self) -> (s: &[usize])
        ensures
            s@ == self.shape_view(),
    {
        self.shape.as_slice()
    }

    /// Contiguous payload.
    pub fn data(&self) -> (d: &TensorData)
        ensures
            d@ == self.data_view(),
    {
        &self.data
    }

    /// Take the payload, consuming the tensor.
    pub fn into_data(self) -> (d: TensorData)
        ensures
            d@ == self.data_view(),
    {
        self.data
    }

    /// `f32` tensor from IEEE-754 bit patterns; `data.len()` must equal the
    /// product of `shape`.
    pub fn from_f32_bits(shape: Vec<usize>, data: Vec<u32>) -> (r: Result<Tensor, NirError>)
        ensures
            match shape_len_check(shape@, data@.len()) {
                Ok(()) => r matches Ok(t) && t.shape_view() == shape@
                    && t.data_view() == TensorModel::F32(data@),
                Err(e) => r matches Err(err) && err@ == e,
            },
    {
        Tensor::new(shape, TensorData::F32(data))
    }

    /// `f64` tensor from IEEE-754 bit patterns; `data.len()` must equal the
    /// product of `shape`.
    pub fn from_f64_bits(shape: Vec<usize>, data: Vec<u64>) -> (r: Result<Tensor, NirError>)
        ensures
            match shape_len_check(shape@, data@.len()) {
                Ok(()) => r matches Ok(t) && t.shape_view() == shape@
                    && t.data_view() == TensorModel::F64(data@),
                Err(e) => r matches Err(err) && err@ == e,
            },
    {
        Tensor::new(shape, TensorData::F64(data))
    }

    /// `i64` tensor; `data.len()` must equal the product of `shape`.
    pub fn from_i64(shape: Vec<usize>, data: Vec<i64>) -> (r: Result<Tensor, NirError>)
        ensures
            match shape_len_check(shape@, data@.len()) {
                Ok(()) => r matches Ok(t) && t.shape_view() == shape@
                    && t.data_view() == TensorModel::I64(data@),
                Err(e) => r matches Err(err) && err@ == e,
            },
    {
        Tensor::new(shape, TensorData::I64(data))
    }

    /// `bool` tensor; `data.len()` must equal the product of `shape`.
    pub fn from_bool(shape: Vec<usize>, data: Vec<bool>) -> (r: Result<Tensor, NirError>)
        ensures
            match shape_len_check(shape@, data@.len()) {
                Ok(()) => r matches Ok(t) && t.shape_view() == shape@
                    && t.data_view() == TensorModel::Bool(data@),
                Err(e) => r matches Err(err) && err@ == e,
            },
    {
        Tensor::new(shape, TensorData::Bool(data))
    }

    /// Rank-0 (scalar) `f32` tensor from an IEEE-754 bit pattern.
    pub fn scalar_f32_bits(bits: u32) -> (t: Tensor)
        ensures
            t.shape_view() == Seq::<usize>::empty(),
            t.data_view() == TensorModel::F32(seq![bits]),
    {
        let v = vec![bits];
        assert(v@ =~= seq![bits]);
        let t = Tensor { shape: Vec::new(), data: TensorData::F32(v) };
        t
    }

    /// Rank-0 (scalar) `f64` tensor from an IEEE-754 bit pattern.
    pub fn scalar_f64_bits(bits: u64) -> (t: Tensor)
        ensures
            t.shape_view() == Seq::<usize>::empty(),
            t.data_view() == TensorModel::F64(seq![bits]),
    {
        let v = vec![bits];
        assert(v@ =~= seq![bits]);
        let t = Tensor { shape: Vec::new(), data: TensorData::F64(v) };
        t
    }

    /// Rank-0 (scalar) `i64` tensor.
    pub fn scalar_i64(value: i64) -> (t: Tensor)
        ensures
            t.shape_view() == Seq::<usize>::empty(),
            t.data_view() == TensorModel::I64(seq![value]),
    {
        let v = vec![value];
        assert(v@ =~= seq![value]);
        let t = Tensor { shape: Vec::new(), data: TensorData::I64(v) };
        t
    }

    /// A tensor of zeros with the same shape and dtype as `self`.
    ///
    /// `false` for booleans; `+0.0` for floats.
    pub fn zeros_like(&self) -> (z: Tensor)
        ensures
            z.shape_view() == self.shape_view(),
            is_filled(z.data_view(), self.data_view().dtype(), self.data_view().len(), false),
            z.data_view().dtype() == self.data_view().dtype(),
            z.data_view().len() == self.data_view().len(),
            all_zero(z.data_view()),
    {
        proof { use_type_invariant(self); }
        let n = self.data.len();
        let data = match self.dtype() {
            DType::F32 => TensorData::F32(vec_of(n, 0u32)),
            DType::F64 => TensorData::F64(vec_of(n, 0u64)),
            DType::I64 => TensorData::I64(vec_of(n, 0i64)),
            DType::Bool => TensorData::Bool(vec_of(n, false)),
        };
        Tensor { shape: self.shape.clone(), data }
    }

    /// A tensor of ones with the same shape and dtype as `self`.
    ///
    /// `true` for booleans; `1.0` for floats.
    pub fn ones_like(&self) -> (o: Tensor)
        ensures
            o.shape_view() == self.shape_view(),
            is_filled(o.data_view(), self.data_view().dtype(), self.data_view().len(), true),
            o.data_view().dtype() == self.data_view().dtype(),
            o.data_view().len() == self.data_view().len(),
            all_one(o.data_view()),
    {
        proof { use_type_invariant(self); }
        let n = self.data.len();
        let data = match self.dtype() {
            DType::F32 => TensorData::F32(vec_of(n, F32_ONE_BITS)),
            DType::F64 => TensorData::F64(vec_of(n, F64_ONE_BITS)),
            DType::I64 => TensorData::I64(vec_of(n, 1i64)),
            DType::Bool => TensorData::Bool(vec_of(n, true)),
        };
        Tensor { shape: self.shape.clone(), data }
    }

    /// Number of elements implied by `shape` (empty shape: 1).
    pub fn numel(&self) -> (n: usize)
        ensures
            n == shape_product(self.shape_view()),
            n == self.data_view().len(),
    {
        proof {
            use_type_invariant(self);
            checked_product_is_product(self.shape@);
        }
        self.data.len()
    }

    /// Number of dimensions.
    pub fn ndim(&self) -> (n: usize)
        ensures
            n == self.shape_view().len(),
    {
        self.shape.len()
    }
}

impl Clone for Tensor {
    fn clone(&self) -> (c: Self)
        ensures
            c.shape_view() == self.shape_view(),
            c.data_view() == self.data_view(),
    {
        proof { use_type_invariant(self); }
        Tensor { shape: self.shape.clone(), data: self.data.clone() }
    }
}

/// IEEE-754 bit pattern of `1.0f32`.
pub const F32_ONE_BITS: u32 = 0x3f80_0000u32;

/// IEEE-754 bit pattern of `1.0f64`.
pub const F64_ONE_BITS: u64 = 0x3ff0_0000_0000_0000u64;

/// Whether `d` is a payload of `dtype` holding `len` zeros (`one == false`)
/// or ones (`one == true`).
pub open spec fn is_filled(d: TensorModel, dtype: DType, len: nat, one: bool) -> bool {
    &&& d.dtype() == dtype
    &&& match d {
        TensorModel::F32(v) => v == Seq::new(len, |i: int| if one { F32_ONE_BITS } else { 0u32 }),
        TensorModel::F64(v) => v == Seq::new(len, |i: int| if one { F64_ONE_BITS } else { 0u64 }),
        TensorModel::I64(v) => v == Seq::new(len, |i: int| if one { 1i64 } else { 0i64 }),
        TensorModel::Bool(v) => v == Seq::new(len, |i: int| one),
    }
}

/// Every element is the zero of its dtype: all bits clear (`+0.0`) for
/// floats, `0` for integers, `false` for booleans.
pub open spec fn all_zero(d: TensorModel) -> bool {
    match d {
        TensorModel::F32(v) => forall|i: int| 0 <= i < v.len() ==> #[trigger] v[i] == 0u32,
        TensorModel::F64(v) => forall|i: int| 0 <= i < v.len() ==> #[trigger] v[i] == 0u64,
        TensorModel::I64(v) => forall|i: int| 0 <= i < v.len() ==> #[trigger] v[i] == 0i64,
        TensorModel::Bool(v) => forall|i: int| 0 <= i < v.len() ==> #[trigger] v[i] == false,
    }
}

/// Every element is the one of its dtype: the IEEE-754 bits of `1.0` for
/// floats, `1` for integers, `true` for booleans.
pub open spec fn all_one(d: TensorModel) -> bool {
    match d {
        TensorModel::F32(v) => forall|i: int| 0 <= i < v.len() ==> #[trigger] v[i] == 0x3f80_0000u32,
        TensorModel::F64(v) => forall|i: int|
            0 <= i < v.len() ==> #[trigger] v[i] == 0x3ff0_0000_0000_0000u64,
        TensorModel::I64(v) => forall|i: int| 0 <= i < v.len() ==> #[trigger] v[i] == 1i64,
        TensorModel::Bool(v) => forall|i: int| 0 <= i < v.len() ==> #[trigger] v[i] == true,
    }
}

/// A zero fill of `len` elements of `dtype` holds exactly `len` elements of
/// that dtype, each the zero of the dtype (`+0.0` for floats); a one fill
/// holds `1` (`1.0` for floats, `true` for booleans) in every element.
pub proof fn fills_hold_zeros_and_ones(d: TensorModel, dtype: DType, len: nat, one: bool)
    requires
        is_filled(d, dtype, len, one),
    ensures
        d.dtype() == dtype,
        d.len() == len,
        !one ==> all_zero(d),
        one ==> all_one(d),
{
}

/// A vector of `n` copies of `x`.
fn vec_of<T: Copy>(n: usize, x: T) -> (v: Vec<T>)
    ensures
        v@ == Seq::new(n as nat, |i: int| x),
{
    let mut v: Vec<T> = Vec::new();
    let mut i: usize = 0;
    while i < n
        invariant
            i <= n,
            v@ == Seq::new(i as nat, |j: int| x),
        decreases n - i,
    {
        v.push(x);
        i = i + 1;
        assert(v@ =~= Seq::new(i as nat, |j: int| x));
    }
    v
}

/// Free-form metadata values attached to graphs and nodes.
#[derive(Debug, Clone, PartialEq)]
#[non_exhaustive]
pub enum MetadataValue {
    /// UTF-8 string.
    String(String),
    /// List of UTF-8 strings (a Python `list[str]`).
    StringList(Vec<String>),
    /// 64-bit float, as its IEEE-754 bit pattern.
    F64(u64),
    /// 64-bit signed integer.
    I64(i64),
    /// Boolean.
    Bool(bool),
    /// Dense tensor.
    Tensor(Tensor),
}

/// Position of the first entry keyed `key` in `entries`, or `-1`.
pub open spec fn key_position(entries: Seq<(Seq<char>, MetadataValue)>, key: Seq<char>) -> int
    decreases entries.len(),
{
    if entries.len() == 0 {
        -1
    } else if entries.last().0 == key && key_position(entries.drop_last(), key) < 0 {
        entries.len() - 1
    } else {
        key_position(entries.drop_last(), key)
    }
}

/// No key occurs twice in `entries`.
pub open spec fn distinct_keys(entries: Seq<(Seq<char>, MetadataValue)>) -> bool {
    forall|i: int, j: int|
        0 <= i < j < entries.len() ==> #[trigger] entries[i].0 != #[trigger] entries[j].0
}

/// `key_position` finds the entry keyed `key`, and only that one.
pub proof fn key_position_spec(entries: Seq<(Seq<char>, MetadataValue)>, key: Seq<char>)
    ensures
        -1 <= key_position(entries, key) < entries.len(),
        key_position(entries, key) >= 0 ==> entries[key_position(entries, key)].0 == key,
        key_position(entries, key) < 0 ==> forall|i: int|
            0 <= i < entries.len() ==> #[trigger] entries[i].0 != key,
        key_position(entries, key) >= 0 ==> forall|i: int|
            0 <= i < key_position(entries, key) ==> #[trigger] entries[i].0 != key,
    decreases entries.len(),
{
    if entries.len() > 0 {
        let rest = entries.drop_last();
        key_position_spec(rest, key);
        assert forall|i: int| 0 <= i < rest.len() implies #[trigger] rest[i] == entries[i] by {}
        if key_position(rest, key) < 0 {
            assert forall|i: int| 0 <= i < rest.len() implies #[trigger] entries[i].0 != key by {
                assert(rest[i] == entries[i]);
            }
        } else {
            assert forall|i: int| 0 <= i < key_position(rest, key) implies #[trigger] entries[i].0
                != key by {
                assert(rest[i] == entries[i]);
            }
        }
    }
}

/// The entries after setting `key` to `value`: an existing key keeps its
/// position, a new one is appended.
pub open spec fn set_entry(entries: Seq<(Seq<char>, MetadataValue)>, key: Seq<char>, value: MetadataValue) -> Seq<(Seq<char>, MetadataValue)> {
    if key_position(entries, key) < 0 {
        entries.push((key, value))
    } else {
        entries.update(key_position(entries, key), (key, value))
    }
}

/// After setting `key` to `value`, `key` reads back `value`, keys stay
/// distinct, and every other key reads back what it read before.
pub proof fn set_then_get(
    entries: Seq<(Seq<char>, MetadataValue)>,
    key: Seq<char>,
    value: MetadataValue,
    other: Seq<char>,
)
    requires
        distinct_keys(entries),
    ensures
        key_position(set_entry(entries, key, value), key) >= 0,
        set_entry(entries, key, value)[key_position(set_entry(entries, key, value), key)].1 == value,
        distinct_keys(set_entry(entries, key, value)),
        other != key ==> key_position(set_entry(entries, key, value), other) == key_position(
            entries,
            other,
        ),
        other != key && key_position(entries, other) >= 0 ==> set_entry(entries, key, value)[key_position(
            entries,
            other,
        )].1 == entries[key_position(entries, other)].1,
{
    let after = set_entry(entries, key, value);
    key_position_spec(entries, key);
    key_position_spec(entries, other);
    key_position_spec(after, key);
    key_position_spec(after, other);
    let p = key_position(entries, key);
    assert(after.len() >= entries.len());
    assert forall|i: int| 0 <= i < entries.len() && i != p implies #[trigger] after[i] == entries[i] by {}
    assert(distinct_keys(after)) by {
        assert forall|i: int, j: int| 0 <= i < j < after.len() implies #[trigger] after[i].0
            != #[trigger] after[j].0 by {
            if p < 0 && j == entries.len() {
                assert(entries[i].0 != key);
            }
        }
    }
    let q = key_position(after, key);
    if p < 0 {
        assert(after[entries.len() as int].0 == key);
        if q < 0 {
            assert(after[entries.len() as int].0 != key);
        } else if q < entries.len() {
            assert(after[q] == entries[q]);
            assert(entries[q].0 != key);
        }
    } else {
        assert(after[p].0 == key);
        if q < 0 {
            assert(after[p].0 != key);
        } else if q < p {
            assert(after[q] == entries[q]);
            assert(entries[q].0 != key);
        } else if q > p {
            assert(after[p].0 != key);
        }
    }
    if other != key {
        let o = key_position(entries, other);
        let o2 = key_position(after, other);
        if o >= 0 {
            assert(after[o] == entries[o]);
            if o2 < 0 {
                assert(after[o].0 == other);
            } else if o2 < o {
                assert(after[o2] == entries[o2]);
            } else if o2 > o {
                assert(after[o].0 == other);
            }
        } else {
            if o2 >= 0 {
                if o2 < entries.len() && o2 != p {
                    assert(after[o2] == entries[o2]);
                }
            }
        }
    }
}

/// Free-form metadata map (Python NIR `metadata: Dict[str, Any]`).
///
/// Each key occurs at most once. Entries are kept in the order their keys were
/// first inserted; that order carries no meaning for the format.
#[derive(Debug, PartialEq)]
pub struct MetadataMap {
    entries: Vec<(String, MetadataValue)>,
}

impl View for MetadataMap {
    type V = Seq<(Seq<char>, MetadataValue)>;

    closed spec fn view(&self) -> Seq<(Seq<char>, MetadataValue)> {
        self.entries@.map_values(|e: (String, MetadataValue)| (e.0@, e.1))
    }
}

impl MetadataMap {
    #[verifier::type_invariant]
    closed spec fn keys_distinct(self) -> bool {
        distinct_keys(self@)
    }

    /// An empty map.
    pub fn new() -> (m: MetadataMap)
        ensures
            m@ == Seq::<(Seq<char>, MetadataValue)>::empty(),
    {
        let m = MetadataMap { entries: Vec::new() };
        assert(m@ =~= Seq::<(Seq<char>, MetadataValue)>::empty());
        m
    }

    /// Number of entries.
    pub fn len(&self) -> (n: usize)
        ensures
            n == self@.len(),
    {
        self.entries.len()
    }

    /// Whether the map has no entries.
    pub fn is_empty(&self) -> (b: bool)
        ensures
            b == (self@.len() == 0),
    {
        self.entries.len() == 0
    }

    /// The `i`-th entry, in insertion order.
    pub fn get_index(&self, i: usize) -> (r: Option<(&String, &MetadataValue)>)
        ensures
            i < self@.len() ==> r is Some && r.unwrap().0@ == self@[i as int].0 && *r.unwrap().1
                == self@[i as int].1,
            i >= self@.len() ==> r is None,
    {
        if i < self.entries.len() {
            let e = &self.entries[i];
            Some((&e.0, &e.1))
        } else {
            None
        }
    }

    /// Index of the entry keyed `key`.
    fn find(&self, key: &str) -> (r: Option<usize>)
        ensures
            match r {
                Some(i) => i < self@.len() && key_position(self@, key@) == i,
                None => key_position(self@, key@) < 0,
            },
    {
        proof {
            use_type_invariant(self);
            key_position_spec(self@, key@);
        }
        let mut i: usize = 0;
        while i < self.entries.len()
            invariant
                i <= self@.len(),
                self@.len() == self.entries@.len(),
                distinct_keys(self@),
                -1 <= key_position(self@, key@) < self@.len(),
                key_position(self@, key@) >= 0 ==> self@[key_position(self@, key@)].0 == key@,
                key_position(self@, key@) >= 0 ==> forall|k: int|
                    0 <= k < key_position(self@, key@) ==> #[trigger] self@[k].0 != key@,
                key_position(self@, key@) < 0 ==> forall|k: int|
                    0 <= k < self@.len() ==> #[trigger] self@[k].0 != key@,
                forall|k: int| 0 <= k < i ==> #[trigger] self@[k].0 != key@,
            decreases self@.len() - i,
        {
            assert(self@[i as int].0 == self.entries@[i as int].0@);
            if same_text(self.entries[i].0.as_str(), key) {
                proof {
                    let pos = key_position(self@, key@);
                    if pos < 0 {
                        assert(self@[i as int].0 != key@);
                    } else if pos < i {
                        assert(self@[pos].0 != key@);
                    } else if pos > i {
                        assert(self@[i as int].0 != key@);
                    }
                }
                return Some(i);
            }
            i = i + 1;
        }
        None
    }

    /// Whether an entry is keyed `key`.
    pub fn contains_key(&self, key: &str) -> (b: bool)
        ensures
            b == (key_position(self@, key@) >= 0),
    {
        self.find(key).is_some()
    }

    /// The value keyed `key`.
    pub fn get(&self, key: &str) -> (r: Option<&MetadataValue>)
        ensures
            match r {
                Some(v) => key_position(self@, key@) >= 0 && *v == self@[key_position(self@, key@)].1,
                None => key_position(self@, key@) < 0,
            },
    {
        match self.find(key) {
            Some(i) => Some(&self.entries[i].1),
            None => None,
        }
    }

    /// Set `key` to `value`, returning the value it replaces.
    ///
    /// A new key is appended; an existing key keeps its position.
    pub fn insert(&mut self, key: String, value: MetadataValue) -> (r: Option<MetadataValue>)
        ensures
            ({
                let pos = key_position(old(self)@, key@);
                &&& final(self)@ == set_entry(old(self)@, key@, value)
                &&& if pos < 0 {
                    r is None
                } else {
                    r == Some(old(self)@[pos].1)
                }
            }),
    {
        proof {
            use_type_invariant(&*self);
        }
        let ghost before = self@;
        let found = self.find(key.as_str());
        let mut entries: Vec<(String, MetadataValue)> = Vec::new();
        std::mem::swap(&mut entries, &mut self.entries);
        assert(entries@.map_values(|e: (String, MetadataValue)| (e.0@, e.1)) == before);
        match found {
            Some(i) => {
                let ghost ev = entries@;
                let ghost kv = key@;
                proof {
                    key_position_spec(before, kv);
                }
                let old_entry = entries.remove(i);
                entries.insert(i, (key, value));
                let ghost after = entries@.map_values(|e: (String, MetadataValue)| (e.0@, e.1));
                assert(entries@.len() == ev.len());
                assert forall|k: int| 0 <= k < after.len() && k != i implies #[trigger] after[k]
                    == before[k] by {
                    assert(entries@[k] == ev[k]);
                }
                assert(after[i as int] == (kv, value));
                assert(kv == before[i as int].0);
                assert(after =~= before.update(i as int, (before[i as int].0, value)));
                assert(distinct_keys(after)) by {
                    assert forall|a: int, b: int| 0 <= a < b < after.len() implies #[trigger] after[a].0
                        != #[trigger] after[b].0 by {
                        assert(after[a].0 == before[a].0);
                        assert(after[b].0 == before[b].0);
                    }
                }
                self.entries = entries;
                Some(old_entry.1)
            },
            None => {
                proof {
                    key_position_spec(before, key@);
                }
                entries.push((key, value));
                let ghost after = entries@.map_values(|e: (String, MetadataValue)| (e.0@, e.1));
                assert(after =~= before.push((key@, value)));
                assert(distinct_keys(after)) by {
                    assert forall|a: int, b: int| 0 <= a < b < after.len() implies #[trigger] after[a].0
                        != #[trigger] after[b].0 by {
                        if b == before.len() {
                            assert(before[a].0 != key@);
                        }
                    }
                }
                self.entries = entries;
                None
            },
        }
    }
}

impl Default for MetadataMap {
    fn default() -> (m: Self)
        ensures
            m@ == Seq::<(Seq<char>, MetadataValue)>::empty(),
    {
        MetadataMap::new()
    }
}

impl Clone for MetadataMap {
    /// A copy with the same keys, in the same order; values are copied with
    /// their own `clone`.
    fn clone(&self) -> (c: Self)
        ensures
            c@.len() == self@.len(),
            forall|i: int| 0 <= i < self@.len() ==> #[trigger] c@[i].0 == self@[i].0,
    {
        proof {
            use_type_invariant(self);
        }
        let mut entries: Vec<(String, MetadataValue)> = Vec::new();
        let mut i: usize = 0;
        while i < self.entries.len()
            invariant
                i <= self.entries@.len(),
                entries@.len() == i,
                self@.len() == self.entries@.len(),
                distinct_keys(self@),
                forall|k: int| 0 <= k < i ==> #[trigger] entries@[k].0@ == self@[k].0,
            decreases self.entries@.len() - i,
        {
            let e = &self.entries[i];
            assert(e.0@ == self@[i as int].0);
            entries.push((e.0.clone(), e.1.clone()));
            i = i + 1;
        }
        let c = MetadataMap { entries };
        assert forall|a: int, b: int| 0 <= a < b < c@.len() implies #[trigger] c@[a].0
            != #[trigger] c@[b].0 by {
            assert(c@[a].0 == self@[a].0);
            assert(c@[b].0 == self@[b].0);
        }
        c
    }
}

} // verus!

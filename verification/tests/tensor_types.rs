//! Tensors and metadata values.

use nir_rs::{DType, MetadataValue, NirError, Tensor, TensorData};

fn from_f32(shape: Vec<usize>, data: Vec<f32>) -> Result<Tensor, NirError> {
    Tensor::from_f32_bits(shape, data.iter().map(|x| x.to_bits()).collect())
}

fn from_f64(shape: Vec<usize>, data: Vec<f64>) -> Result<Tensor, NirError> {
    Tensor::from_f64_bits(shape, data.iter().map(|x| x.to_bits()).collect())
}

fn f32_data(data: Vec<f32>) -> TensorData {
    TensorData::F32(data.iter().map(|x| x.to_bits()).collect())
}

fn f64_data(data: Vec<f64>) -> TensorData {
    TensorData::F64(data.iter().map(|x| x.to_bits()).collect())
}

#[test]
fn from_f32_ok() {
    let t = from_f32(vec![2, 3], vec![1., 2., 3., 4., 5., 6.]).unwrap();
    assert_eq!(t.dtype(), DType::F32);
    assert_eq!(t.numel(), 6);
    assert_eq!(t.ndim(), 2);
}

#[test]
fn from_f64_ok() {
    let t = from_f64(vec![2], vec![1.0, 2.0]).unwrap();
    assert_eq!(t.dtype(), DType::F64);
    assert_eq!(t.numel(), 2);
}

#[test]
fn length_mismatch_f32() {
    let err = from_f32(vec![2, 2], vec![1., 2., 3.]).unwrap_err();
    assert!(matches!(err, NirError::InvalidTensor(_)));
    assert!(err.message().contains("shape product 4 != data len 3"));
}

#[test]
fn length_mismatch_f64() {
    let err = from_f64(vec![3], vec![1.0]).unwrap_err();
    assert!(matches!(err, NirError::InvalidTensor(_)));
}

#[test]
fn scalar_has_empty_shape_one_element() {
    let t = Tensor::scalar_f64_bits(0.5f64.to_bits());
    assert!(t.shape().is_empty());
    assert_eq!(t.numel(), 1);
    assert_eq!(t.data().len(), 1);
}

#[test]
fn empty_shape_rejects_wrong_len() {
    let err = from_f32(Vec::<usize>::new(), vec![1., 2.]).unwrap_err();
    assert!(matches!(err, NirError::InvalidTensor(_)));
}

#[test]
fn i64_and_bool_constructors() {
    let i = Tensor::from_i64(vec![2], vec![1, 2]).unwrap();
    assert_eq!(i.dtype(), DType::I64);
    let b = Tensor::from_bool(vec![2], vec![true, false]).unwrap();
    assert_eq!(b.dtype(), DType::Bool);
}

#[test]
fn dtype_size_of() {
    assert_eq!(DType::F32.size_of(), 4);
    assert_eq!(DType::F64.size_of(), 8);
    assert_eq!(DType::I64.size_of(), 8);
    assert_eq!(DType::Bool.size_of(), 1);
}

#[test]
fn shape_product_overflow_rejected() {
    let err = from_f32(vec![usize::MAX, usize::MAX], vec![1.0]).unwrap_err();
    assert!(matches!(err, NirError::InvalidTensor(_)));
    assert!(err.message().contains("overflows"));
}

#[test]
fn zeros_like_preserves_shape_and_dtype() {
    let t = from_f32(vec![2, 2], vec![1., 2., 3., 4.]).unwrap();
    let z = t.zeros_like();
    assert_eq!(z.shape(), t.shape());
    assert_eq!(z.dtype(), DType::F32);
    assert_eq!(z.data(), &f32_data(vec![0.0; 4]));
}

#[test]
fn ones_like_preserves_shape_and_dtype() {
    let t = from_f64(vec![3], vec![7.0, 8.0, 9.0]).unwrap();
    let o = t.ones_like();
    assert_eq!(o.shape(), [3]);
    assert_eq!(o.data(), &f64_data(vec![1.0; 3]));
}

#[test]
fn zeros_and_ones_like_cover_int_and_bool() {
    let i = Tensor::from_i64(vec![2], vec![5, 6]).unwrap();
    assert_eq!(i.zeros_like().data(), &TensorData::I64(vec![0, 0]));
    assert_eq!(i.ones_like().data(), &TensorData::I64(vec![1, 1]));

    let b = Tensor::from_bool(vec![2], vec![true, false]).unwrap();
    assert_eq!(b.zeros_like().data(), &TensorData::Bool(vec![false, false]));
    assert_eq!(b.ones_like().data(), &TensorData::Bool(vec![true, true]));
}

#[test]
fn zeros_like_of_scalar_is_scalar() {
    let z = Tensor::scalar_f64_bits(3.5f64.to_bits()).zeros_like();
    assert!(z.shape().is_empty());
    assert_eq!(z.numel(), 1);
}

#[test]
fn metadata_variants() {
    let m = MetadataValue::String("note".into());
    assert!(matches!(m, MetadataValue::String(_)));
    let _ = MetadataValue::F64(1.0f64.to_bits());
    let _ = MetadataValue::I64(2);
    let _ = MetadataValue::Bool(true);
    let _ = MetadataValue::Tensor(Tensor::scalar_f32_bits(0.0f32.to_bits()));
}

#[test]
fn mismatch_message_names_the_shape() {
    let err = Tensor::from_i64(vec![2, 3], vec![1, 2, 3]).unwrap_err();
    assert_eq!(
        err.message(),
        "invalid tensor: shape product 6 != data len 3 (shape=[2, 3])"
    );
}

#[test]
fn into_data_hands_back_the_payload() {
    let t = Tensor::from_i64(vec![3], vec![4, 5, 6]).unwrap();
    assert_eq!(t.into_data(), TensorData::I64(vec![4, 5, 6]));
}

#[test]
fn zero_extent_shape_holds_no_elements() {
    let t = Tensor::from_bool(vec![2, 0], vec![]).unwrap();
    assert_eq!(t.numel(), 0);
    assert_eq!(t.ndim(), 2);
    assert!(t.data().is_empty());
}

use wish_core::tensor::{
    next_coord, TensorDType, TensorElement, TensorError, TensorRef, TensorSlice, TensorSpec,
    F32_ONE_BITS, TENSOR_INLINE_MAX_BYTES,
};

fn spec_2d() -> TensorSpec {
    // 3 rows x 4 cols, row-major.
    TensorSpec::new(
        vec![3, 4],
        TensorDType::F32,
        TensorRef::InlineF32 {
            bits: (0..12).map(|i| (i as f32).to_bits()).collect(),
        },
    )
}

#[test]
fn dtype_byte_sizes() {
    assert_eq!(TensorDType::F32.byte_size(), 4);
    assert_eq!(TensorDType::F64.byte_size(), 8);
    assert_eq!(TensorDType::I32.byte_size(), 4);
    assert_eq!(TensorDType::I64.byte_size(), 8);
    assert_eq!(TensorDType::U8.byte_size(), 1);
    assert_eq!(TensorDType::Bool.byte_size(), 1);
}

#[test]
fn spec_basic_metadata() {
    let s = spec_2d();
    assert_eq!(s.rank(), 2);
    assert!(!s.is_scalar());
    assert_eq!(s.element_count(), Some(12));
    assert_eq!(s.byte_size(), Some(48));
}

#[test]
fn scalar_spec() {
    let s = TensorSpec::new(vec![], TensorDType::F32, TensorRef::Empty);
    assert!(s.is_scalar());
    assert_eq!(s.rank(), 0);
    assert_eq!(s.element_count(), Some(1));
    assert_eq!(s.strides(), Some(vec![]));
    let proj = TensorSlice::new().project(&s).unwrap();
    assert_eq!(proj.sub_dims, Vec::<usize>::new());
    assert_eq!(proj.offset, 0);
}

#[test]
fn strides_row_major() {
    let s = TensorSpec::new(vec![2, 3, 4], TensorDType::F32, TensorRef::Empty);
    assert_eq!(s.strides(), Some(vec![12, 4, 1]));
}

#[test]
fn flat_index_matches_strides() {
    let s = spec_2d();
    assert_eq!(s.flat_index(&[1, 2]), Some(6));
    assert_eq!(s.flat_index(&[1]), None);
    assert_eq!(s.flat_index(&[3, 0]), None);
    assert_eq!(s.flat_index(&[0, 4]), None);
}

#[test]
fn validate_inline_f32_ok() {
    spec_2d().validate().unwrap();
}

#[test]
fn validate_inline_f32_size_mismatch() {
    let bad = TensorSpec::new(
        vec![3, 4],
        TensorDType::F32,
        TensorRef::InlineF32 { bits: vec![0.0f32.to_bits(); 11] },
    );
    assert_eq!(
        bad.validate(),
        Err(TensorError::ShapeMismatch {
            expected: 12,
            actual: 11,
        })
    );
}

#[test]
fn validate_inline_dtype_mismatch() {
    let bad = TensorSpec::new(
        vec![4],
        TensorDType::I32,
        TensorRef::InlineF32 { bits: vec![0.0f32.to_bits(); 4] },
    );
    assert_eq!(bad.validate(), Err(TensorError::DTypeMismatch));
}

#[test]
fn validate_external_is_trusted() {
    let s = TensorSpec::new(
        vec![1024, 1024, 1024],
        TensorDType::F32,
        TensorRef::External {
            uri: "hermon://tensors/abc".into(),
        },
    );
    s.validate().unwrap();
}

#[test]
fn validate_inline_too_large_rejected() {
    let dims = vec![300_000];
    let bits = vec![0.0f32.to_bits(); 300_000];
    let bad = TensorSpec::new(dims, TensorDType::F32, TensorRef::InlineF32 { bits });
    assert!(matches!(bad.validate(), Err(TensorError::InlineTooLarge(_))));
}

#[test]
fn validate_inline_at_cap_accepted() {
    let n = TENSOR_INLINE_MAX_BYTES / 4;
    let ok = TensorSpec::new(vec![n], TensorDType::F32, TensorRef::InlineF32 { bits: vec![0; n] });
    assert_eq!(ok.validate(), Ok(()));
    let over = TensorSpec::new(vec![n + 1], TensorDType::F32, TensorRef::InlineF32 { bits: vec![0; n + 1] });
    assert_eq!(over.validate(), Err(TensorError::InlineTooLarge((n + 1) * 4)));
}

#[test]
fn slice_pin_row_of_matrix() {
    let s = spec_2d();
    let slice = TensorSlice::new().pin(0, 1);
    let proj = slice.project(&s).unwrap();
    assert_eq!(proj.sub_dims, vec![4]);
    assert_eq!(proj.sub_strides, vec![1]);
    assert_eq!(proj.offset, 4);
    assert_eq!(proj.flat_index_in_parent(&[2]), Some(6));
    assert_eq!(proj.element_count(), Some(4));
}

#[test]
fn slice_pin_plane_of_3d() {
    let s = TensorSpec::new(vec![2, 3, 4], TensorDType::F32, TensorRef::Empty);
    let proj = TensorSlice::new().pin(2, 2).project(&s).unwrap();
    assert_eq!(proj.sub_dims, vec![2, 3]);
    assert_eq!(proj.sub_strides, vec![12, 4]);
    assert_eq!(proj.offset, 2);
    assert_eq!(proj.flat_index_in_parent(&[1, 2]), Some(22));
}

#[test]
fn slice_multi_pin_to_scalar() {
    let s = TensorSpec::new(vec![2, 3, 4], TensorDType::F32, TensorRef::Empty);
    let proj = TensorSlice::new()
        .pin(0, 1)
        .pin(1, 2)
        .pin(2, 3)
        .project(&s)
        .unwrap();
    assert!(proj.sub_dims.is_empty());
    assert_eq!(proj.offset, 23);
    assert_eq!(proj.element_count(), Some(1));
}

#[test]
fn slice_rejects_oob_axis() {
    let s = spec_2d();
    let err = TensorSlice::new().pin(5, 0).project(&s).unwrap_err();
    assert_eq!(err, TensorError::SliceAxisOob { axis: 5, rank: 2 });
}

#[test]
fn slice_rejects_oob_index() {
    let s = spec_2d();
    let err = TensorSlice::new().pin(0, 99).project(&s).unwrap_err();
    assert_eq!(err, TensorError::SliceIndexOob { index: 99, size: 3 });
}

#[test]
fn shape_overflow_doesnt_panic() {
    let s = TensorSpec::new(vec![usize::MAX, 2], TensorDType::F32, TensorRef::Empty);
    assert_eq!(s.element_count(), None);
    assert_eq!(s.byte_size(), None);
    let _ = s.flat_index(&[0, 1]);
}

#[test]
fn read_element_inline_f32_and_u8() {
    let s = spec_2d();
    assert_eq!(s.read_element(5), Some(TensorElement::F32Bits(5.0f32.to_bits())));
    assert_eq!(s.read_element(12), None);
    let u = TensorSpec::new(vec![3], TensorDType::U8, TensorRef::InlineU8 { data: vec![7, 8, 9] });
    assert_eq!(u.read_element(1), Some(TensorElement::U8(8)));
    let e = TensorSpec::new(vec![3], TensorDType::F32, TensorRef::Empty);
    assert_eq!(e.read_element(0), None);
    assert_eq!(s.read_element_at(&[2, 3]), Some(TensorElement::F32Bits(11.0f32.to_bits())));
}

#[test]
fn zeros_constructor_shape_and_data() {
    let s = TensorSpec::zeros_f32(vec![2, 3]);
    s.validate().unwrap();
    assert_eq!(s.element_count(), Some(6));
    for i in 0..6 {
        assert_eq!(s.read_element(i), Some(TensorElement::F32Bits(0.0f32.to_bits())));
    }
}

#[test]
fn eye_matrix_has_diagonal_ones() {
    let s = TensorSpec::eye_f32(4);
    s.validate().unwrap();
    assert_eq!(F32_ONE_BITS, 1.0f32.to_bits());
    for i in 0..4 {
        for j in 0..4 {
            let expected = if i == j { 1.0f32 } else { 0.0f32 };
            assert_eq!(s.read_element_at(&[i, j]), Some(TensorElement::F32Bits(expected.to_bits())));
        }
    }
}

#[test]
fn next_coord_walks_row_major_and_wraps() {
    let dims = vec![2, 3];
    let mut c = vec![0, 0];
    let mut seen = vec![c.clone()];
    while next_coord(&mut c, &dims) {
        seen.push(c.clone());
    }
    assert_eq!(seen.len(), 6);
    assert_eq!(seen[1], vec![0, 1]);
    assert_eq!(seen[3], vec![1, 0]);
    assert_eq!(c, vec![0, 0]);
}

#[test]
fn projection_addresses_parent_cells() {
    // Law: the sliced view's cell addresses the parent cell that has the
    // pinned coordinates filled in.
    let s = TensorSpec::new(vec![2, 3, 4], TensorDType::F32, TensorRef::Empty);
    let proj = TensorSlice::new().pin(1, 1).project(&s).unwrap();
    for h in 0..2 {
        for d in 0..4 {
            assert_eq!(proj.flat_index_in_parent(&[h, d]), s.flat_index(&[h, 1, d]));
        }
    }
}

use lapack_array2::array::{Array1, Array2};
use lapack_array2::error::LapackError;
use lapack_array2::out::{into_owned_pair, ArrayOut, ArrayOut1, ArrayOut2, ArrayViewOrMut, CopyPolicy};

fn square(n: usize) -> Vec<f64> {
    (0..n * n).map(|k| (k as f64) * 0.5 - 3.0).collect()
}

#[test]
fn column_preferred_buffer_is_used_in_place() {
    let a = Array2::from_col_major(square(4), 4, 4).unwrap();
    let ptr = a.as_slice().as_ptr();
    let out = ArrayOut2::optional_alloc_fpref(Some(a), (4, 4), true, 0.0, CopyPolicy::Forbid).unwrap();
    assert!(matches!(out, ArrayOut::ViewMut(_)));
    assert!(out.is_view_mut() && !out.is_owned());
    assert_eq!(out.view().as_slice().as_ptr(), ptr);
    let back = out.clone_to_view_mut().into_owned();
    assert_eq!(back.as_slice().as_ptr(), ptr);
}

#[test]
fn row_preferred_buffer_is_shadowed_and_flushed() {
    let a = Array2::from_row_major(square(4), 4, 4).unwrap();
    let ptr = a.as_slice().as_ptr();
    let mut out = ArrayOut2::optional_alloc_fpref(Some(a), (4, 4), true, 0.0, CopyPolicy::Silent).unwrap();
    assert!(matches!(out, ArrayOut::ToBeCloned(_, _)));
    assert_ne!(out.view().as_slice().as_ptr(), ptr);
    assert!(out.view().is_fpref());
    // the routine writes its result into the column-major shadow
    for (k, x) in out.data_mut().iter_mut().enumerate() {
        *x = 100.0 + k as f64;
    }
    let expected = out.view().to_rows();
    let flushed = out.clone_to_view_mut();
    match &flushed {
        ArrayOut::ViewMut(v) => {
            assert_eq!(v.as_slice().as_ptr(), ptr);
            assert!(v.is_cpref());
            assert_eq!(v.to_rows(), expected);
            assert_eq!(v.get(1, 0), 101.0);
            assert_eq!(v.get(0, 1), 104.0);
        },
        _ => panic!("flush must hand back the caller's buffer"),
    }
    // a second flush changes nothing
    let again = flushed.clone_to_view_mut();
    assert_eq!(again.view().to_rows(), expected);
}

#[test]
fn row_preferred_buffer_under_forbid_is_refused() {
    let a = Array2::from_row_major(square(3), 3, 3).unwrap();
    let r = ArrayOut2::optional_alloc_fpref(Some(a), (3, 3), true, 0.0, CopyPolicy::Forbid);
    assert!(matches!(r, Err(LapackError::ExplicitCopy(_))));
}

#[test]
fn read_only_buffer_is_copied() {
    let a = Array2::from_col_major(square(3), 3, 3).unwrap();
    let ptr = a.as_slice().as_ptr();
    let out = ArrayOut2::optional_alloc_fpref(Some(a.clone()), (3, 3), false, 0.0, CopyPolicy::Forbid).unwrap();
    assert!(out.is_owned());
    assert_ne!(out.view().as_slice().as_ptr(), ptr);
    assert_eq!(out.view().to_rows(), a.to_rows());
}

#[test]
fn missing_buffer_is_zero_allocated() {
    let out = ArrayOut2::optional_alloc_fpref(None, (2, 3), true, 0.0, CopyPolicy::Forbid).unwrap();
    assert!(out.is_owned());
    assert_eq!(out.view().dim(), (2, 3));
    assert_eq!(out.view().strides(), (1, 2));
    assert_eq!(out.view().to_rows(), vec![vec![0.0; 3]; 2]);
    let v = ArrayOut1::optional_alloc(None, 5, false, 0.0, CopyPolicy::Forbid).unwrap();
    assert_eq!(v.into_owned().to_vec(), vec![0.0; 5]);
}

#[test]
fn wrong_shapes_are_dimension_errors() {
    let a = Array2::from_col_major(square(3), 3, 3).unwrap();
    let r = ArrayOut2::optional_alloc_fpref(Some(a), (3, 4), true, 0.0, CopyPolicy::Silent);
    assert!(matches!(r, Err(LapackError::InvalidDim(_))));
    let v = Array1::from_vec(vec![1.0; 4]);
    let r = ArrayOut1::optional_alloc(Some(v), 5, true, 0.0, CopyPolicy::Silent);
    assert!(matches!(r, Err(LapackError::InvalidDim(_))));
}

#[test]
fn strided_vector_is_shadowed_and_flushed() {
    let v = Array1::from_strided(vec![0.0; 10], 5, 2, 0).unwrap();
    let ptr = v.as_slice().as_ptr();
    let mut out = ArrayOut1::optional_alloc(Some(v), 5, true, 0.0, CopyPolicy::Warn).unwrap();
    assert!(matches!(out, ArrayOut::ToBeCloned(_, _)));
    for (k, x) in out.data_mut().iter_mut().enumerate() {
        *x = k as f64 + 1.0;
    }
    let v = out.into_owned();
    assert_eq!(v.as_slice().as_ptr(), ptr);
    assert_eq!(v.to_vec(), vec![1.0, 2.0, 3.0, 4.0, 5.0]);
    assert_eq!(v.as_slice(), &[1.0, 0.0, 2.0, 0.0, 3.0, 0.0, 4.0, 0.0, 5.0, 0.0]);
    let u = Array1::from_vec(vec![1.0, 2.0]);
    let ptr = u.as_slice().as_ptr();
    let out = ArrayOut1::optional_alloc(Some(u), 2, true, 0.0, CopyPolicy::Forbid).unwrap();
    assert!(matches!(out, ArrayOut::ViewMut(_)));
    assert_eq!(out.view().as_slice().as_ptr(), ptr);
}

#[test]
fn workspace_query_is_skipped_only_for_adequate_buffers() {
    let m = 7usize;
    let (w, query) = ArrayOut1::optional_buffer(Some(Array1::from_vec(vec![0.0; m + 10])), m, true, 0.0);
    assert!(!query);
    assert!(matches!(w, ArrayOut::ViewMut(_)));
    let (w, query) = ArrayOut1::optional_buffer(Some(Array1::from_vec(vec![0.0; m])), m, true, 0.0);
    assert!(!query);
    assert_eq!(w.view().len(), m);
    let (w, query) = ArrayOut1::optional_buffer(Some(Array1::from_vec(vec![0.0; m - 1])), m, true, 0.0);
    assert!(query);
    assert!(w.is_owned());
    assert_eq!(w.view().len(), 1);
    let strided = Array1::from_strided(vec![0.0; 40], 20, 2, 0).unwrap();
    let (w, query) = ArrayOut1::optional_buffer(Some(strided), m, true, 0.0);
    assert!(query);
    assert_eq!(w.view().len(), 1);
    let (w, query) = ArrayOut1::optional_buffer(None, m, false, 0.0);
    assert!(!query);
    assert_eq!(w.view().len(), m);
}

#[test]
fn input_kinds_choose_the_container() {
    let a = Array2::from_row_major(square(3), 3, 3).unwrap();
    let out = ArrayViewOrMut::View(&a).into_col_array_out(CopyPolicy::Forbid).unwrap();
    assert!(out.is_owned());
    assert!(out.view().is_fpref());
    assert_eq!(out.view().to_rows(), a.to_rows());
    let out = ArrayViewOrMut::ViewMut(a.clone()).into_row_array_out(CopyPolicy::Forbid).unwrap();
    assert!(matches!(out, ArrayOut::ViewMut(_)));
    let out = ArrayViewOrMut::ViewMut(a.clone()).into_col_array_out(CopyPolicy::Silent).unwrap();
    assert!(matches!(out, ArrayOut::ToBeCloned(_, _)));
    let t = out.reversed_axes();
    assert!(matches!(t, ArrayOut::ViewMut(_)));
    assert_eq!(t.view().to_rows(), a.clone().reversed_axes().to_rows());
    let v = Array1::from_strided(vec![1.0, 0.0, 2.0, 0.0], 2, 2, 0).unwrap();
    let out = ArrayViewOrMut::ViewMut(v).into_seq_array_out(CopyPolicy::Silent).unwrap();
    assert!(matches!(out, ArrayOut::ToBeCloned(_, _)));
    assert_eq!(out.view().to_vec(), vec![1.0, 2.0]);
}

#[test]
fn both_results_are_flushed_together() {
    let a = Array2::from_row_major(square(2), 2, 2).unwrap();
    let mut a_out = ArrayOut2::optional_alloc_fpref(Some(a), (2, 2), true, 0.0, CopyPolicy::Silent).unwrap();
    a_out.data_mut().copy_from_slice(&[1.0, 2.0, 3.0, 4.0]);
    let v = Array1::from_strided(vec![0.0; 4], 2, 2, 0).unwrap();
    let mut w_out = ArrayOut1::optional_alloc(Some(v), 2, true, 0.0, CopyPolicy::Silent).unwrap();
    w_out.data_mut().copy_from_slice(&[5.0, 6.0]);
    let (a, w) = into_owned_pair((a_out, w_out));
    assert_eq!(a.to_rows(), vec![vec![1.0, 3.0], vec![2.0, 4.0]]);
    assert_eq!(a.as_slice(), &[1.0, 3.0, 2.0, 4.0]);
    assert_eq!(w.as_slice(), &[5.0, 0.0, 6.0, 0.0]);
}

#[test]
fn into_owned_returns_the_flushed_caller_matrix() {
    let a = Array2::from_row_major(square(3), 3, 3).unwrap();
    let ptr = a.as_slice().as_ptr();
    let mut out = ArrayOut2::optional_alloc_fpref(Some(a), (3, 3), true, 0.0, CopyPolicy::Silent).unwrap();
    for x in out.data_mut().iter_mut() {
        *x += 1.0;
    }
    let expected = out.view().to_rows();
    let back = out.into_owned();
    assert_eq!(back.as_slice().as_ptr(), ptr);
    assert_eq!(back.strides(), (3, 1));
    assert_eq!(back.to_rows(), expected);
}

use lapack_array2::array::{classify_layout, Array1, Array2};
use lapack_array2::error::LapackError;
use lapack_array2::flags::LapackLayout;
use lapack_array2::out::{to_col_layout, to_col_layout_by_transpose, to_row_layout, to_row_layout_by_transpose, to_seq_layout, CopyPolicy, CowArray};

fn sample(n: usize, m: usize, seed: u64) -> Vec<f64> {
    let mut x = seed;
    (0..n * m)
        .map(|_| {
            x = x.wrapping_mul(6364136223846793005).wrapping_add(1442695040888963407);
            ((x >> 11) as f64) / ((1u64 << 53) as f64) - 0.5
        })
        .collect()
}

#[test]
fn classification_truth_table() {
    let cases: Vec<(usize, usize, isize, isize, LapackLayout)> = vec![
        (0, 0, 0, 0, LapackLayout::Sequential),
        (0, 5, 5, 1, LapackLayout::Sequential),
        (5, 0, 1, 5, LapackLayout::Sequential),
        (1, 1, 0, 0, LapackLayout::Sequential),
        (1, 1, 7, 9, LapackLayout::Sequential),
        (3, 4, 4, 1, LapackLayout::RowMajor),
        (1, 4, 0, 1, LapackLayout::RowMajor),
        (1, 4, 4, 1, LapackLayout::RowMajor),
        (4, 1, 1, 1, LapackLayout::RowMajor),
        (3, 4, 1, 3, LapackLayout::ColMajor),
        (4, 1, 1, 0, LapackLayout::ColMajor),
        (4, 1, 10, 0, LapackLayout::NonContiguous),
        (3, 4, 8, 2, LapackLayout::NonContiguous),
        (3, 4, 2, 8, LapackLayout::NonContiguous),
        (3, 4, -4, -1, LapackLayout::NonContiguous),
        (3, 4, 4, -1, LapackLayout::NonContiguous),
        (3, 4, 1, -3, LapackLayout::ColMajor),
    ];
    for (d0, d1, s0, s1, want) in cases {
        assert_eq!(classify_layout(d0, d1, s0, s1), want, "shape {:?} strides {:?}", (d0, d1), (s0, s1));
    }
}

#[test]
fn array_layouts_follow_their_strides() {
    let r = Array2::from_row_major(sample(3, 4, 1), 3, 4).unwrap();
    assert_eq!(r.layout(), LapackLayout::RowMajor);
    assert!(r.is_cpref() && !r.is_fpref());
    let c = Array2::from_col_major(sample(3, 4, 1), 3, 4).unwrap();
    assert_eq!(c.layout(), LapackLayout::ColMajor);
    assert!(c.is_fpref() && !c.is_cpref());
    let one = Array2::from_row_major(vec![1.0], 1, 1).unwrap();
    assert_eq!(one.layout(), LapackLayout::Sequential);
    let empty = Array2::<f64>::from_row_major(vec![], 0, 3).unwrap();
    assert_eq!(empty.layout(), LapackLayout::Sequential);
    // every other element of every other row of a 6 x 8 buffer
    let s = Array2::from_strided(sample(6, 8, 2), 3, 4, 16, 2, 0).unwrap();
    assert_eq!(s.layout(), LapackLayout::NonContiguous);
    assert!(!s.is_cpref() && !s.is_fpref());
}

#[test]
fn strided_views_read_the_right_slots() {
    let data: Vec<f64> = (0..48).map(|k| k as f64).collect();
    let s = Array2::from_strided(data, 3, 4, 16, 2, 1).unwrap();
    assert_eq!(s.dim(), (3, 4));
    assert_eq!(s.strides(), (16, 2));
    assert_eq!(s.get(0, 0), 1.0);
    assert_eq!(s.get(2, 3), 1.0 + 32.0 + 6.0);
    let v = Array1::from_strided((0..10).map(|k| k as f64).collect(), 4, 3, 0).unwrap();
    assert_eq!(v.to_vec(), vec![0.0, 3.0, 6.0, 9.0]);
    assert!(!v.is_standard_layout());
}

#[test]
fn bad_shapes_and_strides_are_refused() {
    assert!(matches!(Array2::from_row_major(vec![1.0; 5], 2, 3), Err(LapackError::InvalidDim(_))));
    assert!(matches!(Array2::from_col_major(vec![1.0; 7], 2, 3), Err(LapackError::InvalidDim(_))));
    assert!(matches!(Array2::from_row_major(vec![1.0; 1], usize::MAX, 2), Err(LapackError::InvalidDim(_))));
    // rows overlap: row stride 2 with 3 columns of stride 1
    assert!(matches!(Array2::from_strided(vec![1.0; 20], 3, 3, 2, 1, 0), Err(LapackError::InvalidDim(_))));
    // last slot outside the buffer
    assert!(matches!(Array2::from_strided(vec![1.0; 8], 3, 3, 3, 1, 0), Err(LapackError::InvalidDim(_))));
    assert!(matches!(Array1::from_strided(vec![1.0; 8], 3, 0, 0), Err(LapackError::InvalidDim(_))));
    assert!(matches!(Array1::from_strided(vec![1.0; 8], 3, 4, 0), Err(LapackError::InvalidDim(_))));
    assert!(Array1::from_strided(vec![1.0; 9], 3, 4, 0).is_ok());
}

#[test]
fn layout_round_trip_keeps_values() {
    for &(n, m) in &[(4usize, 4usize), (3, 5), (1, 6), (6, 1), (0, 3)] {
        let vals = sample(n, m, 7 + n as u64);
        let a = Array2::from_row_major(vals.clone(), n, m).unwrap();
        let c = to_col_layout(&a, CopyPolicy::Silent).unwrap();
        let back = to_row_layout(c.view(), CopyPolicy::Silent).unwrap();
        assert_eq!(back.view().to_rows(), a.to_rows());
        let b = Array2::from_col_major(vals, n, m).unwrap();
        let r = to_row_layout(&b, CopyPolicy::Silent).unwrap();
        let back = to_col_layout(r.view(), CopyPolicy::Silent).unwrap();
        assert_eq!(back.view().to_rows(), b.to_rows());
    }
}

#[test]
fn adapting_copies_only_when_needed() {
    let a = Array2::from_col_major(sample(3, 3, 3), 3, 3).unwrap();
    assert!(matches!(to_col_layout(&a, CopyPolicy::Forbid), Ok(CowArray::Borrowed(_))));
    assert!(matches!(to_row_layout(&a, CopyPolicy::Forbid), Err(LapackError::ExplicitCopy(_))));
    let r = to_row_layout(&a, CopyPolicy::Warn).unwrap();
    assert!(r.is_owned());
    assert_eq!(r.view().strides(), (3, 1));
    assert_eq!(r.view().to_rows(), a.to_rows());
    let v = Array1::from_strided(sample(1, 8, 4), 4, 2, 0).unwrap();
    assert!(matches!(to_seq_layout(&v, CopyPolicy::Forbid), Err(LapackError::ExplicitCopy(_))));
    let s = to_seq_layout(&v, CopyPolicy::Silent).unwrap();
    assert!(s.is_owned());
    assert_eq!(s.view().to_vec(), v.to_vec());
}

#[test]
fn transposing_swaps_shape_and_values() {
    let a = Array2::from_row_major(vec![1.0, 2.0, 3.0, 4.0, 5.0, 6.0], 2, 3).unwrap();
    let t = a.clone().reversed_axes();
    assert_eq!(t.dim(), (3, 2));
    assert_eq!(t.to_rows(), vec![vec![1.0, 4.0], vec![2.0, 5.0], vec![3.0, 6.0]]);
    assert_eq!(t.layout(), LapackLayout::ColMajor);
}

#[test]
fn transposing_instead_of_copying_flips_the_flag() {
    let vals = sample(3, 3, 9);
    let a = Array2::from_row_major(vals.clone(), 3, 3).unwrap();
    let ptr = a.as_slice().as_ptr();
    let (t, flag, conj) = to_col_layout_by_transpose(a.clone(), 'N', true, CopyPolicy::Forbid).unwrap();
    assert_eq!((flag, conj), ('C', true));
    assert!(t.is_fpref());
    assert_eq!(t.to_rows(), a.clone().reversed_axes().to_rows());
    let (_, flag, conj) = to_col_layout_by_transpose(a.clone(), 'N', false, CopyPolicy::Forbid).unwrap();
    assert_eq!((flag, conj), ('T', false));
    let (_, flag, conj) = to_col_layout_by_transpose(a.clone(), 'T', false, CopyPolicy::Forbid).unwrap();
    assert_eq!((flag, conj), ('N', false));
    let (_, flag, conj) = to_col_layout_by_transpose(a.clone(), 'C', true, CopyPolicy::Forbid).unwrap();
    assert_eq!((flag, conj), ('N', true));
    let moved = to_col_layout_by_transpose(a, 'T', true, CopyPolicy::Forbid).unwrap().0;
    assert_eq!(moved.as_slice().as_ptr(), ptr);
    let c = Array2::from_col_major(vals.clone(), 3, 3).unwrap();
    let (k, flag, conj) = to_col_layout_by_transpose(c.clone(), 'T', true, CopyPolicy::Forbid).unwrap();
    assert_eq!((flag, conj), ('T', false));
    assert_eq!(k.to_rows(), c.to_rows());
    let s = Array2::from_strided(sample(6, 6, 1), 3, 3, 12, 2, 0).unwrap();
    assert!(matches!(to_col_layout_by_transpose(s.clone(), 'N', false, CopyPolicy::Forbid), Err(LapackError::ExplicitCopy(_))));
    let (k, flag, conj) = to_col_layout_by_transpose(s.clone(), 'N', false, CopyPolicy::Silent).unwrap();
    assert_eq!((flag, conj), ('N', false));
    assert_eq!(k.strides(), (1, 3));
    assert_eq!(k.to_rows(), s.to_rows());
    assert!(matches!(to_col_layout_by_transpose(c, 'X', false, CopyPolicy::Silent), Err(LapackError::InvalidFlag(_))));
}

#[test]
fn transposing_into_row_preference() {
    let vals = sample(3, 3, 5);
    let c = Array2::from_col_major(vals.clone(), 3, 3).unwrap();
    let ptr = c.as_slice().as_ptr();
    let (t, flag, conj) = to_row_layout_by_transpose(c.clone(), 'N', true, CopyPolicy::Forbid).unwrap();
    assert_eq!((flag, conj), ('C', true));
    assert!(t.is_cpref());
    assert_eq!(t.as_slice().as_ptr() == ptr, false);
    assert_eq!(t.to_rows(), c.clone().reversed_axes().to_rows());
    let moved = to_row_layout_by_transpose(c, 'T', false, CopyPolicy::Forbid).unwrap();
    assert_eq!(moved.1, 'N');
    let r = Array2::from_row_major(vals, 3, 3).unwrap();
    let (k, flag, conj) = to_row_layout_by_transpose(r.clone(), 'T', false, CopyPolicy::Forbid).unwrap();
    assert_eq!((flag, conj), ('T', false));
    assert_eq!(k.to_rows(), r.to_rows());
    let s = Array2::from_strided(sample(6, 6, 1), 3, 3, 12, 2, 0).unwrap();
    assert!(matches!(to_row_layout_by_transpose(s.clone(), 'N', false, CopyPolicy::Forbid), Err(LapackError::ExplicitCopy(_))));
    let (k, _, _) = to_row_layout_by_transpose(s.clone(), 'N', false, CopyPolicy::Silent).unwrap();
    assert_eq!(k.strides(), (3, 1));
    assert_eq!(k.to_rows(), s.to_rows());
}

use vstd::prelude::*;

use crate::array::{Array1, Array2};
use crate::error::{message, LapackError};
use crate::out::{check_copy, ArrayOut, ArrayOut1, ArrayOut2, CopyPolicy};

verus! {

impl<F: Copy> ArrayOut<Array1<F>> {
    /// An output vector of length `dim`. Without a buffer, a fresh one filled
    /// with `fill`. A supplied buffer must have length `dim`; it is only read
    /// (copied) unless `overwrite`, and then used in place when it has a
    /// standard layout, else shadowed by a unit-stride copy.
    pub fn optional_alloc(
        arr: Option<Array1<F>>,
        dim: usize,
        overwrite: bool,
        fill: F,
        policy: CopyPolicy,
    ) -> (r: Result<ArrayOut1<F>, LapackError>)
        requires
            arr matches Some(a) ==> a.wf(),
        ensures
            arr is Some && arr->Some_0.size() != dim ==> r matches Err(LapackError::InvalidDim(_)),
            arr is Some && arr->Some_0.size() == dim ==> (r is Err <==> overwrite && !arr->Some_0.standard()
                && policy == CopyPolicy::Forbid),
            arr is Some && arr->Some_0.size() == dim && r is Err ==> r matches Err(
                LapackError::ExplicitCopy(_),
            ),
            r is Err ==> r matches Err(LapackError::InvalidDim(_)) || r matches Err(
                LapackError::ExplicitCopy(_),
            ),
            arr is None ==> r is Ok,
            r matches Ok(o) ==> {
                &&& o.wf()
                &&& o.active().size() == dim
                &&& o.active().standard()
                &&& (arr is None ==> o is Owned && forall|i: int|
                    0 <= i < dim ==> #[trigger] o.active()@[i] == fill)
                &&& (arr is Some ==> o.active()@ == arr->Some_0@)
                &&& (arr is Some && !overwrite ==> o is Owned)
                &&& (arr is Some && overwrite && arr->Some_0.standard() ==> o == ArrayOut::ViewMut(
                    arr->Some_0,
                ))
                &&& (arr is Some && overwrite && !arr->Some_0.standard() ==> o is ToBeCloned
                    && o->ToBeCloned_0 == arr->Some_0)
            },
    {
        match arr {
            Some(a) => {
                if a.len() != dim {
                    return Err(LapackError::InvalidDim(message("vector length differs from the required one")));
                }
                if !overwrite {
                    Ok(ArrayOut::Owned(a.to_standard()))
                } else if a.is_standard_layout() {
                    Ok(ArrayOut::ViewMut(a))
                } else {
                    check_copy(policy)?;
                    let shadow = a.to_standard();
                    Ok(ArrayOut::ToBeCloned(a, shadow))
                }
            },
            None => Ok(ArrayOut::Owned(Array1::filled(dim, fill))),
        }
    }

    /// A workspace of at least `dim` elements. A supplied buffer with a
    /// standard layout and at least `dim` elements is used as it is, with no
    /// size query. Otherwise, when `query`, a one-element placeholder for a
    /// size query, and the flag says so; else a fresh buffer of exactly
    /// `dim` elements.
    pub fn optional_buffer(arr: Option<Array1<F>>, dim: usize, query: bool, fill: F) -> (r: (
        ArrayOut1<F>,
        bool,
    ))
        requires
            arr matches Some(a) ==> a.wf(),
        ensures
            r.0.wf(),
            r.0.active().standard(),
            r.1 <==> query && !workspace_fits(arr, dim),
            workspace_fits(arr, dim) ==> r.0 == ArrayOut::ViewMut(arr->Some_0),
            !workspace_fits(arr, dim) ==> r.0 is Owned,
            !workspace_fits(arr, dim) && query ==> r.0.active().size() == 1,
            !workspace_fits(arr, dim) && !query ==> r.0.active().size() == dim,
            !workspace_fits(arr, dim) ==> forall|i: int|
                0 <= i < r.0.active().size() ==> #[trigger] r.0.active()@[i] == fill,
    {
        let fits = match &arr {
            Some(a) => a.is_standard_layout() && a.len() >= dim,
            None => false,
        };
        if fits {
            match arr {
                Some(a) => (ArrayOut::ViewMut(a), false),
                None => (ArrayOut::Owned(Array1::filled(dim, fill)), false),
            }
        } else if query {
            (ArrayOut::Owned(Array1::filled(1, fill)), true)
        } else {
            (ArrayOut::Owned(Array1::filled(dim, fill)), false)
        }
    }
}

/// A supplied workspace can be used as it is: standard layout and at least
/// `dim` elements.
pub open spec fn workspace_fits<F>(arr: Option<Array1<F>>, dim: usize) -> bool {
    arr matches Some(a) && a.standard() && a.size() >= dim
}

impl<F: Copy> ArrayOut<Array2<F>> {
    /// An output matrix of shape `dim` for a column-major routine. Without a
    /// buffer, a fresh column-major one filled with `fill`. A supplied buffer
    /// must have shape `dim`; it is only read (copied) unless `overwrite`,
    /// and then used in place when column-preferred, else shadowed by a
    /// column-major copy.
    pub fn optional_alloc_fpref(
        arr: Option<Array2<F>>,
        dim: (usize, usize),
        overwrite: bool,
        fill: F,
        policy: CopyPolicy,
    ) -> (r: Result<ArrayOut2<F>, LapackError>)
        requires
            arr matches Some(a) ==> a.wf(),
            arr is None ==> dim.0 * dim.1 <= usize::MAX,
        ensures
            arr is Some && (arr->Some_0.rows() != dim.0 || arr->Some_0.cols() != dim.1) ==> r matches Err(
                LapackError::InvalidDim(_),
            ),
            arr is Some && arr->Some_0.rows() == dim.0 && arr->Some_0.cols() == dim.1 ==> (r is Err <==> overwrite
                && !arr->Some_0.layout_spec().fpref() && policy == CopyPolicy::Forbid),
            arr is Some && arr->Some_0.rows() == dim.0 && arr->Some_0.cols() == dim.1 && r is Err
                ==> r matches Err(LapackError::ExplicitCopy(_)),
            r is Err ==> r matches Err(LapackError::InvalidDim(_)) || r matches Err(
                LapackError::ExplicitCopy(_),
            ),
            arr is None ==> r is Ok,
            r matches Ok(o) ==> {
                &&& o.wf()
                &&& o.active().rows() == dim.0
                &&& o.active().cols() == dim.1
                &&& o.active().layout_spec().fpref() || (o.active().stride0() == 1
                    && o.active().stride1() == dim.0)
                &&& (arr is None ==> o is Owned && forall|i: int, j: int|
                    0 <= i < dim.0 && 0 <= j < dim.1 ==> #[trigger] o.active()@[i][j] == fill)
                &&& (arr is Some ==> o.active()@ == arr->Some_0@)
                &&& (arr is Some && !overwrite ==> o is Owned)
                &&& (arr is Some && overwrite && arr->Some_0.layout_spec().fpref() ==> o
                    == ArrayOut::ViewMut(arr->Some_0))
                &&& (arr is Some && overwrite && !arr->Some_0.layout_spec().fpref() ==> o is ToBeCloned
                    && o->ToBeCloned_0 == arr->Some_0)
            },
    {
        match arr {
            Some(a) => {
                if a.nrows() != dim.0 || a.ncols() != dim.1 {
                    return Err(LapackError::InvalidDim(message("matrix shape differs from the required one")));
                }
                if !overwrite {
                    Ok(ArrayOut::Owned(a.to_col_layout()))
                } else if a.is_fpref() {
                    Ok(ArrayOut::ViewMut(a))
                } else {
                    check_copy(policy)?;
                    let shadow = a.to_col_layout();
                    Ok(ArrayOut::ToBeCloned(a, shadow))
                }
            },
            None => Ok(ArrayOut::Owned(Array2::filled_col(dim.0, dim.1, fill))),
        }
    }
}

} // verus!

use vstd::prelude::*;

use crate::error::LapackError;

use crate::array::{layout_of, Array1, Array2};
use crate::buffers::workspace_fits;
use crate::flags::{flag_accepted, upper, LapackLayout};
use crate::out::{col_adapted, row_adapted, ArrayOut, CowArray};
use crate::syev::{jobz_legal, lwork_min, uplo_legal, SyevPhase, SYEV_, SYEV_Driver, LWORK_QUERY};

verus! {

/// The layout of a matrix depends on its shape and strides alone, never on
/// its values or on the buffer it lives in.
pub proof fn lemma_layout_ignores_values<F>(a: Array2<F>, b: Array2<F>)
    requires
        a.rows() == b.rows(),
        a.cols() == b.cols(),
        a.stride0() == b.stride0(),
        a.stride1() == b.stride1(),
    ensures
        a.layout_spec() == b.layout_spec(),
{
}

/// The classification on each class of inputs: degenerate shapes are
/// sequential, a unit column stride is row-major, a unit row stride (with a
/// non-unit column stride) column-major, and two non-unit strides
/// non-contiguous.
pub proof fn lemma_layout_classes(d0: int, d1: int, s0: int, s1: int)
    ensures
        d0 == 0 || d1 == 0 ==> layout_of(d0, d1, s0, s1) == LapackLayout::Sequential,
        d0 == 1 && d1 == 1 ==> layout_of(d0, d1, s0, s1) == LapackLayout::Sequential,
        d0 != 0 && d1 != 0 && !(d0 == 1 && d1 == 1) && s1 == 1 ==> layout_of(d0, d1, s0, s1)
            == LapackLayout::RowMajor,
        d0 != 0 && d1 != 0 && !(d0 == 1 && d1 == 1) && s1 != 1 && s0 == 1 ==> layout_of(
            d0,
            d1,
            s0,
            s1,
        ) == LapackLayout::ColMajor,
        d0 != 0 && d1 != 0 && !(d0 == 1 && d1 == 1) && s1 != 1 && s0 != 1 ==> layout_of(
            d0,
            d1,
            s0,
            s1,
        ) == LapackLayout::NonContiguous,
        layout_of(d0, d1, s0, s1) != LapackLayout::Undefined,
{
}

/// Adapting a matrix to column-preferred form and then back to
/// row-preferred form keeps every value: only copies happen, no arithmetic.
pub proof fn lemma_col_then_row_keeps_values<F>(
    a: Array2<F>,
    c: CowArray<Array2<F>>,
    d: CowArray<Array2<F>>,
)
    requires
        a.wf(),
        col_adapted(a, c),
        row_adapted(c.array(), d),
    ensures
        d.array()@ == a@,
        d.array().rows() == a.rows(),
        d.array().cols() == a.cols(),
{
}

/// Adapting a matrix to row-preferred form and then back to
/// column-preferred form keeps every value.
pub proof fn lemma_row_then_col_keeps_values<F>(
    a: Array2<F>,
    c: CowArray<Array2<F>>,
    d: CowArray<Array2<F>>,
)
    requires
        a.wf(),
        row_adapted(a, c),
        col_adapted(c.array(), d),
    ensures
        d.array()@ == a@,
        d.array().rows() == a.rows(),
        d.array().cols() == a.cols(),
{
}

/// A matrix already in the preferred form is not copied: adapting it gives
/// back the matrix itself.
pub proof fn lemma_preferred_is_borrowed<F>(a: Array2<F>, c: CowArray<Array2<F>>)
    requires
        a.wf(),
        col_adapted(a, c),
        a.layout_spec().fpref(),
    ensures
        c is Borrowed,
        c.array() == a,
{
}

/// A flush puts the values the routine left in the shadow into the caller's
/// buffer, which keeps its own shape, strides and so its layout.
pub proof fn lemma_flush_writes_back<F: Copy>(v: Array2<F>, s: Array2<F>, r: ArrayOut<Array2<F>>)
    requires
        v.wf(),
        s.wf(),
        v.rows() == s.rows(),
        v.cols() == s.cols(),
        ArrayOut::<Array2<F>>::flushed(ArrayOut::ToBeCloned(v, s), r),
    ensures
        r is ViewMut,
        r.active()@ == s@,
        r.active().layout_spec() == v.layout_spec(),
{
}

/// The same for a vector: after a flush the caller's buffer holds the
/// shadow's values at its own stride.
pub proof fn lemma_flush_writes_back_1<F: Copy>(v: Array1<F>, s: Array1<F>, r: ArrayOut<Array1<F>>)
    requires
        v.wf(),
        s.wf(),
        v.size() == s.size(),
        ArrayOut::<Array1<F>>::flushed(ArrayOut::ToBeCloned(v, s), r),
    ensures
        r is ViewMut,
        r.active()@ == s@,
        r.active().step() == v.step(),
{
}

/// A supplied workspace skips the size query exactly when it is contiguous
/// and holds at least the minimum: one larger than needed always skips it,
/// one short by any amount or non-contiguous never does.
pub proof fn lemma_workspace_query<F>(a: Array1<F>, m: usize)
    requires
        a.wf(),
    ensures
        a.standard() && a.size() >= m ==> workspace_fits(Some(a), m),
        a.size() < m ==> !workspace_fits(Some(a), m),
        !a.standard() ==> !workspace_fits(Some(a), m),
        !workspace_fits(None::<Array1<F>>, m),
{
}

/// For an accepted configuration (flags, square shape, eigenvalue buffer,
/// copy policy and integer limits all pass), the setup succeeds and the
/// workspace alone decides the protocol: a contiguous supplied workspace of
/// at least the minimum is used in place with no size query; any other
/// starts with a size query on a one-element placeholder.
pub proof fn lemma_workspace_phase<'a, F: Copy + Default, R: Copy + Default>(
    c: SYEV_<'a, F, R>,
    r: Result<SYEV_Driver<F, R>, LapackError>,
)
    requires
        c.accepted(),
        c.outcome(r),
    ensures
        r is Ok,
        workspace_fits(c.work, lwork_min(c.a.array().rows() as int) as usize) ==> {
            &&& r->Ok_0.phase == SyevPhase::Execute
            &&& r->Ok_0.work == ArrayOut::ViewMut(c.work->Some_0)
            &&& r->Ok_0.lwork == c.work->Some_0.size()
        },
        !workspace_fits(c.work, lwork_min(c.a.array().rows() as int) as usize) ==> {
            &&& r->Ok_0.phase == SyevPhase::Query
            &&& r->Ok_0.lwork == LWORK_QUERY
            &&& r->Ok_0.work is Owned
            &&& r->Ok_0.work.active().size() == 1
        },
{
}

/// The job flag takes `N` and `V` in either case and nothing else; the
/// triangle flag takes `U` and `L` in either case and nothing else.
pub proof fn lemma_flag_sets(c: char)
    ensures
        flag_accepted(c, jobz_legal()) <==> (upper(c) == 'N' || upper(c) == 'V'),
        flag_accepted(c, uplo_legal()) <==> (upper(c) == 'U' || upper(c) == 'L'),
{
    if upper(c) == 'N' {
        assert(jobz_legal()[0] == 'N');
    }
    if upper(c) == 'V' {
        assert(jobz_legal()[1] == 'V');
    }
    if upper(c) == 'U' {
        assert(uplo_legal()[0] == 'U');
    }
    if upper(c) == 'L' {
        assert(uplo_legal()[1] == 'L');
    }
}

} // verus!

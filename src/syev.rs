use vstd::prelude::*;

use crate::array::{Array1, Array2};
use crate::buffers::workspace_fits;
use crate::error::{message, LapackError};
use crate::flags::{flag_accepted, flag_code, flag_message, upper, CChar};
use crate::out::{check_copy, ArrayOut, ArrayOut1, ArrayOut2, ArrayViewOrMut, ArrayViewOrMut2, CopyPolicy};

verus! {

/// The routine's integer type.
pub type LapackInt = i32;

/// The workspace size that asks the routine for the size it needs.
pub const LWORK_QUERY: LapackInt = -1;

/// Where the two-phase call protocol stands.
#[derive(Debug, Clone, Copy, PartialEq, Eq, Structural)]
pub enum SyevPhase {
    /// The routine is to be called once with `lwork == -1`; it writes the
    /// workspace size it needs into the first workspace element.
    Query,
    /// The routine is to be called to do the work.
    Execute,
    /// The work is done; the results can be taken out.
    Done,
}

/// Legal job flags: eigenvalues only, or eigenvectors too.
pub open spec fn jobz_legal() -> Seq<char> {
    seq!['N', 'V']
}

/// Legal triangle flags: upper or lower.
pub open spec fn uplo_legal() -> Seq<char> {
    seq!['U', 'L']
}

/// The smallest workspace the routine accepts for order `n`.
pub open spec fn lwork_min(n: int) -> int {
    if n == 0 {
        1
    } else {
        2 * n - 1
    }
}

/// The size of the real workspace for order `n`.
pub open spec fn rwork_min(n: int) -> int {
    if n == 0 {
        1
    } else {
        3 * n - 2
    }
}

/// The leading dimension the routine gets for input `a`: its column stride
/// when it is used in place, else the order of the column-major copy; one for
/// orders below two.
pub open spec fn lda_of<F>(a: ArrayViewOrMut2<F>) -> int {
    let m = a.array();
    if m.rows() <= 1 {
        1
    } else if a is ViewMut && m.layout_spec().fpref() {
        m.stride1()
    } else {
        m.rows() as int
    }
}

/// The validated configuration of one symmetric (Hermitian) eigen-solve.
#[allow(non_camel_case_types)]
pub struct SYEV_<'a, F, R> {
    /// The matrix; a handed-over one receives the eigenvectors.
    pub a: ArrayViewOrMut2<'a, F>,
    /// A buffer for the eigenvalues, of length the order.
    pub w: Option<Array1<R>>,
    /// `N` for eigenvalues only, `V` for eigenvectors too.
    pub jobz: char,
    /// `U` or `L`: which triangle of `a` is read.
    pub uplo: char,
    pub work: Option<Array1<F>>,
    pub rwork: Option<Array1<R>>,
    pub copy_policy: CopyPolicy,
}

/// The state of one call: the parameter block handed to the routine and
/// where the protocol stands.
#[allow(non_camel_case_types)]
pub struct SYEV_Driver<F, R> {
    pub jobz: CChar,
    pub uplo: CChar,
    pub n: LapackInt,
    pub a: ArrayOut2<F>,
    pub lda: LapackInt,
    pub w: ArrayOut1<R>,
    pub work: ArrayOut1<F>,
    pub lwork: LapackInt,
    pub rwork: ArrayOut1<R>,
    pub info: LapackInt,
    pub phase: SyevPhase,
    /// The input was not column-preferred: a fresh result goes back row-major.
    pub row_input: bool,
    /// A supplied workspace of more than one element was left unused because
    /// it was too short or not contiguous; a size query replaces it.
    pub work_discarded: bool,
}

impl<'a, F: Copy + Default, R: Copy + Default> SYEV_<'a, F, R> {
    /// Both flags lie in their legal sets.
    pub open spec fn flags_ok(&self) -> bool {
        flag_accepted(self.jobz, jobz_legal()) && flag_accepted(self.uplo, uplo_legal())
    }

    pub open spec fn square(&self) -> bool {
        self.a.array().rows() == self.a.array().cols()
    }

    /// The order fits the routine's integer.
    pub open spec fn order_fits(&self) -> bool {
        self.a.array().rows() <= LapackInt::MAX
    }

    /// The matrix needs no copy that the policy forbids.
    pub open spec fn a_copy_ok(&self) -> bool {
        !(self.a is ViewMut && !self.a.array().layout_spec().fpref() && self.copy_policy
            == CopyPolicy::Forbid)
    }

    /// A supplied eigenvalue buffer has the order as its length.
    pub open spec fn w_len_ok(&self) -> bool {
        self.w matches Some(w) ==> w.size() == self.a.array().rows()
    }

    /// A supplied eigenvalue buffer needs no copy that the policy forbids.
    pub open spec fn w_copy_ok(&self) -> bool {
        self.w matches Some(w) ==> !(!w.standard() && self.copy_policy == CopyPolicy::Forbid)
    }

    /// The leading dimension, the workspace sizes and a supplied workspace's
    /// length fit the routine's integer and the address space.
    pub open spec fn sizes_fit(&self) -> bool {
        let n = self.a.array().rows() as int;
        &&& lda_of(self.a) <= LapackInt::MAX
        &&& rwork_min(n) <= usize::MAX
        &&& (workspace_fits(self.work, lwork_min(n) as usize) ==> self.work->Some_0.size()
            <= LapackInt::MAX)
    }

    /// Everything the configuration needs to be accepted.
    pub open spec fn accepted(&self) -> bool {
        &&& self.flags_ok()
        &&& self.square()
        &&& self.order_fits()
        &&& self.a_copy_ok()
        &&& self.w_len_ok()
        &&& self.w_copy_ok()
        &&& self.sizes_fit()
    }

    /// The invalid-flag error that the configuration gets: the job flag is
    /// checked first.
    pub open spec fn flag_error(&self, r: Result<SYEV_Driver<F, R>, LapackError>) -> bool {
        r matches Err(LapackError::InvalidFlag(m)) && m@ == (if !flag_accepted(
            self.jobz,
            jobz_legal(),
        ) {
            flag_message(self.jobz, jobz_legal())
        } else {
            flag_message(self.uplo, uplo_legal())
        })
    }

    /// What the parameter block of an accepted configuration holds.
    pub open spec fn driver_ok(&self, d: SYEV_Driver<F, R>) -> bool {
        let m = self.a.array();
        let n = m.rows() as int;
        let fits = workspace_fits(self.work, lwork_min(n) as usize);
        &&& d.wf()
        &&& d.jobz == (upper(self.jobz) as u32) as CChar
        &&& d.uplo == (upper(self.uplo) as u32) as CChar
        &&& d.n == n
        &&& d.lda == lda_of(self.a)
        &&& d.a.active()@ == m@
        &&& (self.a is View ==> d.a is Owned)
        &&& (self.a is ViewMut && m.layout_spec().fpref() ==> d.a == ArrayOut::ViewMut(m))
        &&& (self.a is ViewMut && !m.layout_spec().fpref() ==> d.a is ToBeCloned
            && d.a->ToBeCloned_0 == m)
        &&& (self.w is None ==> d.w is Owned)
        &&& (self.w is Some && self.w->Some_0.standard() ==> d.w == ArrayOut::ViewMut(
            self.w->Some_0,
        ))
        &&& (self.w is Some && !self.w->Some_0.standard() ==> d.w is ToBeCloned
            && d.w->ToBeCloned_0 == self.w->Some_0)
        &&& (workspace_fits(self.rwork, rwork_min(n) as usize) ==> d.rwork == ArrayOut::ViewMut(
            self.rwork->Some_0,
        ))
        &&& (!workspace_fits(self.rwork, rwork_min(n) as usize) ==> d.rwork is Owned
            && d.rwork.active().size() == rwork_min(n))
        &&& d.info == 0
        &&& d.row_input == !m.layout_spec().fpref()
        &&& d.work_discarded == (self.work is Some && !fits && self.work->Some_0.size() > 1)
        &&& (fits ==> {
            &&& d.phase == SyevPhase::Execute
            &&& d.work == ArrayOut::ViewMut(self.work->Some_0)
            &&& d.lwork == self.work->Some_0.size()
        })
        &&& (!fits ==> {
            &&& d.phase == SyevPhase::Query
            &&& d.lwork == LWORK_QUERY
            &&& d.work is Owned
            &&& d.work.active().size() == 1
        })
    }

    /// What `driver` gives for this configuration: the parameter block when
    /// it is accepted, else the error of the first check that fails.
    pub open spec fn outcome(&self, r: Result<SYEV_Driver<F, R>, LapackError>) -> bool {
        &&& (r is Ok <==> self.accepted())
        &&& (!self.flags_ok() ==> self.flag_error(r))
        &&& (self.flags_ok() && !self.square() ==> r matches Err(LapackError::InvalidDim(_)))
        &&& (self.flags_ok() && self.square() && !self.order_fits() ==> r matches Err(
            LapackError::OverflowDimension(_),
        ))
        &&& (self.flags_ok() && self.square() && self.order_fits() && !self.a_copy_ok() ==> r matches Err(
            LapackError::ExplicitCopy(_),
        ))
        &&& (self.flags_ok() && self.square() && self.order_fits() && self.a_copy_ok()
            && !self.w_len_ok() ==> r matches Err(LapackError::InvalidDim(_)))
        &&& (self.flags_ok() && self.square() && self.order_fits() && self.a_copy_ok()
            && self.w_len_ok() && !self.w_copy_ok() ==> r matches Err(LapackError::ExplicitCopy(_)))
        &&& (self.flags_ok() && self.square() && self.order_fits() && self.a_copy_ok()
            && self.w_len_ok() && self.w_copy_ok() && !self.sizes_fit() ==> r matches Err(
            LapackError::OverflowDimension(_),
        ))
        &&& (r matches Ok(d) ==> self.driver_ok(d))
    }

    /// Checks the whole configuration before anything is allocated or
    /// copied, then adapts the matrix to column-major order, allocates what
    /// was not supplied, and sets up the parameter block. The protocol starts
    /// with a size query unless the supplied workspace is large enough and
    /// contiguous.
    pub fn driver(self) -> (r: Result<SYEV_Driver<F, R>, LapackError>)
        requires
            self.a.array().wf(),
            self.w matches Some(w) ==> w.wf(),
            self.work matches Some(w) ==> w.wf(),
            self.rwork matches Some(w) ==> w.wf(),
        ensures
            self.outcome(r),
    {
        let ghost this = self;
        let SYEV_ { a, w, jobz, uplo, work, rwork, copy_policy } = self;
        // 1. flags
        let jobz_set: [char; 2] = ['N', 'V'];
        let uplo_set: [char; 2] = ['U', 'L'];
        proof {
            assert(jobz_set@ == jobz_legal());
            assert(uplo_set@ == uplo_legal());
        }
        let jobz_code = flag_code(jobz, jobz_set.as_slice())?;
        let uplo_code = flag_code(uplo, uplo_set.as_slice())?;
        // 2. shape
        let (n, ncols) = a.view().dim();
        if n != ncols {
            return Err(LapackError::InvalidDim(message("matrix is not square")));
        }
        if n > LapackInt::MAX as usize {
            return Err(LapackError::OverflowDimension(message("order exceeds the routine's integer")));
        }
        let a_fpref = a.view().is_fpref();
        let handed_over = match &a {
            ArrayViewOrMut::ViewMut(_) => true,
            ArrayViewOrMut::View(_) => false,
        };
        if handed_over && !a_fpref {
            check_copy(copy_policy)?;
        }
        // 3. eigenvalue buffer
        match &w {
            Some(v) => {
                if v.len() != n {
                    return Err(LapackError::InvalidDim(message("eigenvalue buffer length differs from the order")));
                }
                if !v.is_standard_layout() {
                    check_copy(copy_policy)?;
                }
            },
            None => {},
        }
        // 4. sizes
        proof {
            if n >= 2 && a.array().layout_spec().fpref() {
                a.array().lemma_col_major_lda();
            }
        }
        let lda: usize = if n <= 1 {
            1
        } else if handed_over && a_fpref {
            a.view().strides().1
        } else {
            n
        };
        if lda > LapackInt::MAX as usize {
            return Err(LapackError::OverflowDimension(message("leading dimension exceeds the routine's integer")));
        }
        let lwork_size: usize = if n == 0 {
            1
        } else {
            2 * n - 1
        };
        let rwork_size: usize = if n == 0 {
            1
        } else {
            match n.checked_mul(3) {
                Some(x) => x - 2,
                None => {
                    return Err(LapackError::OverflowDimension(message("workspace size exceeds the address space")));
                },
            }
        };
        let (work_fits, work_len) = match &work {
            Some(v) => (v.is_standard_layout() && v.len() >= lwork_size, v.len()),
            None => (false, 0),
        };
        if work_fits && work_len > LapackInt::MAX as usize {
            return Err(LapackError::OverflowDimension(message("workspace length exceeds the routine's integer")));
        }
        let work_discarded = !work_fits && work_len > 1;
        // 5. allocation
        let row_input = !a_fpref;
        let a = a.into_col_array_out(copy_policy)?;
        let w = ArrayOut1::optional_alloc(w, n, true, R::default(), copy_policy)?;
        let (work, query) = ArrayOut1::optional_buffer(work, lwork_size, true, F::default());
        let (rwork, _) = ArrayOut1::optional_buffer(rwork, rwork_size, false, R::default());
        let lwork: LapackInt = if query {
            LWORK_QUERY
        } else {
            work_len as LapackInt
        };
        let r = SYEV_Driver {
            jobz: jobz_code,
            uplo: uplo_code,
            n: n as LapackInt,
            a,
            lda: lda as LapackInt,
            w,
            work,
            lwork,
            rwork,
            info: 0,
            phase: if query {
                SyevPhase::Query
            } else {
                SyevPhase::Execute
            },
            row_input,
            work_discarded,
        };
        proof {
            assert(this.driver_ok(r));
        }
        Ok(r)
    }
}

impl<F: Copy + Default, R: Copy + Default> SYEV_Driver<F, R> {
    /// The parameter block is consistent: every buffer is well formed, the
    /// matrix is square of order `n` and column-preferred with leading
    /// dimension `lda`, the eigenvalue buffer has `n` elements, and the
    /// workspace size says what the phase needs.
    pub open spec fn wf(&self) -> bool {
        let m = self.a.active();
        &&& self.a.wf()
        &&& self.w.wf()
        &&& self.work.wf()
        &&& self.rwork.wf()
        &&& self.n >= 0
        &&& m.rows() == self.n
        &&& m.cols() == self.n
        &&& (self.n <= 1 ==> self.lda == 1)
        &&& (self.n > 1 ==> m.stride0() == 1 && self.lda == m.stride1() && m.stride1() >= self.n)
        &&& self.w.active().size() == self.n
        &&& self.w.active().standard()
        &&& self.work.active().standard()
        &&& self.rwork.active().standard()
        &&& self.rwork.active().size() >= rwork_min(self.n as int)
        &&& (self.phase == SyevPhase::Query ==> self.lwork == LWORK_QUERY
            && self.work.active().size() >= 1)
        &&& (self.phase != SyevPhase::Query ==> self.lwork == self.work.active().size())
    }

    /// What the caller has to do next.
    pub fn action(&self) -> (r: SyevPhase)
        ensures
            r == self.phase,
    {
        self.phase
    }

    /// Takes the outcome of the size query: its status, and the size that the
    /// routine wrote into the first workspace element. A non-zero status
    /// stops the protocol; else the workspace is replaced by a fresh one of
    /// exactly the reported size, and the work call comes next.
    pub fn query_done(&mut self, info: LapackInt, reported: isize) -> (r: Result<(), LapackError>)
        requires
            old(self).wf(),
            old(self).phase == SyevPhase::Query,
        ensures
            final(self).info == info,
            info != 0 ==> r == Err::<(), LapackError>(LapackError::Info(info as i64)),
            info == 0 && !(0 <= reported <= LapackInt::MAX) ==> r matches Err(
                LapackError::OverflowDimension(_),
            ),
            r is Ok <==> info == 0 && 0 <= reported <= LapackInt::MAX,
            r is Err ==> final(self).phase == old(self).phase && final(self).work == old(self).work,
            r is Ok ==> {
                &&& final(self).wf()
                &&& final(self).phase == SyevPhase::Execute
                &&& final(self).lwork == reported
                &&& final(self).work is Owned
                &&& final(self).work.active().size() == reported
            },
            final(self).a == old(self).a,
            final(self).w == old(self).w,
            final(self).rwork == old(self).rwork,
            final(self).jobz == old(self).jobz,
            final(self).uplo == old(self).uplo,
            final(self).n == old(self).n,
            final(self).lda == old(self).lda,
            final(self).row_input == old(self).row_input,
    {
        self.info = info;
        if info != 0 {
            return Err(LapackError::Info(info as i64));
        }
        if reported < 0 || reported > LapackInt::MAX as isize {
            return Err(LapackError::OverflowDimension(message("reported workspace size is out of range")));
        }
        self.work = ArrayOut::Owned(Array1::filled(reported as usize, F::default()));
        self.lwork = reported as LapackInt;
        self.phase = SyevPhase::Execute;
        Ok(())
    }

    /// Takes the status of the work call. A non-zero status is an error that
    /// keeps the code; else the protocol is done.
    pub fn execute_done(&mut self, info: LapackInt) -> (r: Result<(), LapackError>)
        requires
            old(self).wf(),
            old(self).phase == SyevPhase::Execute,
        ensures
            final(self).info == info,
            info != 0 ==> r == Err::<(), LapackError>(LapackError::Info(info as i64)),
            info == 0 ==> r is Ok,
            r is Ok ==> final(self).phase == SyevPhase::Done && final(self).wf(),
            r is Err ==> final(self).phase == old(self).phase,
            final(self).a == old(self).a,
            final(self).w == old(self).w,
            final(self).work == old(self).work,
            final(self).rwork == old(self).rwork,
            final(self).row_input == old(self).row_input,
    {
        self.info = info;
        if info != 0 {
            return Err(LapackError::Info(info as i64));
        }
        self.phase = SyevPhase::Done;
        Ok(())
    }

    /// The eigenvectors and the eigenvalues, with every shadow flushed into
    /// the caller's buffer. A fresh eigenvector matrix for a row-preferred
    /// input comes back row-major.
    pub fn finish(self) -> (r: (ArrayOut2<F>, ArrayOut1<R>))
        requires
            self.wf(),
            self.phase == SyevPhase::Done,
        ensures
            r.0.wf(),
            r.1.wf(),
            !(r.0 is ToBeCloned),
            !(r.1 is ToBeCloned),
            r.0.active()@ == self.a.active()@,
            r.1.active()@ == self.w.active()@,
            ArrayOut::<Array1<R>>::flushed(self.w, r.1),
            !(self.row_input && self.a is Owned) ==> ArrayOut::<Array2<F>>::flushed(self.a, r.0),
            self.row_input && self.a is Owned ==> r.0 is Owned && r.0.active().stride1() == 1
                && r.0.active().stride0() == self.n,
    {
        let SYEV_Driver { a, w, row_input, .. } = self;
        let a = a.clone_to_view_mut();
        let w = w.clone_to_view_mut();
        let a = if row_input {
            match a {
                ArrayOut::Owned(m) => ArrayOut::Owned(m.to_row_layout()),
                other => other,
            }
        } else {
            a
        };
        (a, w)
    }
}

/// Collects the configuration of one eigen-solve; `build` fills in the
/// defaults (`V`, `U`, silent copies) and checks that the matrix was given.
#[allow(non_camel_case_types)]
pub struct SYEV_Builder<'a, F, R> {
    pub a: Option<ArrayViewOrMut2<'a, F>>,
    pub w: Option<Array1<R>>,
    pub jobz: Option<char>,
    pub uplo: Option<char>,
    pub work: Option<Array1<F>>,
    pub rwork: Option<Array1<R>>,
    pub copy_policy: Option<CopyPolicy>,
}

impl<'a, F, R> Default for SYEV_Builder<'a, F, R> {
    fn default() -> (r: Self)
        ensures
            r.a is None,
            r.w is None,
            r.jobz is None,
            r.uplo is None,
            r.work is None,
            r.rwork is None,
            r.copy_policy is None,
    {
        SYEV_Builder { a: None, w: None, jobz: None, uplo: None, work: None, rwork: None, copy_policy: None }
    }
}

impl<'a, F, R> SYEV_Builder<'a, F, R> {
    pub fn a(self, a: ArrayViewOrMut2<'a, F>) -> (r: Self)
        ensures
            r == (SYEV_Builder { a: Some(a), ..self }),
    {
        SYEV_Builder { a: Some(a), ..self }
    }

    pub fn w(self, w: Array1<R>) -> (r: Self)
        ensures
            r == (SYEV_Builder { w: Some(w), ..self }),
    {
        SYEV_Builder { w: Some(w), ..self }
    }

    pub fn jobz(self, jobz: char) -> (r: Self)
        ensures
            r == (SYEV_Builder { jobz: Some(jobz), ..self }),
    {
        SYEV_Builder { jobz: Some(jobz), ..self }
    }

    pub fn uplo(self, uplo: char) -> (r: Self)
        ensures
            r == (SYEV_Builder { uplo: Some(uplo), ..self }),
    {
        SYEV_Builder { uplo: Some(uplo), ..self }
    }

    pub fn work(self, work: Array1<F>) -> (r: Self)
        ensures
            r == (SYEV_Builder { work: Some(work), ..self }),
    {
        SYEV_Builder { work: Some(work), ..self }
    }

    pub fn rwork(self, rwork: Array1<R>) -> (r: Self)
        ensures
            r == (SYEV_Builder { rwork: Some(rwork), ..self }),
    {
        SYEV_Builder { rwork: Some(rwork), ..self }
    }

    pub fn copy_policy(self, copy_policy: CopyPolicy) -> (r: Self)
        ensures
            r == (SYEV_Builder { copy_policy: Some(copy_policy), ..self }),
    {
        SYEV_Builder { copy_policy: Some(copy_policy), ..self }
    }

    /// The configuration that `build` gives when a matrix was set.
    pub open spec fn built(&self) -> SYEV_<'a, F, R> {
        SYEV_ {
            a: self.a->Some_0,
            w: self.w,
            jobz: if self.jobz is Some { self.jobz->Some_0 } else { 'V' },
            uplo: if self.uplo is Some { self.uplo->Some_0 } else { 'U' },
            work: self.work,
            rwork: self.rwork,
            copy_policy: if self.copy_policy is Some {
                self.copy_policy->Some_0
            } else {
                CopyPolicy::Silent
            },
        }
    }

    /// The configuration, with `jobz = 'V'`, `uplo = 'U'` and silent copies
    /// where none was set; refused when no matrix was given.
    pub fn build(self) -> (r: Result<SYEV_<'a, F, R>, LapackError>)
        ensures
            self.a is None <==> r is Err,
            r is Err ==> (r matches Err(LapackError::UninitializedField(m)) && m@ == "a"@),
            r matches Ok(c) ==> c == self.built(),
    {
        let SYEV_Builder { a, w, jobz, uplo, work, rwork, copy_policy } = self;
        let a = match a {
            Some(a) => a,
            None => {
                return Err(LapackError::UninitializedField(message("a")));
            },
        };
        let jobz = match jobz {
            Some(c) => c,
            None => 'V',
        };
        let uplo = match uplo {
            Some(c) => c,
            None => 'U',
        };
        let copy_policy = match copy_policy {
            Some(p) => p,
            None => CopyPolicy::Silent,
        };
        Ok(SYEV_ { a, w, jobz, uplo, work, rwork, copy_policy })
    }
}

impl<'a, F: Copy + Default, R: Copy + Default> SYEV_Builder<'a, F, R> {
    /// Builds the configuration and sets up the call, exactly as `driver`
    /// does on the built configuration: the protocol then runs through
    /// `SYEV_Driver::action`.
    pub fn run(self) -> (r: Result<SYEV_Driver<F, R>, LapackError>)
        requires
            self.a matches Some(a) ==> a.array().wf(),
            self.w matches Some(w) ==> w.wf(),
            self.work matches Some(w) ==> w.wf(),
            self.rwork matches Some(w) ==> w.wf(),
        ensures
            self.a is None ==> (r matches Err(LapackError::UninitializedField(m)) && m@ == "a"@),
            self.a is Some ==> self.built().outcome(r),
    {
        let c = self.build()?;
        c.driver()
    }
}

} // verus!

use vstd::prelude::*;

use crate::array::{Array1, Array2};
use crate::error::{message, LapackError};
use crate::flags::{flip_trans, trans_flip};

verus! {

/// What happens when a buffer has to be copied into another layout.
#[derive(Debug, Clone, Copy, PartialEq, Eq, Structural)]
pub enum CopyPolicy {
    /// Copy without a word.
    Silent,
    /// Copy; the caller can see from the container's state that it happened.
    Warn,
    /// Refuse the copy with an explicit-copy error.
    Forbid,
}

/// Whether a copy may go ahead under a policy.
pub fn check_copy(policy: CopyPolicy) -> (r: Result<(), LapackError>)
    ensures
        policy != CopyPolicy::Forbid <==> r is Ok,
        r is Err ==> r matches Err(LapackError::ExplicitCopy(_)),
{
    match policy {
        CopyPolicy::Forbid => Err(LapackError::ExplicitCopy(message("copy of an array in a non-preferred layout"))),
        _ => Ok(()),
    }
}

/// An output buffer of the routine, with its ownership:
/// - `ViewMut`: the caller's buffer, written in place;
/// - `Owned`: a fresh buffer;
/// - `ToBeCloned`: the caller's buffer and a fresh shadow in the preferred
///   layout; the routine writes the shadow, and a flush copies it back.
#[derive(Debug)]
pub enum ArrayOut<A> {
    ViewMut(A),
    Owned(A),
    ToBeCloned(A, A),
}

pub type ArrayOut1<F> = ArrayOut<Array1<F>>;

pub type ArrayOut2<F> = ArrayOut<Array2<F>>;

impl<A> ArrayOut<A> {
    /// The buffer the routine works on.
    pub open spec fn active(&self) -> A {
        match self {
            ArrayOut::ViewMut(a) => *a,
            ArrayOut::Owned(a) => *a,
            ArrayOut::ToBeCloned(_, a) => *a,
        }
    }

    pub fn view(&self) -> (r: &A)
        ensures
            *r == self.active(),
    {
        match self {
            ArrayOut::ViewMut(a) => a,
            ArrayOut::Owned(a) => a,
            ArrayOut::ToBeCloned(_, a) => a,
        }
    }

    /// `self` with its active buffer replaced by `a`.
    pub open spec fn with_active(self, a: A) -> Self {
        match self {
            ArrayOut::ViewMut(_) => ArrayOut::ViewMut(a),
            ArrayOut::Owned(_) => ArrayOut::Owned(a),
            ArrayOut::ToBeCloned(v, _) => ArrayOut::ToBeCloned(v, a),
        }
    }

    /// The buffer the routine works on, writable.
    pub fn view_mut(&mut self) -> (r: &mut A)
        ensures
            *r == old(self).active(),
            *final(self) == old(self).with_active(*final(r)),
    {
        match self {
            ArrayOut::ViewMut(a) => a,
            ArrayOut::Owned(a) => a,
            ArrayOut::ToBeCloned(_, a) => a,
        }
    }

    /// Whether the caller's buffer is held (written now or on flush).
    pub fn is_view_mut(&self) -> (r: bool)
        ensures
            r == !(self is Owned),
    {
        match self {
            ArrayOut::ViewMut(_) => true,
            ArrayOut::Owned(_) => false,
            ArrayOut::ToBeCloned(_, _) => true,
        }
    }

    pub fn is_owned(&self) -> (r: bool)
        ensures
            r == (self is Owned),
    {
        match self {
            ArrayOut::ViewMut(_) => false,
            ArrayOut::Owned(_) => true,
            ArrayOut::ToBeCloned(_, _) => false,
        }
    }
}

impl<F: Copy> ArrayOut<Array2<F>> {
    /// Every buffer is well formed, and a shadow has the shape of the buffer
    /// it shadows.
    pub open spec fn wf(&self) -> bool {
        match self {
            ArrayOut::ViewMut(a) => a.wf(),
            ArrayOut::Owned(a) => a.wf(),
            ArrayOut::ToBeCloned(v, a) => {
                &&& v.wf()
                &&& a.wf()
                &&& v.rows() == a.rows()
                &&& v.cols() == a.cols()
            },
        }
    }

    /// `r` is `c` after its flush: the shadow's values now stand in the
    /// caller's buffer, in that buffer's own layout; the other states stay.
    pub open spec fn flushed(c: Self, r: Self) -> bool {
        match c {
            ArrayOut::ToBeCloned(v, a) => {
                &&& r is ViewMut
                &&& r.active().wf()
                &&& r.active()@ == a@
                &&& r.active().rows() == v.rows()
                &&& r.active().cols() == v.cols()
                &&& r.active().stride0() == v.stride0()
                &&& r.active().stride1() == v.stride1()
                &&& r.active().origin() == v.origin()
                &&& r.active().buffer().len() == v.buffer().len()
            },
            _ => r == c,
        }
    }

    /// Copies the shadow, if any, back into the caller's buffer, and holds
    /// that buffer from then on.
    pub fn clone_to_view_mut(self) -> (r: Self)
        requires
            self.wf(),
        ensures
            r.wf(),
            Self::flushed(self, r),
            !(r is ToBeCloned),
            r.active()@ == self.active()@,
    {
        match self {
            ArrayOut::ToBeCloned(mut v, a) => {
                v.assign(&a);
                ArrayOut::ViewMut(v)
            },
            _ => self,
        }
    }

    /// The buffer the routine works on, writable in place through a pointer.
    /// Only that buffer's contents can change: the state, any caller buffer
    /// it shadows, and its shape, strides and offset stay.
    pub fn data_mut(&mut self) -> (r: &mut [F])
        ensures
            r@ == old(self).active().buffer(),
            final(self).active().buffer() == final(r)@,
            *final(self) == old(self).with_active(final(self).active()),
            final(self).active().rows() == old(self).active().rows(),
            final(self).active().cols() == old(self).active().cols(),
            final(self).active().stride0() == old(self).active().stride0(),
            final(self).active().stride1() == old(self).active().stride1(),
            final(self).active().origin() == old(self).active().origin(),
            final(r)@.len() == r@.len() ==> final(self).active().wf() == old(self).active().wf(),
    {
        match self {
            ArrayOut::ViewMut(a) => a.as_mut_slice(),
            ArrayOut::Owned(a) => a.as_mut_slice(),
            ArrayOut::ToBeCloned(_, a) => a.as_mut_slice(),
        }
    }

    /// The values as one matrix, after any flush: the caller's buffer where
    /// it is held (with the shadow's values written back), else the fresh one.
    pub fn into_owned(self) -> (r: Array2<F>)
        requires
            self.wf(),
        ensures
            r.wf(),
            r@ == self.active()@,
            r.rows() == self.active().rows(),
            r.cols() == self.active().cols(),
            self is Owned ==> r == self->Owned_0,
            !(self is Owned) ==> Self::flushed(self, ArrayOut::ViewMut(r)),
    {
        match self.clone_to_view_mut() {
            ArrayOut::ViewMut(v) => v,
            ArrayOut::Owned(a) => a,
            ArrayOut::ToBeCloned(_, a) => a,
        }
    }

    /// The transpose, on the same buffers; a pending flush happens first.
    pub fn reversed_axes(self) -> (r: Self)
        requires
            self.wf(),
        ensures
            r.wf(),
            r.active().rows() == self.active().cols(),
            r.active().cols() == self.active().rows(),
            r.active()@ == crate::array::transpose(
                self.active()@,
                self.active().rows(),
                self.active().cols(),
            ),
            self is Owned <==> r is Owned,
            !(r is ToBeCloned),
    {
        match self.clone_to_view_mut() {
            ArrayOut::ViewMut(v) => ArrayOut::ViewMut(v.reversed_axes()),
            ArrayOut::Owned(a) => ArrayOut::Owned(a.reversed_axes()),
            ArrayOut::ToBeCloned(_, a) => ArrayOut::Owned(a.reversed_axes()),
        }
    }
}

impl<F: Copy> ArrayOut<Array1<F>> {
    /// Every buffer is well formed, and a shadow has the length of the
    /// buffer it shadows.
    pub open spec fn wf(&self) -> bool {
        match self {
            ArrayOut::ViewMut(a) => a.wf(),
            ArrayOut::Owned(a) => a.wf(),
            ArrayOut::ToBeCloned(v, a) => v.wf() && a.wf() && v.size() == a.size(),
        }
    }

    /// `r` is `c` after its flush: the shadow's values now stand in the
    /// caller's buffer, at that buffer's own stride; the other states stay.
    pub open spec fn flushed(c: Self, r: Self) -> bool {
        match c {
            ArrayOut::ToBeCloned(v, a) => {
                &&& r is ViewMut
                &&& r.active().wf()
                &&& r.active()@ == a@
                &&& r.active().size() == v.size()
                &&& r.active().step() == v.step()
                &&& r.active().origin() == v.origin()
                &&& r.active().buffer().len() == v.buffer().len()
            },
            _ => r == c,
        }
    }

    /// Copies the shadow, if any, back into the caller's buffer, and holds
    /// that buffer from then on.
    pub fn clone_to_view_mut(self) -> (r: Self)
        requires
            self.wf(),
        ensures
            r.wf(),
            Self::flushed(self, r),
            !(r is ToBeCloned),
            r.active()@ == self.active()@,
    {
        match self {
            ArrayOut::ToBeCloned(mut v, a) => {
                v.assign(&a);
                ArrayOut::ViewMut(v)
            },
            _ => self,
        }
    }

    /// The buffer the routine works on, writable in place through a pointer.
    /// Only that buffer's contents can change: the state, any caller buffer
    /// it shadows, and its length, stride and offset stay.
    pub fn data_mut(&mut self) -> (r: &mut [F])
        ensures
            r@ == old(self).active().buffer(),
            final(self).active().buffer() == final(r)@,
            *final(self) == old(self).with_active(final(self).active()),
            final(self).active().size() == old(self).active().size(),
            final(self).active().step() == old(self).active().step(),
            final(self).active().origin() == old(self).active().origin(),
            final(r)@.len() == r@.len() ==> final(self).active().wf() == old(self).active().wf(),
    {
        match self {
            ArrayOut::ViewMut(a) => a.as_mut_slice(),
            ArrayOut::Owned(a) => a.as_mut_slice(),
            ArrayOut::ToBeCloned(_, a) => a.as_mut_slice(),
        }
    }

    /// The values as one vector, after any flush: the caller's buffer where
    /// it is held (with the shadow's values written back), else the fresh one.
    pub fn into_owned(self) -> (r: Array1<F>)
        requires
            self.wf(),
        ensures
            r.wf(),
            r@ == self.active()@,
            r.size() == self.active().size(),
            self is Owned ==> r == self->Owned_0,
            !(self is Owned) ==> Self::flushed(self, ArrayOut::ViewMut(r)),
    {
        match self.clone_to_view_mut() {
            ArrayOut::ViewMut(v) => v,
            ArrayOut::Owned(a) => a,
            ArrayOut::ToBeCloned(_, a) => a,
        }
    }
}

/// Both results of a run, flushed, each as one array.
pub fn into_owned_pair<F: Copy, R: Copy>(out: (ArrayOut2<F>, ArrayOut1<R>)) -> (r: (Array2<F>, Array1<R>))
    requires
        out.0.wf(),
        out.1.wf(),
    ensures
        r.0.wf(),
        r.1.wf(),
        r.0@ == out.0.active()@,
        r.1@ == out.1.active()@,
{
    let (a, w) = out;
    (a.into_owned(), w.into_owned())
}

/// An input matrix, either only to be read or also to be overwritten with
/// the result.
#[derive(Debug)]
pub enum ArrayViewOrMut<'a, A> {
    /// Read only: the caller's buffer is never written.
    View(&'a A),
    /// Handed over: the result may be written into this buffer.
    ViewMut(A),
}

pub type ArrayViewOrMut1<'a, F> = ArrayViewOrMut<'a, Array1<F>>;

pub type ArrayViewOrMut2<'a, F> = ArrayViewOrMut<'a, Array2<F>>;

impl<'a, A> ArrayViewOrMut<'a, A> {
    /// The matrix, whichever way it was handed in.
    pub open spec fn array(&self) -> A {
        match self {
            ArrayViewOrMut::View(a) => **a,
            ArrayViewOrMut::ViewMut(a) => *a,
        }
    }

    pub fn view(&self) -> (r: &A)
        ensures
            *r == self.array(),
    {
        match self {
            ArrayViewOrMut::View(a) => a,
            ArrayViewOrMut::ViewMut(a) => a,
        }
    }
}

/// A matrix in a required layout: the original, borrowed, where it already
/// had that layout, else a fresh copy.
#[derive(Debug)]
pub enum CowArray<'a, A> {
    Borrowed(&'a A),
    Owned(A),
}

impl<'a, A> CowArray<'a, A> {
    pub open spec fn array(&self) -> A {
        match self {
            CowArray::Borrowed(a) => **a,
            CowArray::Owned(a) => *a,
        }
    }

    pub fn view(&self) -> (r: &A)
        ensures
            *r == self.array(),
    {
        match self {
            CowArray::Borrowed(a) => a,
            CowArray::Owned(a) => a,
        }
    }

    pub fn is_owned(&self) -> (r: bool)
        ensures
            r == (self is Owned),
    {
        match self {
            CowArray::Borrowed(_) => false,
            CowArray::Owned(_) => true,
        }
    }
}

/// `c` is `a` in a column-preferred form: `a` itself where it was
/// column-preferred, else a column-major copy; the values are the same.
pub open spec fn col_adapted<F>(a: Array2<F>, c: CowArray<Array2<F>>) -> bool {
    &&& c.array().wf()
    &&& c.array()@ == a@
    &&& c.array().rows() == a.rows()
    &&& c.array().cols() == a.cols()
    &&& (a.layout_spec().fpref() <==> c is Borrowed)
    &&& (c is Borrowed ==> c.array() == a)
    &&& (c is Owned ==> c.array().stride0() == 1 && c.array().stride1() == a.rows())
}

/// `c` is `a` in a row-preferred form: `a` itself where it was
/// row-preferred, else a row-major copy; the values are the same.
pub open spec fn row_adapted<F>(a: Array2<F>, c: CowArray<Array2<F>>) -> bool {
    &&& c.array().wf()
    &&& c.array()@ == a@
    &&& c.array().rows() == a.rows()
    &&& c.array().cols() == a.cols()
    &&& (a.layout_spec().cpref() <==> c is Borrowed)
    &&& (c is Borrowed ==> c.array() == a)
    &&& (c is Owned ==> c.array().stride0() == a.cols() && c.array().stride1() == 1)
}

/// A column-preferred form of `a`: `a` itself when it is column-preferred,
/// else a column-major copy, if the policy allows copies.
pub fn to_col_layout<'a, F: Copy>(a: &'a Array2<F>, policy: CopyPolicy) -> (r: Result<
    CowArray<'a, Array2<F>>,
    LapackError,
>)
    requires
        a.wf(),
    ensures
        r is Err <==> !a.layout_spec().fpref() && policy == CopyPolicy::Forbid,
        r is Err ==> r matches Err(LapackError::ExplicitCopy(_)),
        r matches Ok(c) ==> col_adapted(*a, c),
{
    if a.is_fpref() {
        Ok(CowArray::Borrowed(a))
    } else {
        check_copy(policy)?;
        Ok(CowArray::Owned(a.to_col_layout()))
    }
}

/// A row-preferred form of `a`: `a` itself when it is row-preferred, else a
/// row-major copy, if the policy allows copies.
pub fn to_row_layout<'a, F: Copy>(a: &'a Array2<F>, policy: CopyPolicy) -> (r: Result<
    CowArray<'a, Array2<F>>,
    LapackError,
>)
    requires
        a.wf(),
    ensures
        r is Err <==> !a.layout_spec().cpref() && policy == CopyPolicy::Forbid,
        r is Err ==> r matches Err(LapackError::ExplicitCopy(_)),
        r matches Ok(c) ==> row_adapted(*a, c),
{
    if a.is_cpref() {
        Ok(CowArray::Borrowed(a))
    } else {
        check_copy(policy)?;
        Ok(CowArray::Owned(a.to_row_layout()))
    }
}

/// A unit-stride form of `a`: `a` itself when it has a standard layout,
/// else a copy, if the policy allows copies.
pub fn to_seq_layout<'a, F: Copy>(a: &'a Array1<F>, policy: CopyPolicy) -> (r: Result<
    CowArray<'a, Array1<F>>,
    LapackError,
>)
    requires
        a.wf(),
    ensures
        r is Err <==> !a.standard() && policy == CopyPolicy::Forbid,
        r is Err ==> r matches Err(LapackError::ExplicitCopy(_)),
        r matches Ok(c) ==> {
            &&& c.array().wf()
            &&& c.array()@ == a@
            &&& c.array().standard()
            &&& (a.standard() <==> c is Borrowed)
        },
{
    if a.is_standard_layout() {
        Ok(CowArray::Borrowed(a))
    } else {
        check_copy(policy)?;
        Ok(CowArray::Owned(a.to_standard()))
    }
}

/// A column-preferred operand for a routine that takes a transpose flag.
/// Where `a` is column-preferred it is kept with its flag. Where its
/// transpose is (the same buffer with the strides swapped), that transpose
/// goes with the flipped flag, and the last result says whether the caller
/// must still conjugate the elements, which strides cannot express. Else a
/// column-major copy, if the policy allows it.
pub fn to_col_layout_by_transpose<F: Copy>(
    a: Array2<F>,
    trans: char,
    hermi: bool,
    policy: CopyPolicy,
) -> (r: Result<(Array2<F>, char, bool), LapackError>)
    requires
        a.wf(),
    ensures
        trans_flip(trans, hermi) is None ==> r matches Err(LapackError::InvalidFlag(_)),
        trans_flip(trans, hermi) is Some && a.layout_spec().fpref() ==> r == Ok::<
            (Array2<F>, char, bool),
            LapackError,
        >((a, trans, false)),
        trans_flip(trans, hermi) is Some && !a.layout_spec().fpref()
            && a.t_layout_spec().fpref() ==> (r matches Ok(t) && {
            let fl = trans_flip(trans, hermi)->Some_0;
            &&& t.0.wf()
            &&& t.0@ == crate::array::transpose(a@, a.rows(), a.cols())
            &&& t.0.layout_spec().fpref()
            &&& t.1 == fl
            &&& t.2 == (trans == 'C' || fl == 'C')
        }),
        trans_flip(trans, hermi) is Some && !a.layout_spec().fpref()
            && !a.t_layout_spec().fpref() ==> (r is Err <==> policy == CopyPolicy::Forbid),
        trans_flip(trans, hermi) is Some && !a.layout_spec().fpref()
            && !a.t_layout_spec().fpref() && r is Err ==> r matches Err(
            LapackError::ExplicitCopy(_),
        ),
        trans_flip(trans, hermi) is Some && !a.layout_spec().fpref()
            && !a.t_layout_spec().fpref() && r is Ok ==> (r matches Ok(t) && {
            &&& t.0.wf()
            &&& t.0@ == a@
            &&& t.0.stride0() == 1
            &&& t.0.stride1() == a.rows()
            &&& t.1 == trans
            &&& !t.2
        }),
{
    let flipped = flip_trans(trans, hermi)?;
    if a.is_fpref() {
        Ok((a, trans, false))
    } else if a.t_is_fpref() {
        let t = a.reversed_axes();
        Ok((t, flipped, trans == 'C' || flipped == 'C'))
    } else {
        check_copy(policy)?;
        Ok((a.to_col_layout(), trans, false))
    }
}

/// A row-preferred operand for a routine that takes a transpose flag.
/// Where `a` is row-preferred it is kept with its flag. Where its
/// transpose is (the same buffer with the strides swapped), that transpose
/// goes with the flipped flag, and the last result says whether the caller
/// must still conjugate the elements, which strides cannot express. Else a
/// row-major copy, if the policy allows it.
pub fn to_row_layout_by_transpose<F: Copy>(
    a: Array2<F>,
    trans: char,
    hermi: bool,
    policy: CopyPolicy,
) -> (r: Result<(Array2<F>, char, bool), LapackError>)
    requires
        a.wf(),
    ensures
        trans_flip(trans, hermi) is None ==> r matches Err(LapackError::InvalidFlag(_)),
        trans_flip(trans, hermi) is Some && a.layout_spec().cpref() ==> r == Ok::<
            (Array2<F>, char, bool),
            LapackError,
        >((a, trans, false)),
        trans_flip(trans, hermi) is Some && !a.layout_spec().cpref()
            && a.t_layout_spec().cpref() ==> (r matches Ok(t) && {
            let fl = trans_flip(trans, hermi)->Some_0;
            &&& t.0.wf()
            &&& t.0@ == crate::array::transpose(a@, a.rows(), a.cols())
            &&& t.0.layout_spec().cpref()
            &&& t.1 == fl
            &&& t.2 == (trans == 'C' || fl == 'C')
        }),
        trans_flip(trans, hermi) is Some && !a.layout_spec().cpref()
            && !a.t_layout_spec().cpref() ==> (r is Err <==> policy == CopyPolicy::Forbid),
        trans_flip(trans, hermi) is Some && !a.layout_spec().cpref()
            && !a.t_layout_spec().cpref() && r is Err ==> r matches Err(
            LapackError::ExplicitCopy(_),
        ),
        trans_flip(trans, hermi) is Some && !a.layout_spec().cpref()
            && !a.t_layout_spec().cpref() && r is Ok ==> (r matches Ok(t) && {
            &&& t.0.wf()
            &&& t.0@ == a@
            &&& t.0.stride0() == a.cols()
            &&& t.0.stride1() == 1
            &&& t.1 == trans
            &&& !t.2
        }),
{
    let flipped = flip_trans(trans, hermi)?;
    if a.is_cpref() {
        Ok((a, trans, false))
    } else if a.t_is_cpref() {
        let t = a.reversed_axes();
        Ok((t, flipped, trans == 'C' || flipped == 'C'))
    } else {
        check_copy(policy)?;
        Ok((a.to_row_layout(), trans, false))
    }
}

impl<'a, F: Copy> ArrayViewOrMut<'a, Array2<F>> {
    /// The output container for a routine that works in column-major order:
    /// a read-only input is copied; a handed-over buffer is used in place
    /// when column-preferred, else shadowed by a column-major copy.
    pub fn into_col_array_out(self, policy: CopyPolicy) -> (r: Result<ArrayOut2<F>, LapackError>)
        requires
            self.array().wf(),
        ensures
            r is Err <==> (self is ViewMut && !self.array().layout_spec().fpref() && policy
                == CopyPolicy::Forbid),
            r is Err ==> r matches Err(LapackError::ExplicitCopy(_)),
            r matches Ok(o) ==> {
                &&& o.wf()
                &&& o.active()@ == self.array()@
                &&& o.active().rows() == self.array().rows()
                &&& o.active().cols() == self.array().cols()
                &&& (self is View || !self.array().layout_spec().fpref()) ==> o.active().stride0()
                    == 1 && o.active().stride1() == o.active().rows()
                &&& (self is View ==> o is Owned)
                &&& (self is ViewMut && self.array().layout_spec().fpref() ==> o
                    == ArrayOut::ViewMut(self.array()))
                &&& (self is ViewMut && !self.array().layout_spec().fpref() ==> o is ToBeCloned
                    && o->ToBeCloned_0 == self.array())
            },
    {
        match self {
            ArrayViewOrMut::View(a) => Ok(ArrayOut::Owned(a.to_col_layout())),
            ArrayViewOrMut::ViewMut(a) => {
                if a.is_fpref() {
                    Ok(ArrayOut::ViewMut(a))
                } else {
                    check_copy(policy)?;
                    let shadow = a.to_col_layout();
                    Ok(ArrayOut::ToBeCloned(a, shadow))
                }
            },
        }
    }

    /// The output container for a routine that works in row-major order:
    /// a read-only input is copied; a handed-over buffer is used in place
    /// when row-preferred, else shadowed by a row-major copy.
    pub fn into_row_array_out(self, policy: CopyPolicy) -> (r: Result<ArrayOut2<F>, LapackError>)
        requires
            self.array().wf(),
        ensures
            r is Err <==> (self is ViewMut && !self.array().layout_spec().cpref() && policy
                == CopyPolicy::Forbid),
            r is Err ==> r matches Err(LapackError::ExplicitCopy(_)),
            r matches Ok(o) ==> {
                &&& o.wf()
                &&& o.active()@ == self.array()@
                &&& o.active().rows() == self.array().rows()
                &&& o.active().cols() == self.array().cols()
                &&& (self is View || !self.array().layout_spec().cpref()) ==> o.active().stride0()
                    == o.active().cols() && o.active().stride1() == 1
                &&& (self is View ==> o is Owned)
                &&& (self is ViewMut && self.array().layout_spec().cpref() ==> o
                    == ArrayOut::ViewMut(self.array()))
                &&& (self is ViewMut && !self.array().layout_spec().cpref() ==> o is ToBeCloned
                    && o->ToBeCloned_0 == self.array())
            },
    {
        match self {
            ArrayViewOrMut::View(a) => Ok(ArrayOut::Owned(a.to_row_layout())),
            ArrayViewOrMut::ViewMut(a) => {
                if a.is_cpref() {
                    Ok(ArrayOut::ViewMut(a))
                } else {
                    check_copy(policy)?;
                    let shadow = a.to_row_layout();
                    Ok(ArrayOut::ToBeCloned(a, shadow))
                }
            },
        }
    }
}

impl<'a, F: Copy> ArrayViewOrMut<'a, Array1<F>> {
    /// The output container for a routine that needs unit stride: a
    /// read-only input is copied; a handed-over buffer is used in place when
    /// it has a standard layout, else shadowed by a unit-stride copy.
    pub fn into_seq_array_out(self, policy: CopyPolicy) -> (r: Result<ArrayOut1<F>, LapackError>)
        requires
            self.array().wf(),
        ensures
            r is Err <==> (self is ViewMut && !self.array().standard() && policy
                == CopyPolicy::Forbid),
            r is Err ==> r matches Err(LapackError::ExplicitCopy(_)),
            r matches Ok(o) ==> {
                &&& o.wf()
                &&& o.active()@ == self.array()@
                &&& o.active().standard()
                &&& (self is View ==> o is Owned)
                &&& (self is ViewMut && self.array().standard() ==> o == ArrayOut::ViewMut(
                    self.array(),
                ))
                &&& (self is ViewMut && !self.array().standard() ==> o is ToBeCloned
                    && o->ToBeCloned_0 == self.array())
            },
    {
        match self {
            ArrayViewOrMut::View(a) => Ok(ArrayOut::Owned(a.to_standard())),
            ArrayViewOrMut::ViewMut(a) => {
                if a.is_standard_layout() {
                    Ok(ArrayOut::ViewMut(a))
                } else {
                    check_copy(policy)?;
                    let shadow = a.to_standard();
                    Ok(ArrayOut::ToBeCloned(a, shadow))
                }
            },
        }
    }
}

} // verus!

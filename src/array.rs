use vstd::prelude::*;

use crate::error::{message, LapackError};
use crate::flags::LapackLayout;

verus! {

/// Classification of a 2-D shape `(d0, d1)` with strides `(s0, s1)`: an empty
/// or single-element matrix is sequential, a unit column stride makes it
/// row-major, a unit row stride column-major, and anything else is
/// non-contiguous.
pub open spec fn layout_of(d0: int, d1: int, s0: int, s1: int) -> LapackLayout {
    if d0 == 0 || d1 == 0 {
        LapackLayout::Sequential
    } else if d0 == 1 && d1 == 1 {
        LapackLayout::Sequential
    } else if s1 == 1 {
        LapackLayout::RowMajor
    } else if s0 == 1 {
        LapackLayout::ColMajor
    } else {
        LapackLayout::NonContiguous
    }
}

/// Classifies a 2-D shape and its strides.
pub fn classify_layout(d0: usize, d1: usize, s0: isize, s1: isize) -> (r: LapackLayout)
    ensures
        r == layout_of(d0 as int, d1 as int, s0 as int, s1 as int),
{
    if d0 == 0 || d1 == 0 {
        LapackLayout::Sequential
    } else if d0 == 1 && d1 == 1 {
        LapackLayout::Sequential
    } else if s1 == 1 {
        LapackLayout::RowMajor
    } else if s0 == 1 {
        LapackLayout::ColMajor
    } else {
        LapackLayout::NonContiguous
    }
}

/// The layout of a matrix, from its shape and strides alone.
pub fn get_layout_array2<F: Copy>(arr: &Array2<F>) -> (r: LapackLayout)
    ensures
        r == arr.layout_spec(),
{
    arr.layout()
}

/// Strides under which no two positions of a `rows x cols` matrix share a slot:
/// one axis is degenerate, or one stride steps over a whole line of the other.
pub open spec fn separated(rows: int, cols: int, s0: int, s1: int) -> bool {
    ||| rows <= 1 && cols <= 1
    ||| rows <= 1 && s1 >= 1
    ||| cols <= 1 && s0 >= 1
    ||| s1 >= 1 && s0 >= cols * s1
    ||| s0 >= 1 && s1 >= rows * s0
}

/// The transpose of a matrix given as a sequence of rows.
pub open spec fn transpose<F>(m: Seq<Seq<F>>, rows: nat, cols: nat) -> Seq<Seq<F>> {
    Seq::new(cols, |j: int| Seq::new(rows, |i: int| m[i][j]))
}

/// A vector of `n` copies of `fill`.
pub fn filled_vec<F: Copy>(n: usize, fill: F) -> (r: Vec<F>)
    ensures
        r@.len() == n,
        forall|k: int| 0 <= k < n ==> #[trigger] r@[k] == fill,
{
    let mut r: Vec<F> = Vec::with_capacity(n);
    let mut k: usize = 0;
    while k < n
        invariant
            0 <= k <= n,
            r@.len() == k,
            forall|m: int| 0 <= m < k ==> #[trigger] r@[m] == fill,
        decreases n - k,
    {
        r.push(fill);
        k += 1;
    }
    r
}

/// A 2-D matrix held in a buffer with a shape, two strides and an offset: the
/// element at `(i, j)` lies at `offset + i * s0 + j * s1`.
#[derive(Debug, Clone)]
pub struct Array2<F> {
    data: Vec<F>,
    nrows: usize,
    ncols: usize,
    s0: usize,
    s1: usize,
    offset: usize,
}

impl<F> Array2<F> {
    pub closed spec fn rows(&self) -> nat {
        self.nrows as nat
    }

    pub closed spec fn cols(&self) -> nat {
        self.ncols as nat
    }

    pub closed spec fn stride0(&self) -> int {
        self.s0 as int
    }

    pub closed spec fn stride1(&self) -> int {
        self.s1 as int
    }

    /// The buffer the matrix lives in.
    pub closed spec fn buffer(&self) -> Seq<F> {
        self.data@
    }

    /// Where `(0, 0)` lies in the buffer.
    pub closed spec fn origin(&self) -> int {
        self.offset as int
    }

    pub closed spec fn idx(&self, i: int, j: int) -> int {
        self.offset + i * self.s0 + j * self.s1
    }

    pub closed spec fn at(&self, i: int, j: int) -> F {
        self.data@[self.idx(i, j)]
    }

    /// Distinct positions use distinct slots, all inside the buffer.
    pub closed spec fn wf(&self) -> bool {
        &&& separated(self.nrows as int, self.ncols as int, self.s0 as int, self.s1 as int)
        &&& (self.nrows == 0 || self.ncols == 0 || self.idx(self.nrows - 1, self.ncols - 1)
            < self.data@.len())
    }

    /// The layout that the shape and the strides give.
    pub open spec fn layout_spec(&self) -> LapackLayout {
        layout_of(self.rows() as int, self.cols() as int, self.stride0(), self.stride1())
    }

    /// The layout of the transpose: the shape and the strides swapped.
    pub open spec fn t_layout_spec(&self) -> LapackLayout {
        layout_of(self.cols() as int, self.rows() as int, self.stride1(), self.stride0())
    }

    proof fn lemma_in_bounds(&self, i: int, j: int)
        requires
            self.wf(),
            0 <= i < self.nrows,
            0 <= j < self.ncols,
        ensures
            0 <= i * self.s0,
            0 <= j * self.s1,
            0 <= self.idx(i, j) < self.data@.len(),
    {
        let (n, m, s0, s1) = (self.nrows as int, self.ncols as int, self.s0 as int, self.s1 as int);
        assert(0 <= i * s0 <= (n - 1) * s0) by (nonlinear_arith)
            requires
                0 <= i <= n - 1,
                0 <= s0,
        ;
        assert(0 <= j * s1 <= (m - 1) * s1) by (nonlinear_arith)
            requires
                0 <= j <= m - 1,
                0 <= s1,
        ;
    }

    proof fn lemma_distinct(&self, i: int, j: int, i2: int, j2: int)
        requires
            self.wf(),
            0 <= i < self.nrows,
            0 <= j < self.ncols,
            0 <= i2 < self.nrows,
            0 <= j2 < self.ncols,
            i != i2 || j != j2,
        ensures
            self.idx(i, j) != self.idx(i2, j2),
    {
        let (n, m, s0, s1) = (self.nrows as int, self.ncols as int, self.s0 as int, self.s1 as int);
        if s0 >= 1 && s1 >= n * s0 {
            assert(n * s0 >= s0) by (nonlinear_arith)
                requires
                    n >= 1,
                    s0 >= 1,
            ;
        }
        if s1 >= 1 && s0 >= m * s1 {
            assert(m * s1 >= s1) by (nonlinear_arith)
                requires
                    m >= 1,
                    s1 >= 1,
            ;
        }
        if i == i2 {
            assert(j * s1 != j2 * s1) by (nonlinear_arith)
                requires
                    j != j2,
                    s1 >= 1 || m <= 1,
                    0 <= j < m,
                    0 <= j2 < m,
            ;
        } else if j == j2 {
            assert(i * s0 != i2 * s0) by (nonlinear_arith)
                requires
                    i != i2,
                    s0 >= 1 || n <= 1,
                    0 <= i < n,
                    0 <= i2 < n,
            ;
        } else if s1 >= 1 && s0 >= m * s1 {
            assert(i * s0 + j * s1 != i2 * s0 + j2 * s1) by (nonlinear_arith)
                requires
                    i != i2,
                    s1 >= 1,
                    s0 >= m * s1,
                    0 <= j < m,
                    0 <= j2 < m,
            {
                if i > i2 {
                    assert((i - i2) * s0 >= s0);
                    assert((j2 - j) * s1 < m * s1);
                } else {
                    assert((i2 - i) * s0 >= s0);
                    assert((j - j2) * s1 < m * s1);
                }
            }
        } else {
            assert(i * s0 + j * s1 != i2 * s0 + j2 * s1) by (nonlinear_arith)
                requires
                    j != j2,
                    s0 >= 1,
                    s1 >= n * s0,
                    0 <= i < n,
                    0 <= i2 < n,
            {
                if j > j2 {
                    assert((j - j2) * s1 >= s1);
                    assert((i2 - i) * s0 < n * s0);
                } else {
                    assert((j2 - j) * s1 >= s1);
                    assert((i - i2) * s0 < n * s0);
                }
            }
        }
    }

    proof fn lemma_size(&self)
        requires
            self.wf(),
        ensures
            self.nrows * self.ncols <= self.data@.len(),
    {
        let (n, m, s0, s1) = (self.nrows as int, self.ncols as int, self.s0 as int, self.s1 as int);
        if n == 0 || m == 0 {
            assert(n * m == 0) by (nonlinear_arith)
                requires
                    n == 0 || m == 0,
            ;
        } else if n <= 1 && m <= 1 {
            assert(n * m == 1) by (nonlinear_arith)
                requires
                    n == 1,
                    m == 1,
            ;
        } else if n <= 1 && s1 >= 1 {
            assert(n * m <= (n - 1) * s0 + (m - 1) * s1 + 1) by (nonlinear_arith)
                requires
                    n == 1,
                    s1 >= 1,
                    m >= 1,
            ;
        } else if m <= 1 && s0 >= 1 {
            assert(n * m <= (n - 1) * s0 + (m - 1) * s1 + 1) by (nonlinear_arith)
                requires
                    m == 1,
                    s0 >= 1,
                    n >= 1,
            ;
        } else if s1 >= 1 && s0 >= m * s1 {
            assert(n * m <= (n - 1) * s0 + (m - 1) * s1 + 1) by (nonlinear_arith)
                requires
                    n >= 1,
                    m >= 1,
                    s1 >= 1,
                    s0 >= m * s1,
            {
                assert((n - 1) * s0 >= (n - 1) * (m * s1));
                assert(m * s1 >= m);
                assert((n - 1) * (m * s1) >= (n - 1) * m);
                assert((m - 1) * s1 >= m - 1);
            }
        } else {
            assert(n * m <= (n - 1) * s0 + (m - 1) * s1 + 1) by (nonlinear_arith)
                requires
                    n >= 1,
                    m >= 1,
                    s0 >= 1,
                    s1 >= n * s0,
            {
                assert((m - 1) * s1 >= (m - 1) * (n * s0));
                assert(n * s0 >= n);
                assert((m - 1) * (n * s0) >= (m - 1) * n);
                assert((n - 1) * s0 >= n - 1);
            }
        }
    }

    /// A well-formed column-major matrix of two or more rows and columns
    /// has unit row stride and a column stride of at least its row count.
    pub proof fn lemma_col_major_lda(&self)
        requires
            self.wf(),
            self.layout_spec() == LapackLayout::ColMajor,
            self.rows() >= 2,
            self.cols() >= 2,
        ensures
            self.stride0() == 1,
            self.stride1() >= self.rows(),
    {
        let (n, m, s0, s1) = (self.nrows as int, self.ncols as int, self.s0 as int, self.s1 as int);
        if s1 >= 1 && s0 >= m * s1 {
            assert(m * s1 >= 2) by (nonlinear_arith)
                requires
                    m >= 2,
                    s1 >= 1,
            ;
        }
        assert(s1 >= n * s0);
    }
}

impl<F: Copy> Array2<F> {
    /// Wraps a buffer that holds `nrows x ncols` values row by row.
    pub fn from_row_major(data: Vec<F>, nrows: usize, ncols: usize) -> (r: Result<Self, LapackError>)
        ensures
            data@.len() == nrows * ncols <==> r is Ok,
            r is Err ==> r matches Err(LapackError::InvalidDim(_)),
            r matches Ok(a) ==> {
                &&& a.wf()
                &&& a.rows() == nrows
                &&& a.cols() == ncols
                &&& a.stride0() == ncols as int
                &&& a.stride1() == 1
                &&& a.buffer() == data@
                &&& forall|i: int, j: int|
                    0 <= i < nrows && 0 <= j < ncols ==> #[trigger] a@[i][j] == data@[i * ncols + j]
            },
    {
        let n_data = data.len();
        let fits = match nrows.checked_mul(ncols) {
            Some(len) => len == n_data,
            None => false,
        };
        if fits {
            {
                let a = Array2 { data, nrows, ncols, s0: ncols, s1: 1, offset: 0 };
                proof {
                    if nrows > 0 && ncols > 0 {
                        assert((nrows - 1) * ncols + (ncols - 1) < nrows * ncols) by (nonlinear_arith)
                            requires
                                nrows >= 1,
                                ncols >= 1,
                        ;
                    }
                    assert(separated(nrows as int, ncols as int, ncols as int, 1int));
                }
                Ok(a)
            }
        } else {
            Err(LapackError::InvalidDim(message("buffer length differs from nrows * ncols")))
        }
    }

    /// Wraps a buffer that holds `nrows x ncols` values column by column.
    pub fn from_col_major(data: Vec<F>, nrows: usize, ncols: usize) -> (r: Result<Self, LapackError>)
        ensures
            data@.len() == nrows * ncols <==> r is Ok,
            r is Err ==> r matches Err(LapackError::InvalidDim(_)),
            r matches Ok(a) ==> {
                &&& a.wf()
                &&& a.rows() == nrows
                &&& a.cols() == ncols
                &&& a.stride0() == 1
                &&& a.stride1() == nrows as int
                &&& a.buffer() == data@
                &&& forall|i: int, j: int|
                    0 <= i < nrows && 0 <= j < ncols ==> #[trigger] a@[i][j] == data@[i + j * nrows]
            },
    {
        let n_data = data.len();
        let fits = match nrows.checked_mul(ncols) {
            Some(len) => len == n_data,
            None => false,
        };
        if fits {
            {
                let a = Array2 { data, nrows, ncols, s0: 1, s1: nrows, offset: 0 };
                proof {
                    if nrows > 0 && ncols > 0 {
                        assert((nrows - 1) + (ncols - 1) * nrows < nrows * ncols) by (nonlinear_arith)
                            requires
                                nrows >= 1,
                                ncols >= 1,
                        ;
                    }
                    assert(separated(nrows as int, ncols as int, 1int, nrows as int));
                }
                Ok(a)
            }
        } else {
            Err(LapackError::InvalidDim(message("buffer length differs from nrows * ncols")))
        }
    }

    /// Wraps a buffer as a strided view: `(i, j)` lies at `offset + i * s0 + j * s1`.
    /// Refused where two positions would share a slot or one would fall
    /// outside the buffer.
    pub fn from_strided(data: Vec<F>, nrows: usize, ncols: usize, s0: usize, s1: usize, offset: usize)
        -> (r: Result<Self, LapackError>)
        ensures
            ({
                &&& separated(nrows as int, ncols as int, s0 as int, s1 as int)
                &&& (nrows == 0 || ncols == 0 || offset + (nrows - 1) * s0 + (ncols - 1) * s1
                    < data@.len())
            }) <==> r is Ok,
            r is Err ==> r matches Err(LapackError::InvalidDim(_)),
            r matches Ok(a) ==> {
                &&& a.wf()
                &&& a.rows() == nrows
                &&& a.cols() == ncols
                &&& a.stride0() == s0 as int
                &&& a.stride1() == s1 as int
                &&& a.buffer() == data@
                &&& a.origin() == offset as int
                &&& forall|i: int, j: int|
                    0 <= i < nrows && 0 <= j < ncols ==> #[trigger] a@[i][j] == data@[offset + i
                        * s0 + j * s1]
            },
    {
        let n_data = data.len();
        let row_step = match ncols.checked_mul(s1) {
            Some(p) => s1 >= 1 && s0 >= p,
            None => false,
        };
        let col_step = match nrows.checked_mul(s0) {
            Some(p) => s0 >= 1 && s1 >= p,
            None => false,
        };
        let sep = (nrows <= 1 && ncols <= 1) || (nrows <= 1 && s1 >= 1) || (ncols <= 1 && s0 >= 1)
            || row_step || col_step;
        let fits = if nrows == 0 || ncols == 0 {
            true
        } else {
            match ((nrows - 1).checked_mul(s0), (ncols - 1).checked_mul(s1)) {
                (Some(a), Some(b)) => match a.checked_add(b) {
                    Some(c) => match c.checked_add(offset) {
                        Some(last) => last < n_data,
                        None => false,
                    },
                    None => false,
                },
                _ => false,
            }
        };
        proof {
            if nrows > 0 && ncols > 0 {
                assert(0 <= (nrows - 1) * s0) by (nonlinear_arith)
                    requires
                        nrows >= 1,
                ;
                assert(0 <= (ncols - 1) * s1) by (nonlinear_arith)
                    requires
                        ncols >= 1,
                ;
            }
        }
        if sep && fits {
            Ok(Array2 { data, nrows, ncols, s0, s1, offset })
        } else {
            Err(LapackError::InvalidDim(message("strides overlap or leave the buffer")))
        }
    }

    /// `(nrows, ncols)`.
    pub fn dim(&self) -> (r: (usize, usize))
        ensures
            r.0 == self.rows(),
            r.1 == self.cols(),
    {
        (self.nrows, self.ncols)
    }

    pub fn nrows(&self) -> (r: usize)
        ensures
            r == self.rows(),
    {
        self.nrows
    }

    pub fn ncols(&self) -> (r: usize)
        ensures
            r == self.cols(),
    {
        self.ncols
    }

    /// `(s0, s1)`.
    pub fn strides(&self) -> (r: (usize, usize))
        ensures
            r.0 == self.stride0(),
            r.1 == self.stride1(),
    {
        (self.s0, self.s1)
    }

    /// Where `(0, 0)` lies in the buffer.
    pub fn offset(&self) -> (r: usize)
        ensures
            r == self.origin(),
    {
        self.offset
    }

    /// The whole buffer, read-only.
    pub fn as_slice(&self) -> (r: &[F])
        ensures
            r@ == self.buffer(),
    {
        self.data.as_slice()
    }

    /// Gives the buffer back with the shape, the strides and the offset:
    /// `(data, nrows, ncols, s0, s1, offset)`.
    pub fn into_raw_parts(self) -> (r: (Vec<F>, usize, usize, usize, usize, usize))
        ensures
            r.0@ == self.buffer(),
            r.1 == self.rows(),
            r.2 == self.cols(),
            r.3 == self.stride0(),
            r.4 == self.stride1(),
            r.5 == self.origin(),
    {
        (self.data, self.nrows, self.ncols, self.s0, self.s1, self.offset)
    }

    /// The whole buffer, writable in place, for a routine that fills it
    /// through a pointer. A slice cannot change its length, so the matrix
    /// stays well formed.
    pub fn as_mut_slice(&mut self) -> (r: &mut [F])
        ensures
            r@ == old(self).buffer(),
            final(r)@.len() == r@.len() ==> final(self).wf() == old(self).wf(),
            final(self).rows() == old(self).rows(),
            final(self).cols() == old(self).cols(),
            final(self).stride0() == old(self).stride0(),
            final(self).stride1() == old(self).stride1(),
            final(self).origin() == old(self).origin(),
            final(self).buffer() == final(r)@,
    {
        self.data.as_mut_slice()
    }

    pub fn get(&self, i: usize, j: usize) -> (r: F)
        requires
            self.wf(),
            i < self.rows(),
            j < self.cols(),
        ensures
            r == self@[i as int][j as int],
    {
        let _n = self.data.len();
        proof {
            self.lemma_in_bounds(i as int, j as int);
        }
        self.data[self.offset + i * self.s0 + j * self.s1]
    }

    pub fn set(&mut self, i: usize, j: usize, v: F)
        requires
            old(self).wf(),
            i < old(self).rows(),
            j < old(self).cols(),
        ensures
            final(self).wf(),
            final(self).rows() == old(self).rows(),
            final(self).cols() == old(self).cols(),
            final(self).stride0() == old(self).stride0(),
            final(self).stride1() == old(self).stride1(),
            final(self).origin() == old(self).origin(),
            final(self).buffer().len() == old(self).buffer().len(),
            final(self)@ == old(self)@.update(i as int, old(self)@[i as int].update(j as int, v)),
    {
        let _n = self.data.len();
        proof {
            self.lemma_in_bounds(i as int, j as int);
        }
        let k = self.offset + i * self.s0 + j * self.s1;
        let ghost before = *self;
        self.data.set(k, v);
        proof {
            assert forall|a: int, b: int|
                0 <= a < before.nrows && 0 <= b < before.ncols && (a != i || b != j) implies self.at(
                a,
                b,
            ) == before.at(a, b) by {
                before.lemma_distinct(a, b, i as int, j as int);
                before.lemma_in_bounds(a, b);
            }
            assert(self@ =~~= before@.update(i as int, before@[i as int].update(j as int, v)));
        }
    }

    /// A fresh column-major `nrows x ncols` matrix with every entry `fill`.
    pub fn filled_col(nrows: usize, ncols: usize, fill: F) -> (r: Self)
        requires
            nrows * ncols <= usize::MAX,
        ensures
            r.wf(),
            r.rows() == nrows,
            r.cols() == ncols,
            r.stride0() == 1,
            r.stride1() == nrows as int,
            forall|i: int, j: int| 0 <= i < nrows && 0 <= j < ncols ==> #[trigger] r@[i][j] == fill,
    {
        let data = filled_vec(nrows * ncols, fill);
        let r = Array2 { data, nrows, ncols, s0: 1, s1: nrows, offset: 0 };
        proof {
            if nrows > 0 && ncols > 0 {
                assert((nrows - 1) + (ncols - 1) * nrows < nrows * ncols) by (nonlinear_arith)
                    requires
                        nrows >= 1,
                        ncols >= 1,
                ;
            }
            assert(separated(nrows as int, ncols as int, 1int, nrows as int));
            assert forall|i: int, j: int| 0 <= i < nrows && 0 <= j < ncols implies #[trigger] r@[i][j]
                == fill by {
                r.lemma_in_bounds(i, j);
                assert(r.data@[r.idx(i, j)] == fill);
            }
        }
        r
    }

    /// A fresh row-major `nrows x ncols` matrix with every entry `fill`.
    pub fn filled_row(nrows: usize, ncols: usize, fill: F) -> (r: Self)
        requires
            nrows * ncols <= usize::MAX,
        ensures
            r.wf(),
            r.rows() == nrows,
            r.cols() == ncols,
            r.stride0() == ncols as int,
            r.stride1() == 1,
            forall|i: int, j: int| 0 <= i < nrows && 0 <= j < ncols ==> #[trigger] r@[i][j] == fill,
    {
        let data = filled_vec(nrows * ncols, fill);
        let r = Array2 { data, nrows, ncols, s0: ncols, s1: 1, offset: 0 };
        proof {
            if nrows > 0 && ncols > 0 {
                assert((nrows - 1) * ncols + (ncols - 1) < nrows * ncols) by (nonlinear_arith)
                    requires
                        nrows >= 1,
                        ncols >= 1,
                ;
            }
            assert(separated(nrows as int, ncols as int, ncols as int, 1int));
            assert forall|i: int, j: int| 0 <= i < nrows && 0 <= j < ncols implies #[trigger] r@[i][j]
                == fill by {
                r.lemma_in_bounds(i, j);
                assert(r.data@[r.idx(i, j)] == fill);
            }
        }
        r
    }

    /// Writes the values of `src` into this matrix, in its own layout and
    /// buffer.
    pub fn assign(&mut self, src: &Self)
        requires
            old(self).wf(),
            src.wf(),
            src.rows() == old(self).rows(),
            src.cols() == old(self).cols(),
        ensures
            final(self).wf(),
            final(self).rows() == old(self).rows(),
            final(self).cols() == old(self).cols(),
            final(self).stride0() == old(self).stride0(),
            final(self).stride1() == old(self).stride1(),
            final(self).origin() == old(self).origin(),
            final(self).buffer().len() == old(self).buffer().len(),
            final(self)@ == src@,
    {
        let n = self.nrows;
        let m = self.ncols;
        let ghost s0 = self.s0;
        let ghost s1 = self.s1;
        let ghost off = self.offset;
        let ghost blen = self.data@.len();
        let mut j: usize = 0;
        while j < m
            invariant
                self.wf(),
                self.nrows == n,
                self.ncols == m,
                self.s0 == s0,
                self.s1 == s1,
                self.offset == off,
                self.data@.len() == blen,
                src.wf(),
                src.rows() == n,
                src.cols() == m,
                0 <= j <= m,
                forall|a: int, b: int| 0 <= a < n && 0 <= b < j ==> #[trigger] self@[a][b] == src@[a][b],
            decreases m - j,
        {
            let mut i: usize = 0;
            while i < n
                invariant
                    self.wf(),
                    self.nrows == n,
                    self.ncols == m,
                    self.s0 == s0,
                    self.s1 == s1,
                    self.offset == off,
                    self.data@.len() == blen,
                    src.wf(),
                    src.rows() == n,
                    src.cols() == m,
                    0 <= j < m,
                    0 <= i <= n,
                    forall|a: int, b: int|
                        0 <= a < n && 0 <= b < j ==> #[trigger] self@[a][b] == src@[a][b],
                    forall|a: int| 0 <= a < i ==> #[trigger] self@[a][j as int] == src@[a][j as int],
                decreases n - i,
            {
                let v = src.get(i, j);
                self.set(i, j, v);
                i += 1;
            }
            j += 1;
        }
        proof {
            assert(self@ =~~= src@);
        }
    }

    /// A fresh column-major copy with the same values.
    pub fn to_col_layout(&self) -> (r: Self)
        requires
            self.wf(),
        ensures
            r.wf(),
            r.rows() == self.rows(),
            r.cols() == self.cols(),
            r.stride0() == 1,
            r.stride1() == self.rows() as int,
            r@ == self@,
    {
        let _n = self.data.len();
        proof {
            self.lemma_size();
        }
        if self.nrows == 0 || self.ncols == 0 {
            let r = Array2 {
                data: Vec::new(),
                nrows: self.nrows,
                ncols: self.ncols,
                s0: 1,
                s1: self.nrows,
                offset: 0,
            };
            proof {
                assert(r@ =~~= self@);
            }
            return r;
        }
        let mut r = Self::filled_col(self.nrows, self.ncols, self.get(0, 0));
        r.assign(self);
        r
    }

    /// A fresh row-major copy with the same values.
    pub fn to_row_layout(&self) -> (r: Self)
        requires
            self.wf(),
        ensures
            r.wf(),
            r.rows() == self.rows(),
            r.cols() == self.cols(),
            r.stride0() == self.cols() as int,
            r.stride1() == 1,
            r@ == self@,
    {
        let _n = self.data.len();
        proof {
            self.lemma_size();
        }
        if self.nrows == 0 || self.ncols == 0 {
            let r = Array2 {
                data: Vec::new(),
                nrows: self.nrows,
                ncols: self.ncols,
                s0: self.ncols,
                s1: 1,
                offset: 0,
            };
            proof {
                assert(r@ =~~= self@);
            }
            return r;
        }
        let mut r = Self::filled_row(self.nrows, self.ncols, self.get(0, 0));
        r.assign(self);
        r
    }

    /// The transpose, on the same buffer: the shape and the strides swap.
    pub fn reversed_axes(self) -> (r: Self)
        requires
            self.wf(),
        ensures
            r.wf(),
            r.rows() == self.cols(),
            r.cols() == self.rows(),
            r.stride0() == self.stride1(),
            r.stride1() == self.stride0(),
            r.buffer() == self.buffer(),
            r@ == transpose(self@, self.rows(), self.cols()),
    {
        let ghost old_self = self;
        let r = Array2 {
            data: self.data,
            nrows: self.ncols,
            ncols: self.nrows,
            s0: self.s1,
            s1: self.s0,
            offset: self.offset,
        };
        proof {
            assert(r.idx(r.nrows - 1, r.ncols - 1) == old_self.idx(
                old_self.nrows - 1,
                old_self.ncols - 1,
            ));
            assert forall|i: int, j: int| 0 <= i < r.nrows && 0 <= j < r.ncols implies r.idx(i, j)
                == old_self.idx(j, i) by {}
            assert(r@ =~~= transpose(old_self@, old_self.rows(), old_self.cols()));
        }
        r
    }

    /// The values, row by row.
    pub fn to_rows(&self) -> (r: Vec<Vec<F>>)
        requires
            self.wf(),
        ensures
            r@.len() == self.rows(),
            forall|i: int| 0 <= i < self.rows() ==> #[trigger] r@[i]@ == self@[i],
    {
        let mut r: Vec<Vec<F>> = Vec::new();
        let mut i: usize = 0;
        while i < self.nrows
            invariant
                self.wf(),
                0 <= i <= self.nrows,
                r@.len() == i,
                forall|a: int| 0 <= a < i ==> #[trigger] r@[a]@ == self@[a],
            decreases self.nrows - i,
        {
            let mut row: Vec<F> = Vec::new();
            let mut j: usize = 0;
            while j < self.ncols
                invariant
                    self.wf(),
                    0 <= i < self.nrows,
                    0 <= j <= self.ncols,
                    row@.len() == j,
                    forall|b: int| 0 <= b < j ==> #[trigger] row@[b] == self@[i as int][b],
                decreases self.ncols - j,
            {
                row.push(self.get(i, j));
                j += 1;
            }
            proof {
                assert(row@ =~= self@[i as int]);
            }
            r.push(row);
            i += 1;
        }
        r
    }

    /// The layout that the shape and the strides give.
    pub fn layout(&self) -> (r: LapackLayout)
        ensures
            r == self.layout_spec(),
    {
        // only whether a stride is one matters to the classification
        let t0: isize = if self.s0 == 1 { 1 } else { 0 };
        let t1: isize = if self.s1 == 1 { 1 } else { 0 };
        classify_layout(self.nrows, self.ncols, t0, t1)
    }

    /// Whether the transpose (strides swapped) is row-preferred.
    pub fn t_is_cpref(&self) -> (r: bool)
        ensures
            r == self.t_layout_spec().cpref(),
    {
        let t0: isize = if self.s0 == 1 {
            1
        } else {
            0
        };
        let t1: isize = if self.s1 == 1 {
            1
        } else {
            0
        };
        classify_layout(self.ncols, self.nrows, t1, t0).is_cpref()
    }

    /// Whether the transpose (strides swapped) is column-preferred.
    pub fn t_is_fpref(&self) -> (r: bool)
        ensures
            r == self.t_layout_spec().fpref(),
    {
        let t0: isize = if self.s0 == 1 {
            1
        } else {
            0
        };
        let t1: isize = if self.s1 == 1 {
            1
        } else {
            0
        };
        classify_layout(self.ncols, self.nrows, t1, t0).is_fpref()
    }

    /// Row-preferred: row-major or sequential.
    pub fn is_cpref(&self) -> (r: bool)
        ensures
            r == self.layout_spec().cpref(),
    {
        self.layout().is_cpref()
    }

    /// Column-preferred: column-major or sequential.
    pub fn is_fpref(&self) -> (r: bool)
        ensures
            r == self.layout_spec().fpref(),
    {
        self.layout().is_fpref()
    }
}

impl<F> View for Array2<F> {
    type V = Seq<Seq<F>>;

    /// The matrix as a sequence of rows.
    open spec fn view(&self) -> Seq<Seq<F>> {
        Seq::new(self.rows(), |i: int| Seq::new(self.cols(), |j: int| self.at(i, j)))
    }
}

} // verus!

verus! {

/// A 1-D vector held in a buffer with a length, a stride and an offset: the
/// element at `i` lies at `offset + i * stride`.
#[derive(Debug, Clone)]
pub struct Array1<F> {
    data: Vec<F>,
    len: usize,
    stride: usize,
    offset: usize,
}

impl<F> Array1<F> {
    pub closed spec fn size(&self) -> nat {
        self.len as nat
    }

    pub closed spec fn step(&self) -> int {
        self.stride as int
    }

    /// The buffer the vector lives in.
    pub closed spec fn buffer(&self) -> Seq<F> {
        self.data@
    }

    /// Where element `0` lies in the buffer.
    pub closed spec fn origin(&self) -> int {
        self.offset as int
    }

    pub closed spec fn idx(&self, i: int) -> int {
        self.offset + i * self.stride
    }

    pub closed spec fn at(&self, i: int) -> F {
        self.data@[self.idx(i)]
    }

    /// Distinct positions use distinct slots, all inside the buffer.
    pub closed spec fn wf(&self) -> bool {
        &&& (self.len <= 1 || self.stride >= 1)
        &&& (self.len == 0 || self.idx(self.len - 1) < self.data@.len())
    }

    /// Standard layout: unit stride, or at most one element.
    pub open spec fn standard(&self) -> bool {
        self.size() <= 1 || self.step() == 1
    }

    proof fn lemma_in_bounds(&self, i: int)
        requires
            self.wf(),
            0 <= i < self.len,
        ensures
            0 <= i * self.stride,
            0 <= self.idx(i) < self.data@.len(),
    {
        assert(0 <= i * self.stride <= (self.len - 1) * self.stride) by (nonlinear_arith)
            requires
                0 <= i <= self.len - 1,
                0 <= self.stride,
        ;
    }

    proof fn lemma_distinct(&self, i: int, k: int)
        requires
            self.wf(),
            0 <= i < self.len,
            0 <= k < self.len,
            i != k,
        ensures
            self.idx(i) != self.idx(k),
    {
        assert(i * self.stride != k * self.stride) by (nonlinear_arith)
            requires
                i != k,
                self.stride >= 1,
        ;
    }
}

impl<F> View for Array1<F> {
    type V = Seq<F>;

    open spec fn view(&self) -> Seq<F> {
        Seq::new(self.size(), |i: int| self.at(i))
    }
}

impl<F: Copy> Array1<F> {
    /// Wraps a whole buffer with unit stride.
    pub fn from_vec(data: Vec<F>) -> (r: Self)
        ensures
            r.wf(),
            r.size() == data@.len(),
            r.step() == 1,
            r@ == data@,
            r.buffer() == data@,
    {
        let len = data.len();
        let r = Array1 { data, len, stride: 1, offset: 0 };
        proof {
            assert(r@ =~= r.data@);
        }
        r
    }

    /// Wraps a buffer as a strided view: `i` lies at `offset + i * stride`.
    /// Refused where two positions would share a slot or one would fall
    /// outside the buffer.
    pub fn from_strided(data: Vec<F>, len: usize, stride: usize, offset: usize) -> (r: Result<
        Self,
        LapackError,
    >)
        ensures
            ((len <= 1 || stride >= 1) && (len == 0 || offset + (len - 1) * stride < data@.len()))
                <==> r is Ok,
            r is Err ==> r matches Err(LapackError::InvalidDim(_)),
            r matches Ok(a) ==> {
                &&& a.wf()
                &&& a.size() == len
                &&& a.step() == stride as int
                &&& a.buffer() == data@
                &&& a.origin() == offset as int
                &&& forall|i: int| 0 <= i < len ==> #[trigger] a@[i] == data@[offset + i * stride]
            },
    {
        let n_data = data.len();
        let fits = if len == 0 {
            true
        } else {
            match (len - 1).checked_mul(stride) {
                Some(a) => match a.checked_add(offset) {
                    Some(last) => last < n_data,
                    None => false,
                },
                None => false,
            }
        };
        proof {
            if len > 0 {
                assert(0 <= (len - 1) * stride) by (nonlinear_arith)
                    requires
                        len >= 1,
                ;
            }
        }
        if (len <= 1 || stride >= 1) && fits {
            Ok(Array1 { data, len, stride, offset })
        } else {
            Err(LapackError::InvalidDim(message("strides overlap or leave the buffer")))
        }
    }

    /// A fresh vector of `n` copies of `fill`.
    pub fn filled(n: usize, fill: F) -> (r: Self)
        ensures
            r.wf(),
            r.size() == n,
            r.step() == 1,
            forall|i: int| 0 <= i < n ==> #[trigger] r@[i] == fill,
    {
        Self::from_vec(filled_vec(n, fill))
    }

    pub fn len(&self) -> (r: usize)
        ensures
            r == self.size(),
    {
        self.len
    }

    pub fn stride(&self) -> (r: usize)
        ensures
            r == self.step(),
    {
        self.stride
    }

    /// Where element `0` lies in the buffer.
    pub fn offset(&self) -> (r: usize)
        ensures
            r == self.origin(),
    {
        self.offset
    }

    /// The whole buffer, read-only.
    pub fn as_slice(&self) -> (r: &[F])
        ensures
            r@ == self.buffer(),
    {
        self.data.as_slice()
    }

    /// Gives the buffer back with the length, the stride and the offset:
    /// `(data, len, stride, offset)`.
    pub fn into_raw_parts(self) -> (r: (Vec<F>, usize, usize, usize))
        ensures
            r.0@ == self.buffer(),
            r.1 == self.size(),
            r.2 == self.step(),
            r.3 == self.origin(),
    {
        (self.data, self.len, self.stride, self.offset)
    }

    /// The whole buffer, writable in place, for a routine that fills it
    /// through a pointer. A slice cannot change its length, so the vector
    /// stays well formed.
    pub fn as_mut_slice(&mut self) -> (r: &mut [F])
        ensures
            r@ == old(self).buffer(),
            final(r)@.len() == r@.len() ==> final(self).wf() == old(self).wf(),
            final(self).origin() == old(self).origin(),
            final(self).size() == old(self).size(),
            final(self).step() == old(self).step(),
            final(self).buffer() == final(r)@,
    {
        self.data.as_mut_slice()
    }

    pub fn is_standard_layout(&self) -> (r: bool)
        ensures
            r == self.standard(),
    {
        self.len <= 1 || self.stride == 1
    }

    pub fn get(&self, i: usize) -> (r: F)
        requires
            self.wf(),
            i < self.size(),
        ensures
            r == self@[i as int],
    {
        let _n = self.data.len();
        proof {
            self.lemma_in_bounds(i as int);
        }
        self.data[self.offset + i * self.stride]
    }

    pub fn set(&mut self, i: usize, v: F)
        requires
            old(self).wf(),
            i < old(self).size(),
        ensures
            final(self).wf(),
            final(self).size() == old(self).size(),
            final(self).step() == old(self).step(),
            final(self).origin() == old(self).origin(),
            final(self).buffer().len() == old(self).buffer().len(),
            final(self)@ == old(self)@.update(i as int, v),
    {
        let _n = self.data.len();
        proof {
            self.lemma_in_bounds(i as int);
        }
        let k = self.offset + i * self.stride;
        let ghost before = *self;
        self.data.set(k, v);
        proof {
            assert forall|a: int| 0 <= a < before.len && a != i implies self.at(a) == before.at(a) by {
                before.lemma_distinct(a, i as int);
                before.lemma_in_bounds(a);
            }
            assert(self@ =~= before@.update(i as int, v));
        }
    }

    /// Writes the values of `src` into this vector, in its own layout and
    /// buffer.
    pub fn assign(&mut self, src: &Self)
        requires
            old(self).wf(),
            src.wf(),
            src.size() == old(self).size(),
        ensures
            final(self).wf(),
            final(self).size() == old(self).size(),
            final(self).step() == old(self).step(),
            final(self).origin() == old(self).origin(),
            final(self).buffer().len() == old(self).buffer().len(),
            final(self)@ == src@,
    {
        let n = self.len;
        let ghost stride = self.stride;
        let ghost off = self.offset;
        let ghost blen = self.data@.len();
        let mut i: usize = 0;
        while i < n
            invariant
                self.wf(),
                self.len == n,
                self.stride == stride,
                self.offset == off,
                self.data@.len() == blen,
                src.wf(),
                src.size() == n,
                0 <= i <= n,
                forall|a: int| 0 <= a < i ==> #[trigger] self@[a] == src@[a],
            decreases n - i,
        {
            let v = src.get(i);
            self.set(i, v);
            i += 1;
        }
        proof {
            assert(self@ =~= src@);
        }
    }

    /// A fresh unit-stride copy with the same values.
    pub fn to_standard(&self) -> (r: Self)
        requires
            self.wf(),
        ensures
            r.wf(),
            r.size() == self.size(),
            r.step() == 1,
            r@ == self@,
            r.buffer() == self@,
    {
        let mut v: Vec<F> = Vec::new();
        let mut i: usize = 0;
        while i < self.len
            invariant
                self.wf(),
                0 <= i <= self.len,
                v@.len() == i,
                forall|a: int| 0 <= a < i ==> #[trigger] v@[a] == self@[a],
            decreases self.len - i,
        {
            v.push(self.get(i));
            i += 1;
        }
        proof {
            assert(v@ =~= self@);
        }
        Self::from_vec(v)
    }

    /// The values in order.
    pub fn to_vec(&self) -> (r: Vec<F>)
        requires
            self.wf(),
        ensures
            r@ == self@,
    {
        let s = self.to_standard();
        proof {
            assert(s.data@ == s.buffer());
        }
        s.data
    }
}

} // verus!

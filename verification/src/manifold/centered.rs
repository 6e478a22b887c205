//! Euclidean space of centered real matrices, manopt
//! `centeredmatrixfactory`. A point is an `m x n` real matrix packed
//! row-major as length `m*n`. `'cols'` removes the mean column
//! (`X 1_n = 0`), `'rows'` the mean row (`1_m^T X = 0`). A linear
//! subspace, not the sphere and not a 3N cluster packing.

use vstd::prelude::*;

use super::dim::{dim_check, dim_verdict, product_len};
use super::packing::{copy_vec, Dense};

verus! {

/// Which mean manopt subtracts. Default is [`CenterMode::Cols`].
#[derive(Clone, Copy, Debug, PartialEq, Eq, Structural)]
pub enum CenterMode {
    /// Mean column is zero: `X * 1_n = 0`. manopt `'cols'`.
    Cols,
    /// Mean row is zero: `1_m^T * X = 0`. manopt `'rows'`.
    Rows,
}

impl Default for CenterMode {
    fn default() -> (r: Self)
        ensures
            r == CenterMode::Cols,
    {
        CenterMode::Cols
    }
}

/// Centered `m x n` matrices. Packed row-major, length `m*n`.
#[derive(Clone, Copy, Debug, PartialEq, Eq, Structural)]
pub struct CenteredMatrix {
    /// Number of rows. manopt `m`.
    pub m: usize,
    /// Number of columns. manopt `n`.
    pub n: usize,
    /// Which mean is removed.
    pub mode: CenterMode,
}

impl Default for CenteredMatrix {
    fn default() -> (r: Self)
        ensures
            r.m == 2 && r.n == 2 && r.mode == CenterMode::Cols,
    {
        CenteredMatrix { m: 2, n: 2, mode: CenterMode::Cols }
    }
}

impl CenteredMatrix {
    /// Centered `m x n` matrices under `mode`.
    pub fn new(m: usize, n: usize, mode: CenterMode) -> (r: Self)
        ensures
            r.m == m && r.n == n && r.mode == mode,
    {
        CenteredMatrix { m, n, mode }
    }

    /// manopt `centeredmatrixfactory(m, n)` / `'cols'`.
    pub fn cols(m: usize, n: usize) -> (r: Self)
        ensures
            r.m == m && r.n == n && r.mode == CenterMode::Cols,
    {
        Self::new(m, n, CenterMode::Cols)
    }

    /// manopt `centeredmatrixfactory(m, n, 'rows')`.
    pub fn rows(m: usize, n: usize) -> (r: Self)
        ensures
            r.m == m && r.n == n && r.mode == CenterMode::Rows,
    {
        Self::new(m, n, CenterMode::Rows)
    }

    /// Packed length `m*n`, or `None` on overflow.
    pub fn packed_len(self) -> (r: Option<usize>)
        ensures
            r == product_len(self.m, self.n),
    {
        self.m.checked_mul(self.n)
    }

    /// `len` is a legal packing of this shape.
    pub fn fits(self, len: usize) -> (r: bool)
        ensures
            r <==> self.m >= 1 && self.n >= 1 && len == self.m * self.n,
    {
        self.m >= 1 && self.n >= 1 && self.packed_len() == Some(len)
    }

    /// `Ok` when `dim == m*n` with `m, n >= 1`, otherwise the length
    /// this shape wants.
    pub fn required_dim(&self, dim: usize) -> (r: Result<(), usize>)
        ensures
            r == dim_verdict(product_len(self.m, self.n), self.m >= 1 && self.n >= 1, dim),
            r is Ok <==> self.m >= 1 && self.n >= 1 && dim == self.m * self.n,
    {
        dim_check(self.packed_len(), self.m >= 1 && self.n >= 1, dim)
    }

    /// Row-major flatten of an m-by-n matrix.
    pub fn pack<T: Copy>(mat: &Dense<T>) -> (r: Vec<T>)
        ensures
            r@ == mat.data@,
    {
        copy_vec(&mat.data)
    }

    /// Inverse of [`CenteredMatrix::pack`] for this `(m, n)`.
    pub fn unpack<T: Copy>(self, x: &Vec<T>) -> (r: Option<Dense<T>>)
        ensures
            r is Some <==> self.m >= 1 && self.n >= 1 && x@.len() == self.m * self.n,
            r matches Some(mat) ==> mat.rows == self.m && mat.cols == self.n && mat.data@ == x@
                && mat.wf(),
    {
        match unpack(self.m, self.n, x) {
            Some(a) => Some(Dense { rows: self.m, cols: self.n, data: a }),
            None => None,
        }
    }
}

/// Flatten a row-major m-by-n matrix into the ambient vector.
pub fn pack<T>(m: usize, n: usize, a: Vec<T>) -> (r: Vec<T>)
    ensures
        r@ == a@,
{
    a
}

/// Row-major entries of a length-`m*n` ambient vector; `None` unless
/// `m, n >= 1` and the length matches.
pub fn unpack<T: Copy>(m: usize, n: usize, x: &Vec<T>) -> (r: Option<Vec<T>>)
    ensures
        r is Some <==> m >= 1 && n >= 1 && x@.len() == m * n,
        r matches Some(a) ==> a@ == x@,
{
    if m < 1 || n < 1 || m.checked_mul(n) != Some(x.len()) {
        return None;
    }
    Some(copy_vec(x))
}

} // verus!

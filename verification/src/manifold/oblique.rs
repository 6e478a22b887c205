//! Oblique manifold, manopt `obliquefactory`: a product of `m` unit
//! spheres in \(\mathbb{R}^n\). A point is an n-by-m matrix with
//! unit-norm columns packed column-major (length `n*m`). Not a 3N
//! cluster.

use vstd::prelude::*;

use super::dim::{dim_check, dim_verdict, product_len};
use super::packing::{column_major, filled, from_column_major, is_column_major, Dense};

verus! {

/// Product of `m` unit spheres in \(\mathbb{R}^n\).
#[derive(Clone, Copy, Debug, PartialEq, Eq, Structural)]
pub struct Oblique {
    /// Ambient dimension of each sphere (column length).
    pub n: usize,
    /// Number of unit-norm columns.
    pub m: usize,
}

impl Default for Oblique {
    fn default() -> (r: Self)
        ensures
            r.n == 2 && r.m == 2,
    {
        Oblique { n: 2, m: 2 }
    }
}

impl Oblique {
    /// Product of `m` spheres in \(\mathbb{R}^n\).
    pub fn new(n: usize, m: usize) -> (r: Self)
        ensures
            r.n == n && r.m == m,
    {
        Oblique { n, m }
    }

    /// Packed length `n*m`, or `None` on overflow.
    pub fn packed_len(self) -> (r: Option<usize>)
        ensures
            r == product_len(self.n, self.m),
    {
        self.n.checked_mul(self.m)
    }

    /// `len` is a legal packing: `n >= 2`, `m >= 1`, `len == n*m`.
    pub fn fits(self, len: usize) -> (r: bool)
        ensures
            r <==> self.n >= 2 && self.m >= 1 && len == self.n * self.m,
    {
        self.n >= 2 && self.m >= 1 && self.packed_len() == Some(len)
    }

    /// `Ok` when `dim == n*m` with `n >= 2`, `m >= 1`, otherwise the
    /// length this shape wants.
    pub fn required_dim(&self, dim: usize) -> (r: Result<(), usize>)
        ensures
            r == dim_verdict(product_len(self.n, self.m), self.n >= 2 && self.m >= 1, dim),
            r is Ok <==> self.n >= 2 && self.m >= 1 && dim == self.n * self.m,
    {
        dim_check(self.packed_len(), self.n >= 2 && self.m >= 1, dim)
    }

    /// Column-major flatten of an n-by-m matrix (manopt `X(:)`).
    pub fn pack<T: Copy>(mat: &Dense<T>) -> (r: Vec<T>)
        requires
            mat.wf(),
        ensures
            is_column_major(*mat, r@),
    {
        column_major(mat)
    }

    /// Inverse of [`Oblique::pack`] for this `(n, m)`. A vector that is
    /// not a legal packing gives the `n x m` matrix of `zero`.
    pub fn unpack<T: Copy>(&self, x: &Vec<T>, zero: T) -> (r: Dense<T>)
        requires
            self.n * self.m <= usize::MAX,
        ensures
            r.wf(),
            r.rows == self.n,
            r.cols == self.m,
            self.n >= 2 && self.m >= 1 && x@.len() == self.n * self.m ==> is_column_major(r, x@),
            !(self.n >= 2 && self.m >= 1 && x@.len() == self.n * self.m) ==> r.data@ == Seq::new(
                (self.n * self.m) as nat,
                |k: int| zero,
            ),
    {
        if !self.fits(x.len()) {
            let data = filled(zero, self.n * self.m);
            return Dense { rows: self.n, cols: self.m, data };
        }
        from_column_major(self.n, self.m, x)
    }
}

} // verus!

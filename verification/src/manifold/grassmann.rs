//! Real Grassmannian \(\mathrm{Gr}(n,p)\), manopt `grassmannfactory`.
//! A point is an n-by-p orthonormal frame packed column-major (length
//! `n*p`, manopt `X(:)`). Only the column space matters. Not the sphere
//! and not a 3N cluster; `p` is named on the type because the length
//! `n*p` does not name it.

use vstd::prelude::*;

use super::dim::{dim_check, dim_verdict, product_len};
use super::packing::{column_major, filled, from_column_major, is_column_major, Dense};

verus! {

/// Real Grassmann \(\mathrm{Gr}(n,p)\), `n >= p >= 1`.
#[derive(Clone, Copy, Debug, PartialEq, Eq, Structural)]
pub struct Grassmann {
    /// Ambient dimension.
    pub n: usize,
    /// Subspace dimension.
    pub p: usize,
}

impl Default for Grassmann {
    fn default() -> (r: Self)
        ensures
            r.n == 2 && r.p == 1,
    {
        Grassmann { n: 2, p: 1 }
    }
}

impl Grassmann {
    /// Frame \(\mathrm{Gr}(n,p)\). Illegal pairs fail [`Grassmann::required_dim`].
    pub fn new(n: usize, p: usize) -> (r: Self)
        ensures
            r.n == n && r.p == p,
    {
        Grassmann { n, p }
    }

    /// Packed length `n*p`, or `None` on overflow.
    pub fn packed_len(self) -> (r: Option<usize>)
        ensures
            r == product_len(self.n, self.p),
    {
        self.n.checked_mul(self.p)
    }

    /// `len` is a legal packing: `n >= p >= 1`, `len == n*p`.
    pub fn fits(self, len: usize) -> (r: bool)
        ensures
            r <==> self.n >= self.p && self.p >= 1 && len == self.n * self.p,
    {
        self.n >= self.p && self.p >= 1 && self.packed_len() == Some(len)
    }

    /// `Ok` when `dim == n*p` with `n >= p >= 1`, otherwise the
    /// length this shape wants.
    pub fn required_dim(&self, dim: usize) -> (r: Result<(), usize>)
        ensures
            r == dim_verdict(product_len(self.n, self.p), self.n >= self.p && self.p >= 1, dim),
            r is Ok <==> self.n >= self.p && self.p >= 1 && dim == self.n * self.p,
    {
        dim_check(self.packed_len(), self.n >= self.p && self.p >= 1, dim)
    }

    /// Column-major flatten of an n-by-p frame (manopt `X(:)`).
    pub fn pack<T: Copy>(mat: &Dense<T>) -> (r: Vec<T>)
        requires
            mat.wf(),
        ensures
            is_column_major(*mat, r@),
    {
        column_major(mat)
    }

    /// Inverse of [`Grassmann::pack`] for this `(n, p)`. A vector that is
    /// not a legal packing gives the `n x p` matrix of `zero`.
    pub fn unpack<T: Copy>(&self, x: &Vec<T>, zero: T) -> (r: Dense<T>)
        requires
            self.n * self.p <= usize::MAX,
        ensures
            r.wf(),
            r.rows == self.n,
            r.cols == self.p,
            self.n >= self.p && self.p >= 1 && x@.len() == self.n * self.p ==> is_column_major(r, x@),
            !(self.n >= self.p && self.p >= 1 && x@.len() == self.n * self.p) ==> r.data@ == Seq::new(
                (self.n * self.p) as nat,
                |k: int| zero,
            ),
    {
        if !self.fits(x.len()) {
            let data = filled(zero, self.n * self.p);
            return Dense { rows: self.n, cols: self.p, data };
        }
        from_column_major(self.n, self.p, x)
    }
}

} // verus!

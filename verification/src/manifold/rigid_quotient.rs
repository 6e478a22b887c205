//! Isolated-molecule shape space \(R^{3N}/\mathrm{SE}(3)\) (Sella
//! Cartesian `fix_translation` plus `fix_rotation`). A point is a 3N
//! cluster with at least two atoms.

use vstd::prelude::*;

verus! {

/// `len` is a 3N packing with `N >= 2`.
pub open spec fn is_cluster_len(len: int) -> bool {
    len >= 6 && len % 3 == 0
}

/// Horizontal lift of \(R^{3N}/\mathrm{SE}(3)\). Unit-mass Eckart.
#[derive(Clone, Copy, Debug, Default)]
pub struct RigidQuotient;

impl RigidQuotient {
    /// `Ok` for a 3N cluster with `N >= 2`, otherwise `Err(dim)`.
    pub fn required_dim(&self, dim: usize) -> (r: Result<(), usize>)
        ensures
            r is Ok <==> is_cluster_len(dim as int),
            r is Err ==> r == Err::<(), usize>(dim),
            r == (if is_cluster_len(dim as int) {
                Ok(())
            } else {
                Err::<(), usize>(dim)
            }),
    {
        if dim >= 6 && dim % 3 == 0 {
            Ok(())
        } else {
            Err(dim)
        }
    }
}

} // verus!

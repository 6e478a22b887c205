//! Mass-weighted \(R^{3N}/\mathrm{SE}(3)\) (Eckart / Page-McIver), the
//! IRC metric on the same quotient as [`super::rigid_quotient`]. A
//! point is a 3N cluster with at least two atoms.

use vstd::prelude::*;

use super::rigid_quotient::is_cluster_len;

verus! {

/// Eckart frame. Unit mass here; the session supplies real masses.
#[derive(Clone, Copy, Debug, Default)]
pub struct MwRigid;

impl MwRigid {
    /// `Ok` for a 3N cluster with `N >= 2`, otherwise `Err(dim)`.
    pub fn required_dim(&self, dim: usize) -> (r: Result<(), usize>)
        ensures
            r is Ok <==> is_cluster_len(dim as int),
            r is Err ==> r == Err::<(), usize>(dim),
            r == (if is_cluster_len(dim as int) {
                Ok(())
            } else {
                Err::<(), usize>(dim)
            }),
    {
        if dim >= 6 && dim % 3 == 0 {
            Ok(())
        } else {
            Err(dim)
        }
    }
}

} // verus!

//! Product of 0-spheres `{+1, -1}^n` (manopt `realphasefactory`),
//! packed as the sign vector itself.

use vstd::prelude::*;

verus! {

/// Product of `n` copies of `S^0`. Packed length `n`.
#[derive(Clone, Copy, Debug, Default)]
pub struct RealPhase;

impl RealPhase {
    /// Every nonempty sign vector is a point; the empty one is refused
    /// with the smallest legal length, 1.
    pub fn required_dim(&self, len: usize) -> (r: Result<(), usize>)
        ensures
            r is Ok <==> len >= 1,
            r matches Err(want) ==> want == 1,
    {
        if len >= 1 {
            Ok(())
        } else {
            Err(1)
        }
    }
}

} // verus!

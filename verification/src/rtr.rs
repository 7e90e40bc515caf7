//! Stop reasons of the truncated conjugate-gradient iteration of the
//! Riemannian trust-region method (Absil, Baker, Gallivan 2007).

use vstd::prelude::*;

verus! {

/// Why the truncated CG iteration stopped.
#[derive(Clone, Copy, Debug, PartialEq, Eq)]
pub enum TcgStop {
    /// The model has negative curvature along the search direction; the
    /// step was followed to the trust boundary.
    NegativeCurvature,
    /// The CG iterate left the trust ball; the step was cut at the boundary.
    Boundary,
    /// The residual met the inner stopping rule
    /// `||r_j|| <= ||r_0|| min(||r_0||^theta, kappa)`.
    Residual,
    /// The iteration budget ran out.
    MaxIter,
    /// The projected gradient is zero: nothing to do.
    ZeroGradient,
}

} // verus!

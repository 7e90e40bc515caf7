//! Ambient Euclidean space (manopt `euclideanfactory` on a rank-1
//! vector). Projection and transport are the identity.

use vstd::prelude::*;

verus! {

/// Unconstrained Euclidean geometry.
#[derive(Clone, Copy, Debug, Default)]
pub struct Euclidean;

} // verus!

//! Unit sphere `S^{n-1}` in the ambient Euclidean metric.

use vstd::prelude::*;

verus! {

/// Unit sphere in the ambient Euclidean metric.
#[derive(Clone, Copy, Debug, Default)]
pub struct Sphere;

} // verus!

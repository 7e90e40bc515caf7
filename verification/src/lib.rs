//! Integer and token logic of a Riemannian / quasi-Newton minimizer:
//! closed backend tokens, manifold packing dimensions and layouts, and
//! the fail-closed dispatch of the lowest-eigenpair waist.

pub mod box_objective;
pub mod dlaf_kind;
pub mod eigenexa_kind;
pub mod elpa_kind;
pub mod error;
pub mod highs_kind;
pub mod lowest_mode;
pub mod manifold;
pub mod rtr;
pub mod slepc_eps;

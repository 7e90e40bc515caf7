//! Closed DLA-Future range tokens, so that a host can name the
//! partial-spectrum window without a linked DLA-Future.

use vstd::prelude::*;

verus! {

/// Typed DLA-Future extras. `begin` is the first eigenpair index; only
/// `begin == 0` is accepted.
#[derive(Clone, Copy, Debug, PartialEq, Eq)]
pub struct DlaFutureParams {
    /// First index of the requested window. Must be 0.
    pub begin: usize,
}

impl Default for DlaFutureParams {
    /// The window starting at the first pair.
    fn default() -> (r: Self)
        ensures
            r.begin == 0,
    {
        DlaFutureParams { begin: 0 }
    }
}

} // verus!

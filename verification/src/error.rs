//! Errors that the integer side of the eigensolver waist answers with.

use vstd::prelude::*;

use crate::lowest_mode::EigensolverKind;

verus! {

/// Why a lowest-eigenpair request was refused.
#[derive(Clone, Copy, Debug, PartialEq, Eq)]
pub enum Error {
    /// A length does not match the dimension it must have.
    Dim {
        /// The length that was passed.
        got: usize,
        /// The length that was expected.
        dim: usize,
    },
    /// The backend is named by the schema but not linked into this build.
    EigenUnavailable {
        /// The refused backend.
        kind: EigensolverKind,
    },
    /// The backend only computes the full spectrum, and fewer pairs
    /// than the dimension were requested.
    EigenFullSpectrum {
        /// The refused backend.
        kind: EigensolverKind,
        /// Pairs requested.
        nev: usize,
        /// Problem dimension.
        n: usize,
    },
    /// The partial-spectrum window does not start at the first pair.
    EigenBegin {
        /// The refused backend.
        kind: EigensolverKind,
        /// The requested first pair.
        begin: usize,
    },
    /// A dense distributed backend was asked for a problem below its cutoff.
    EigenDenseCutoff {
        /// The refused backend.
        kind: EigensolverKind,
        /// Problem dimension.
        n: usize,
        /// Smallest dimension the backend accepts.
        cutoff: usize,
    },
    /// A call into a linked backend returned a nonzero status.
    Oracle {
        /// The backend call that failed.
        what: &'static str,
    },
}

} // verus!

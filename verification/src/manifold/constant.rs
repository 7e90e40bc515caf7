//! Singleton manifold `{A}` of one fixed point (manopt
//! `constantfactory(A)`), packed as the point itself, length `n >= 1`.

use vstd::prelude::*;

verus! {

/// Singleton `{A}` of packed length `n >= 1`.
#[derive(Clone, Copy, Debug, PartialEq, Eq)]
pub struct Constant {
    /// Ambient length of the fixed point.
    pub n: usize,
}

impl Default for Constant {
    /// A singleton of length 1.
    fn default() -> (r: Self)
        ensures
            r == (Constant { n: 1 }),
    {
        Constant { n: 1 }
    }
}

impl Constant {
    /// A packed vector of length `len` is the point of this factory.
    pub open spec fn spec_fits(self, len: usize) -> bool {
        self.n >= 1 && self.n == len
    }

    /// A singleton of length `n`. `n == 0` is kept here and refused by
    /// [`Constant::required_dim`].
    pub fn new(n: usize) -> (r: Self)
        ensures
            r == (Constant { n }),
    {
        Constant { n }
    }

    /// Whether a length-`len` vector is the packed point.
    pub fn fits(self, len: usize) -> (r: bool)
        ensures
            r == self.spec_fits(len),
    {
        self.n >= 1 && self.n == len
    }

    /// `Ok` exactly when `len` fits; otherwise `n`, or 1 for the
    /// illegal empty singleton.
    pub fn required_dim(&self, len: usize) -> (r: Result<(), usize>)
        ensures
            r is Ok <==> self.spec_fits(len),
            r matches Err(want) ==> want == (if self.n >= 1 { self.n } else { 1 }),
    {
        if self.n >= 1 && len == self.n {
            Ok(())
        } else if self.n >= 1 {
            Err(self.n)
        } else {
            Err(1)
        }
    }
}

} // verus!

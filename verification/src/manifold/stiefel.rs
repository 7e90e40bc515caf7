//! Stiefel manifold `St(n, p)` of orthonormal `n x p` frames.
//!
//! `p = 1` ([`Stiefel`]) is a length-`n` unit vector. `p > 1`
//! ([`StiefelNp`]) is packed column-major, length `n p`; the length
//! alone does not name `p`.

use vstd::prelude::*;
use vstd::slice::slice_to_vec;

verus! {

/// Stiefel with `p = 1`, packed as a length-`n` unit vector.
#[derive(Clone, Copy, Debug, Default)]
pub struct Stiefel;

impl Stiefel {
    /// A unit vector of any length is a frame with one column, so every
    /// length is accepted; the length alone does not name `p`.
    pub fn required_dim(&self, len: usize) -> (r: Result<(), usize>)
        ensures
            r is Ok,
    {
        Ok(())
    }
}

/// Stiefel `St(n, p)` for `p > 1`. Packed column-major, length `n p`.
#[derive(Clone, Copy, Debug, PartialEq, Eq)]
pub struct StiefelNp {
    /// Rows of the frame.
    pub n: usize,
    /// Orthonormal columns. Must be `> 1`.
    pub p: usize,
}

impl StiefelNp {
    /// `n p` when it fits a `usize`.
    pub open spec fn spec_packed_len(self) -> Option<usize> {
        if self.n * self.p <= usize::MAX {
            Some((self.n * self.p) as usize)
        } else {
            None
        }
    }

    /// The shape is legal: `n >= p >= 2`.
    pub open spec fn spec_legal(self) -> bool {
        self.n >= self.p && self.p >= 2
    }

    /// A packed vector of length `len` is a point of this factory.
    pub open spec fn spec_fits(self, len: usize) -> bool {
        self.spec_legal() && self.n * self.p == len
    }

    /// `St(n, p)` with `n >= p >= 2`; any other shape is returned as the error.
    pub fn new(n: usize, p: usize) -> (r: Result<Self, (usize, usize)>)
        ensures
            (n >= p && p >= 2) ==> r == Ok::<Self, (usize, usize)>(StiefelNp { n, p }),
            !(n >= p && p >= 2) ==> r == Err::<Self, (usize, usize)>((n, p)),
    {
        if n >= p && p >= 2 {
            Ok(StiefelNp { n, p })
        } else {
            Err((n, p))
        }
    }

    /// Packed length `n p`, or `None` on overflow.
    pub fn packed_len(self) -> (r: Option<usize>)
        ensures
            r == self.spec_packed_len(),
    {
        self.n.checked_mul(self.p)
    }

    /// Whether a length-`len` vector is a packed point of this factory.
    pub fn fits(self, len: usize) -> (r: bool)
        ensures
            r == self.spec_fits(len),
    {
        self.n >= self.p && self.p >= 2 && self.packed_len() == Some(len)
    }

    /// `Ok` exactly when `len` fits; otherwise the length this factory
    /// wants, or `len` itself when `n p` overflows.
    pub fn required_dim(&self, len: usize) -> (r: Result<(), usize>)
        ensures
            r is Ok <==> self.spec_fits(len),
            r matches Err(want) ==> want == (match self.spec_packed_len() {
                Some(p) => p,
                None => len,
            }),
    {
        match self.packed_len() {
            Some(want) => {
                if self.n >= self.p && self.p >= 2 && len == want {
                    Ok(())
                } else {
                    Err(want)
                }
            },
            None => Err(len),
        }
    }

    /// Column-major `n x p` frame as a length-`n p` token; `None` unless
    /// its length fits this factory.
    pub fn pack<T: Copy>(&self, frame: &[T]) -> (r: Option<Vec<T>>)
        ensures
            r is Some <==> self.spec_fits(frame@.len() as usize),
            r matches Some(v) ==> v@ == frame@,
    {
        if !self.fits(frame.len()) {
            return None;
        }
        Some(slice_to_vec(frame))
    }

    /// Column-major storage of a packed point or tangent; `None` unless
    /// its length fits this factory.
    pub fn unpack<T: Copy>(&self, x: &[T]) -> (r: Option<Vec<T>>)
        ensures
            r is Some <==> self.spec_fits(x@.len() as usize),
            r matches Some(v) ==> v@ == x@,
    {
        if !self.fits(x.len()) {
            return None;
        }
        Some(slice_to_vec(x))
    }
}

} // verus!

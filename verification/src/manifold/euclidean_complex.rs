//! Complex Euclidean space `C^n` (manopt `euclideancomplexfactory(n)`), packed as `n` interleaved `(re, im)` pairs, length `2 n`.

use vstd::prelude::*;

use super::sphere_complex::{self, evens, interleave, odds};

verus! {

/// Complex Euclidean `C^n` as `n` interleaved real-imaginary pairs.
#[derive(Clone, Copy, Debug, PartialEq, Eq)]
pub struct EuclideanComplex {
    /// Number of complex entries.
    pub n: usize,
}

impl Default for EuclideanComplex {
    /// One complex entry.
    fn default() -> (r: Self)
        ensures
            r == (EuclideanComplex { n: 1 }),
    {
        EuclideanComplex { n: 1 }
    }
}

impl EuclideanComplex {
    /// `2 n` when it fits a `usize`.
    pub open spec fn spec_packed_len(self) -> Option<usize> {
        if self.n * 2 <= usize::MAX {
            Some((self.n * 2) as usize)
        } else {
            None
        }
    }

    /// A packed vector of length `len` is a point of this factory.
    pub open spec fn spec_fits(self, len: usize) -> bool {
        self.n >= 1 && self.n * 2 == len
    }

    /// `n` complex entries. `n == 0` is kept here and refused by
    /// [`EuclideanComplex::required_dim`].
    pub fn new(n: usize) -> (r: Self)
        ensures
            r == (EuclideanComplex { n }),
    {
        EuclideanComplex { n }
    }

    /// Packed length `2 n`, or `None` on overflow.
    pub fn packed_len(self) -> (r: Option<usize>)
        ensures
            r == self.spec_packed_len(),
    {
        self.n.checked_mul(2)
    }

    /// Whether a length-`len` vector is a packed point of this factory.
    pub fn fits(self, len: usize) -> (r: bool)
        ensures
            r == self.spec_fits(len),
    {
        self.n >= 1 && self.packed_len() == Some(len)
    }

    /// `Ok` exactly when `len` fits; otherwise the length this factory
    /// wants, or `len` itself when `2 n` overflows.
    pub fn required_dim(&self, len: usize) -> (r: Result<(), usize>)
        ensures
            r is Ok <==> self.spec_fits(len),
            r matches Err(want) ==> want == (match self.spec_packed_len() {
                Some(p) => p,
                None => len,
            }),
    {
        match self.packed_len() {
            Some(want) => {
                if self.n >= 1 && len == want {
                    Ok(())
                } else {
                    Err(want)
                }
            },
            None => Err(len),
        }
    }

    /// Interleaved pack of real and imaginary parts, over their common
    /// length (the packing of [`sphere_complex::pack`]).
    pub fn pack<T: Copy>(re: &[T], im: &[T]) -> (r: Vec<T>)
        ensures
            r@ == interleave(re@, im@),
    {
        sphere_complex::pack(re, im)
    }

    /// Split a packed vector into `(re, im)`; `None` if its length is odd.
    pub fn unpack<T: Copy>(x: &[T]) -> (r: Option<(Vec<T>, Vec<T>)>)
        ensures
            r is None <==> x@.len() % 2 != 0,
            r matches Some(p) ==> p.0@ == evens(x@) && p.1@ == odds(x@),
    {
        sphere_complex::unpack(x)
    }
}

} // verus!

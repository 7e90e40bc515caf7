//! Doubly-stochastic `n x n` matrices with the Fisher metric (manopt
//! `multinomialdoublystochasticfactory`), packed row-major, length
//! `n^2` with `n >= 2`.

use vstd::prelude::*;
use vstd::slice::slice_to_vec;

verus! {

/// Birkhoff polytope, Fisher information metric.
#[derive(Clone, Copy, Debug)]
pub struct MultinomialDoublyStochastic {
    /// Side length. Packed length is `n * n`.
    pub n: usize,
}

impl MultinomialDoublyStochastic {
    /// A packed vector of length `len` is a point of this factory.
    pub open spec fn spec_fits(self, len: usize) -> bool {
        self.n >= 2 && self.n * self.n == len
    }

    /// The side that a refused length is measured against: `n`, raised
    /// to the smallest legal side 2.
    pub open spec fn spec_legal_side(self) -> int {
        if self.n >= 2 { self.n as int } else { 2 }
    }

    /// Whether a length-`len` vector is a packed point of this factory.
    pub fn fits(&self, len: usize) -> (r: bool)
        requires
            self.n * self.n <= usize::MAX,
        ensures
            r == self.spec_fits(len),
    {
        self.n >= 2 && len == self.n * self.n
    }

    /// `Ok` exactly when `len` fits; otherwise `max(n, 2)^2`.
    pub fn required_dim(&self, len: usize) -> (r: Result<(), usize>)
        requires
            self.n * self.n <= usize::MAX,
        ensures
            r is Ok <==> self.spec_fits(len),
            r matches Err(want) ==> want == self.spec_legal_side() * self.spec_legal_side(),
    {
        if self.fits(len) {
            Ok(())
        } else {
            let side: usize = if self.n >= 2 { self.n } else { 2 };
            proof {
                if self.n >= 2 {
                    assert(side * side <= usize::MAX);
                }
            }
            Err(side * side)
        }
    }

    /// Row-major flatten (manopt `M.vec`) of a `rows x cols` matrix given
    /// row-major: the packing keeps the order of the entries.
    pub fn pack<T: Copy>(rows: usize, cols: usize, a: &[T]) -> (r: Vec<T>)
        requires
            a@.len() == rows * cols,
        ensures
            r@ == a@,
    {
        slice_to_vec(a)
    }

    /// Inverse of [`MultinomialDoublyStochastic::pack`] for this side:
    /// the row-major `n x n` entries of a length-`n^2` packing, and the
    /// all-`zero` matrix for any other length.
    pub fn unpack<T: Copy>(&self, packed: &[T], zero: T) -> (r: Vec<T>)
        requires
            self.n * self.n <= usize::MAX,
        ensures
            packed@.len() == self.n * self.n ==> r@ == packed@,
            packed@.len() != self.n * self.n ==> r@ == Seq::new(
                (self.n * self.n) as nat,
                |_p: int| zero,
            ),
    {
        let nn = self.n * self.n;
        if packed.len() == nn {
            return slice_to_vec(packed);
        }
        let mut out: Vec<T> = Vec::new();
        let mut k: usize = 0;
        while k < nn
            invariant
                k <= nn,
                out@.len() == k,
                forall|p: int| 0 <= p < k ==> #[trigger] out@[p] == zero,
            decreases nn - k,
        {
            out.push(zero);
            k = k + 1;
        }
        assert(out@ =~= Seq::new((self.n * self.n) as nat, |_p: int| zero));
        out
    }
}

} // verus!

//! Symmetric doubly-stochastic `n x n` matrices with the Fisher metric
//! (manopt `multinomialsymmetricfactory`), packed row-major, length
//! `n^2` with `n >= 2`.

use vstd::prelude::*;

use super::lemma_square_strictly_increases;
use super::so_n::{self, square_side};
use vstd::slice::slice_to_vec;

verus! {

/// Symmetric Birkhoff polytope, Fisher information metric.
#[derive(Clone, Copy, Debug)]
pub struct MultinomialSymmetric {
    /// Side length. Packed length is `n * n`.
    pub n: usize,
}

impl MultinomialSymmetric {
    /// A packed vector of length `len` is a point of this factory.
    pub open spec fn spec_fits(self, len: usize) -> bool {
        self.n >= 2 && self.n * self.n == len
    }

    /// The side that a refused length is measured against: `n`, raised
    /// to the smallest legal side 2.
    pub open spec fn spec_legal_side(self) -> int {
        if self.n >= 2 { self.n as int } else { 2 }
    }

    /// Factory of side `n`. `n < 2` is kept here and refused by
    /// [`MultinomialSymmetric::required_dim`].
    pub fn new(n: usize) -> (r: Self)
        ensures
            r.n == n,
    {
        MultinomialSymmetric { n }
    }

    /// `Ok` exactly when `len` fits; otherwise `max(n, 2)^2`.
    pub fn required_dim(&self, len: usize) -> (r: Result<(), usize>)
        requires
            self.n * self.n <= usize::MAX,
        ensures
            r is Ok <==> self.spec_fits(len),
            r matches Err(want) ==> want == self.spec_legal_side() * self.spec_legal_side(),
    {
        if self.n >= 2 && len == self.n * self.n {
            Ok(())
        } else {
            let side: usize = if self.n >= 2 { self.n } else { 2 };
            Err(side * side)
        }
    }

    /// Flat pack (manopt `M.vec`) of an `n x n` matrix given row-major.
    /// It must hold `n^2` entries.
    pub fn pack<T: Copy>(self, a: &[T]) -> (r: Vec<T>)
        requires
            a@.len() == self.n * self.n,
        ensures
            r@ == a@,
    {
        pack(self.n, slice_to_vec(a))
    }

    /// Inverse of [`MultinomialSymmetric::pack`] (manopt `M.mat`): the
    /// row-major entries, or `None` unless the length is `n^2`.
    pub fn unpack<T: Copy>(self, packed: &[T]) -> (r: Option<Vec<T>>)
        ensures
            r is Some <==> packed@.len() == self.n * self.n,
            r matches Some(v) ==> v@ == packed@,
    {
        let len = packed.len();
        match self.n.checked_mul(self.n) {
            Some(want) => {
                if len == want {
                    Some(slice_to_vec(packed))
                } else {
                    None
                }
            },
            None => None,
        }
    }
}

/// The side `n >= 2` of a square packing, or `None` when `len` is not
/// the square of such an `n`.
pub fn side(len: usize) -> (r: Option<usize>)
    ensures
        r matches Some(n) ==> square_side(n as int, len as int),
        r is None ==> forall|n: int| !#[trigger] square_side(n, len as int),
{
    so_n::side(len)
}

/// A row-major `n x n` matrix as the ambient vector. It must hold `n^2`
/// entries.
pub fn pack<T: Copy>(n: usize, a: Vec<T>) -> (r: Vec<T>)
    requires
        a@.len() == n * n,
    ensures
        r@ == a@,
{
    a
}

/// Split a length-`n^2` ambient vector into `(n, row-major entries)`;
/// `None` when the length is not the square of any `n >= 2`.
pub fn unpack<T: Copy>(x: &[T]) -> (r: Option<(usize, Vec<T>)>)
    ensures
        r is None <==> forall|n: int| !#[trigger] square_side(n, x@.len() as int),
        r matches Some(p) ==> square_side(p.0 as int, x@.len() as int) && p.1@ == x@,
{
    match side(x.len()) {
        Some(n) => Some((n, slice_to_vec(x))),
        None => None,
    }
}

/// `side` recovers the side of a symmetric doubly-stochastic packing:
/// a length fits the factory of side `n` exactly when `n` is a legal
/// square side of it, and a square side of a length is unique. With the
/// contract of [`side`] this gives `side(n * n) == Some(n)` for every
/// `n >= 2`.
pub proof fn side_recovers_multinomial_sym(m: MultinomialSymmetric, len: usize, k: int)
    ensures
        m.spec_fits(len) <==> square_side(m.n as int, len as int),
        square_side(k, len as int) && square_side(m.n as int, len as int) ==> k == m.n,
{
    if square_side(k, len as int) && square_side(m.n as int, len as int) && k != m.n {
        if k < m.n {
            lemma_square_strictly_increases(k, m.n as int);
        } else {
            lemma_square_strictly_increases(m.n as int, k);
        }
    }
}

} // verus!

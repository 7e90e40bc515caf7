//! Special orthogonal group `SO(n)` for `n >= 2`, packed row-major as
//! a length-`n^2` vector (manopt `rotationsfactory(n)` at `k = 1`).
//! The dedicated 9-vector token is [`super::so3::So3`].

use vstd::prelude::*;

use super::{isqrt, lemma_square_strictly_increases};
use vstd::slice::slice_to_vec;

verus! {

/// `n` is a legal side (`n >= 2`) of a square packing of length `len`.
pub open spec fn square_side(n: int, len: int) -> bool {
    2 <= n && n * n == len
}

/// `SO(n)`, `n >= 2`. Packed row-major, length `n^2`.
#[derive(Clone, Copy, Debug, PartialEq, Eq)]
pub struct SoN {
    /// Matrix side. Must be `>= 2`.
    pub n: usize,
}

impl SoN {
    /// `n^2` when it fits a `usize`.
    pub open spec fn spec_packed_len(self) -> Option<usize> {
        if self.n * self.n <= usize::MAX {
            Some((self.n * self.n) as usize)
        } else {
            None
        }
    }

    /// A packed vector of length `len` is a point of this factory.
    pub open spec fn spec_fits(self, len: usize) -> bool {
        self.n >= 2 && self.n * self.n == len
    }

    /// `SO(n)` with `n >= 2`; any smaller side is returned as the error.
    pub fn new(n: usize) -> (r: Result<Self, usize>)
        ensures
            n >= 2 ==> r == Ok::<Self, usize>(SoN { n }),
            n < 2 ==> r == Err::<Self, usize>(n),
    {
        if n >= 2 {
            Ok(SoN { n })
        } else {
            Err(n)
        }
    }

    /// Packed length `n^2`, or `None` on overflow.
    pub fn packed_len(self) -> (r: Option<usize>)
        ensures
            r == self.spec_packed_len(),
    {
        self.n.checked_mul(self.n)
    }

    /// Whether a length-`len` vector is a packed point of this factory.
    pub fn fits(self, len: usize) -> (r: bool)
        ensures
            r == self.spec_fits(len),
    {
        self.n >= 2 && self.packed_len() == Some(len)
    }

    /// `Ok` exactly when `dim` fits; otherwise the length this factory
    /// wants, or `dim` itself when `n^2` overflows.
    pub fn required_dim(&self, dim: usize) -> (r: Result<(), usize>)
        ensures
            r is Ok <==> self.spec_fits(dim),
            r matches Err(want) ==> want == (match self.spec_packed_len() {
                Some(len) => len,
                None => dim,
            }),
    {
        match self.packed_len() {
            Some(want) => {
                if self.n >= 2 && dim == want {
                    Ok(())
                } else {
                    Err(want)
                }
            },
            None => Err(dim),
        }
    }
    /// Row-major `n x n` rotation as a length-`n^2` token; `None` unless
    /// its length fits this factory.
    pub fn pack<T: Copy>(&self, mat: &[T]) -> (r: Option<Vec<T>>)
        ensures
            r is Some <==> self.spec_fits(mat@.len() as usize),
            r matches Some(v) ==> v@ == mat@,
    {
        if !self.fits(mat.len()) {
            return None;
        }
        Some(slice_to_vec(mat))
    }

    /// Row-major storage of a packed point or tangent; `None` unless its
    /// length fits this factory.
    pub fn unpack<T: Copy>(&self, x: &[T]) -> (r: Option<Vec<T>>)
        ensures
            r is Some <==> self.spec_fits(x@.len() as usize),
            r matches Some(v) ==> v@ == x@,
    {
        if !self.fits(x.len()) {
            return None;
        }
        Some(slice_to_vec(x))
    }
}

/// The side `n >= 2` of a square packing, or `None` when `len` is not
/// the square of such an `n`.
pub fn side(len: usize) -> (r: Option<usize>)
    ensures
        r matches Some(n) ==> square_side(n as int, len as int),
        r is None ==> forall|n: int| !#[trigger] square_side(n, len as int),
{
    if len < 4 {
        proof {
            assert forall|n: int| !#[trigger] square_side(n, len as int) by {
                if 2 <= n {
                    lemma_square_strictly_increases(1, n);
                    assert(4 <= n * n) by (nonlinear_arith)
                        requires
                            2 <= n,
                    ;
                }
            }
        }
        return None;
    }
    let s = isqrt(len);
    if s >= 2 && s * s == len {
        Some(s)
    } else {
        proof {
            assert forall|n: int| !#[trigger] square_side(n, len as int) by {
                if 2 <= n && n * n == len {
                    if n < s {
                        lemma_square_strictly_increases(n, s as int);
                    } else if n > s {
                        lemma_square_strictly_increases(s as int, n);
                        assert((s + 1) * (s + 1) <= n * n) by (nonlinear_arith)
                            requires
                                s < n,
                                0 <= s,
                        ;
                    } else {
                        assert(s * s == len);
                    }
                }
            }
        }
        None
    }
}

/// Split a length-`n^2` ambient vector into `(n, row-major entries)`;
/// `None` when the length is not the square of any `n >= 2`.
pub fn unpack<T: Copy>(x: &[T]) -> (r: Option<(usize, Vec<T>)>)
    ensures
        r is None <==> forall|n: int| !#[trigger] square_side(n, x@.len() as int),
        r matches Some(p) ==> square_side(p.0 as int, x@.len() as int) && p.1@ == x@,
{
    match side(x.len()) {
        Some(n) => Some((n, slice_to_vec(x))),
        None => None,
    }
}

/// A row-major `n x n` matrix as the ambient vector. It must hold `n^2`
/// entries.
pub fn pack<T: Copy>(n: usize, a: Vec<T>) -> (r: Vec<T>)
    requires
        a@.len() == n * n,
    ensures
        r@ == a@,
{
    a
}

/// `side` recovers the side of an `SO(n)` packing: a length fits the
/// factory of side `n` exactly when `n` is a legal square side of it,
/// and a square side of a length is unique. With the contract of
/// [`side`] this gives `side(n * n) == Some(n)` for every `n >= 2`.
pub proof fn side_recovers_so_n(m: SoN, len: usize, k: int)
    ensures
        m.spec_fits(len) <==> square_side(m.n as int, len as int),
        square_side(k, len as int) && square_side(m.n as int, len as int) ==> k == m.n,
{
    if square_side(k, len as int) && square_side(m.n as int, len as int) && k != m.n {
        if k < m.n {
            lemma_square_strictly_increases(k, m.n as int);
        } else {
            lemma_square_strictly_increases(m.n as int, k);
        }
    }
}

} // verus!

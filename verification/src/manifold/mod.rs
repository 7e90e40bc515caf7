//! Packing dimensions of the manifold factories.
//!
//! Every factory packs a point as one flat vector. What can be decided
//! from integers alone lives here: the packed length a factory wants,
//! whether a given length fits it, the error a wrong length is answered
//! with, the side length hidden in a square or `n^2 + n` packing, and
//! where each entry of a point goes in its packing (interleaved complex
//! parts, row-major and column-major blocks).

use vstd::prelude::*;

pub mod centered;
pub mod constant;
pub mod euclidean;
pub mod euclidean_complex;
pub mod multinomial_ds;
pub mod multinomial_sym;
pub mod positive;
pub mod realphase;
pub mod se3;
pub mod se_n;
pub mod so3;
pub mod so_n;
pub mod sphere;
pub mod sphere_complex;
pub mod stiefel;

use centered::CenteredMatrix;
use euclidean_complex::EuclideanComplex;
use se_n::SeN;
use so_n::SoN;
use sphere_complex::SphereComplex;
use stiefel::StiefelNp;

verus! {

/// `0 <= a < b` gives `a * a < b * b`.
pub proof fn lemma_square_strictly_increases(a: int, b: int)
    requires
        0 <= a < b,
    ensures
        a * a < b * b,
{
    assert(a * a < b * b) by (nonlinear_arith)
        requires
            0 <= a < b,
    ;
}

/// Integer square root: the largest `s` with `s * s <= len`.
pub(crate) fn isqrt(len: usize) -> (s: usize)
    ensures
        s * s <= len,
        len < (s + 1) * (s + 1),
{
    let target: u64 = len as u64;
    let mut lo: u64 = 0;
    let mut hi: u64 = 0x1_0000_0000;
    assert(hi * hi == 0x1_0000_0000_0000_0000int);
    while hi - lo > 1
        invariant
            lo < hi <= 0x1_0000_0000,
            lo * lo <= target,
            target < hi * hi,
            target == len,
        decreases hi - lo,
    {
        let mid: u64 = lo + (hi - lo) / 2;
        assert(mid * mid < 0x1_0000_0000_0000_0000int) by (nonlinear_arith)
            requires
                mid < 0x1_0000_0000,
        ;
        if mid * mid <= target {
            lo = mid;
        } else {
            hi = mid;
        }
    }
    assert(hi == lo + 1);
    assert(lo <= len) by (nonlinear_arith)
        requires
            lo * lo <= len,
    ;
    lo as usize
}

/// `a` followed by `b`, as one vector.
pub(crate) fn concat<T: Copy>(a: &[T], b: &[T]) -> (r: Vec<T>)
    ensures
        r@ == a@ + b@,
{
    let mut out = vstd::slice::slice_to_vec(a);
    let mut tail = vstd::slice::slice_to_vec(b);
    out.append(&mut tail);
    out
}

/// The entries `lo..hi` of `x`, as a vector of their own.
pub(crate) fn copy_range<T: Copy>(x: &[T], lo: usize, hi: usize) -> (r: Vec<T>)
    requires
        lo <= hi <= x@.len(),
    ensures
        r@ == x@.subrange(lo as int, hi as int),
{
    vstd::slice::slice_to_vec(vstd::slice::slice_subrange(x, lo, hi))
}

/// A factory with a legal shape accepts exactly one packed length, its
/// own: a length fits iff the shape is legal and the length is the
/// packed length (which then does not overflow). `SE(n)` packs the
/// rotation block first, so its packed length is the rotation length
/// plus `n`.
pub proof fn packed_length_is_the_only_fit(
    c: CenteredMatrix,
    k: EuclideanComplex,
    z: SphereComplex,
    o: SoN,
    e: SeN,
    t: StiefelNp,
    len: usize,
)
    ensures
        c.spec_fits(len) <==> (c.m >= 1 && c.n >= 1 && c.spec_packed_len() == Some(len)),
        k.spec_fits(len) <==> (k.n >= 1 && k.spec_packed_len() == Some(len)),
        z.spec_fits(len) <==> (z.n >= 1 && z.spec_packed_len() == Some(len)),
        o.spec_fits(len) <==> (o.n >= 2 && o.spec_packed_len() == Some(len)),
        e.spec_fits(len) <==> (e.n >= 2 && e.spec_packed_len() == Some(len)),
        t.spec_fits(len) <==> (t.spec_legal() && t.spec_packed_len() == Some(len)),
        e.spec_packed_len() matches Some(p) ==> (e.spec_rot_len() matches Some(r) && p == r + e.n),
{
}

/// The packed length of each factory is the size of the point it
/// packs, whenever that size fits a `usize`: `m n` for a centered
/// matrix, `2 n` for `n` complex entries, `n^2` for a rotation,
/// `n^2 + n` for a rigid motion, `n p` for a Stiefel frame. A size past
/// `usize::MAX` has no packed length.
pub proof fn packed_length_is_the_point_size(
    c: CenteredMatrix,
    k: EuclideanComplex,
    z: SphereComplex,
    o: SoN,
    e: SeN,
    t: StiefelNp,
)
    ensures
        c.spec_packed_len() is Some <==> c.m * c.n <= usize::MAX,
        c.spec_packed_len() matches Some(p) ==> p == c.m * c.n,
        k.spec_packed_len() is Some <==> 2 * k.n <= usize::MAX,
        k.spec_packed_len() matches Some(p) ==> p == 2 * k.n,
        z.spec_packed_len() is Some <==> 2 * z.n <= usize::MAX,
        z.spec_packed_len() matches Some(p) ==> p == 2 * z.n,
        o.spec_packed_len() is Some <==> o.n * o.n <= usize::MAX,
        o.spec_packed_len() matches Some(p) ==> p == o.n * o.n,
        e.spec_packed_len() is Some <==> e.n * e.n + e.n <= usize::MAX,
        e.spec_packed_len() matches Some(p) ==> p == e.n * e.n + e.n,
        t.spec_packed_len() is Some <==> t.n * t.p <= usize::MAX,
        t.spec_packed_len() matches Some(p) ==> p == t.n * t.p,
{
}

} // verus!

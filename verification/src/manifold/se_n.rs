//! Special Euclidean group `SE(n)` for `n >= 2` (manopt
//! `specialeuclideanfactory(n)` at `k = 1`), packed as a row-major
//! `n x n` rotation followed by a translation, length `n^2 + n`. The
//! dedicated 12-vector token is [`super::se3::Se3`].

use vstd::prelude::*;

use super::{concat, copy_range, isqrt};

verus! {

/// `n` is a legal side (`n >= 2`) of an `n^2 + n` packing of length `len`.
pub open spec fn rigid_side(n: int, len: int) -> bool {
    2 <= n && n * n + n == len
}

/// `SE(n)`, `n >= 2`. Packed row-major rotation then translation,
/// length `n^2 + n`.
#[derive(Clone, Copy, Debug, PartialEq, Eq)]
pub struct SeN {
    /// Ambient dimension of the rotation and the translation. Must be `>= 2`.
    pub n: usize,
}

impl SeN {
    /// `n^2 + n` when it fits a `usize`.
    pub open spec fn spec_packed_len(self) -> Option<usize> {
        if self.n * self.n + self.n <= usize::MAX {
            Some((self.n * self.n + self.n) as usize)
        } else {
            None
        }
    }

    /// `n^2` when it fits a `usize`.
    pub open spec fn spec_rot_len(self) -> Option<usize> {
        if self.n * self.n <= usize::MAX {
            Some((self.n * self.n) as usize)
        } else {
            None
        }
    }

    /// A packed vector of length `len` is a point of this factory.
    pub open spec fn spec_fits(self, len: usize) -> bool {
        self.n >= 2 && self.n * self.n + self.n == len
    }

    /// `SE(n)` with `n >= 2`; any smaller dimension is returned as the error.
    pub fn new(n: usize) -> (r: Result<Self, usize>)
        ensures
            n >= 2 ==> r == Ok::<Self, usize>(SeN { n }),
            n < 2 ==> r == Err::<Self, usize>(n),
    {
        if n >= 2 {
            Ok(SeN { n })
        } else {
            Err(n)
        }
    }

    /// Packed length `n^2 + n`, or `None` on overflow.
    pub fn packed_len(self) -> (r: Option<usize>)
        ensures
            r == self.spec_packed_len(),
    {
        match self.n.checked_mul(self.n) {
            Some(rot) => rot.checked_add(self.n),
            None => {
                assert(self.n * self.n + self.n > usize::MAX);
                None
            },
        }
    }

    /// Length `n^2` of the rotation block, or `None` on overflow.
    pub fn rot_len(self) -> (r: Option<usize>)
        ensures
            r == self.spec_rot_len(),
    {
        self.n.checked_mul(self.n)
    }

    /// Whether a length-`len` vector is a packed point of this factory.
    pub fn fits(self, len: usize) -> (r: bool)
        ensures
            r == self.spec_fits(len),
    {
        self.n >= 2 && self.packed_len() == Some(len)
    }

    /// `Ok` exactly when `dim` fits; otherwise the length this factory
    /// wants, or `dim` itself when `n^2 + n` overflows.
    pub fn required_dim(&self, dim: usize) -> (r: Result<(), usize>)
        ensures
            r is Ok <==> self.spec_fits(dim),
            r matches Err(want) ==> want == (match self.spec_packed_len() {
                Some(len) => len,
                None => dim,
            }),
    {
        match self.packed_len() {
            Some(want) => {
                if self.n >= 2 && dim == want {
                    Ok(())
                } else {
                    Err(want)
                }
            },
            None => Err(dim),
        }
    }
    /// Row-major rotation then translation as a length-`n^2 + n` token;
    /// `None` unless `rot` has `n^2` entries and `t` has `n`.
    pub fn pack<T: Copy>(&self, rot: &[T], t: &[T]) -> (r: Option<Vec<T>>)
        ensures
            r is Some <==> (rot@.len() == self.n * self.n && t@.len() == self.n),
            r matches Some(v) ==> v@ == rot@ + t@,
    {
        let given = rot.len();
        let rl = match self.rot_len() {
            Some(rl) => rl,
            None => return None,
        };
        if given != rl || t.len() != self.n {
            return None;
        }
        Some(concat(rot, t))
    }

    /// Split a packed point or tangent into `(R, t)`; `None` unless its
    /// length fits this factory.
    pub fn unpack<T: Copy>(&self, x: &[T]) -> (r: Option<(Vec<T>, Vec<T>)>)
        ensures
            r is Some <==> self.spec_fits(x@.len() as usize),
            r matches Some(p) ==> p.0@ == x@.subrange(0, self.n * self.n) && p.1@ == x@.subrange(
                self.n * self.n,
                x@.len() as int,
            ),
    {
        let rl = match self.rot_len() {
            Some(rl) => rl,
            None => return None,
        };
        if !self.fits(x.len()) {
            return None;
        }
        Some((copy_range(x, 0, rl), copy_range(x, rl, x.len())))
    }
}

/// `s * s <= len < (s + 1)^2` pins the only possible `n` with
/// `n^2 + n == len` to `s`.
proof fn lemma_rigid_side_is_floor_sqrt(n: int, s: int, len: int)
    requires
        0 <= s,
        s * s <= len,
        len < (s + 1) * (s + 1),
        rigid_side(n, len),
    ensures
        n == s,
{
    if n < s {
        assert(n * n + n < s * s) by (nonlinear_arith)
            requires
                2 <= n < s,
        ;
    } else if n > s {
        assert((s + 1) * (s + 1) <= n * n) by (nonlinear_arith)
            requires
                0 <= s < n,
        ;
    }
}

/// The dimension `n >= 2` of an `n^2 + n` packing, or `None` when `len`
/// is not of that form.
pub fn side(len: usize) -> (r: Option<usize>)
    ensures
        r matches Some(n) ==> rigid_side(n as int, len as int),
        r is None ==> forall|n: int| !#[trigger] rigid_side(n, len as int),
{
    if len < 6 {
        proof {
            assert forall|n: int| !#[trigger] rigid_side(n, len as int) by {
                if 2 <= n {
                    assert(6 <= n * n + n) by (nonlinear_arith)
                        requires
                            2 <= n,
                    ;
                }
            }
        }
        return None;
    }
    let s = isqrt(len);
    if s >= 2 && s <= len - s * s && s * s + s == len {
        Some(s)
    } else {
        proof {
            assert forall|n: int| !#[trigger] rigid_side(n, len as int) by {
                if rigid_side(n, len as int) {
                    lemma_rigid_side_is_floor_sqrt(n, s as int, len as int);
                }
            }
        }
        None
    }
}

/// Split a length-`n^2 + n` ambient vector into `(n, R, t)`; `None`
/// when the length is not of that form for any `n >= 2`.
pub fn unpack<T: Copy>(x: &[T]) -> (r: Option<(usize, Vec<T>, Vec<T>)>)
    ensures
        r is None <==> forall|n: int| !#[trigger] rigid_side(n, x@.len() as int),
        r matches Some(p) ==> rigid_side(p.0 as int, x@.len() as int) && p.1@ == x@.subrange(
            0,
            p.0 * p.0,
        ) && p.2@ == x@.subrange(p.0 * p.0, x@.len() as int),
{
    let n = match side(x.len()) {
        Some(n) => n,
        None => return None,
    };
    let rl = n * n;
    Some((n, copy_range(x, 0, rl), copy_range(x, rl, x.len())))
}

/// Row-major rotation followed by translation, as the ambient vector.
/// The two parts together must hold `n^2 + n` entries.
pub fn pack<T: Copy>(n: usize, rot: Vec<T>, t: Vec<T>) -> (r: Vec<T>)
    requires
        rot@.len() + t@.len() == n * n + n,
    ensures
        r@ == rot@ + t@,
{
    let mut v = rot;
    let mut tail = t;
    v.append(&mut tail);
    v
}

/// Packing and splitting undo each other: the two blocks of a packed
/// rotation and translation are those parts, and the two blocks of a
/// vector that fits the factory pack back to it.
pub proof fn pack_unpack_round_trip<T>(m: SeN, rot: Seq<T>, t: Seq<T>, x: Seq<T>)
    ensures
        rot.len() == m.n * m.n && t.len() == m.n ==> (rot + t).subrange(0, m.n * m.n) == rot
            && (rot + t).subrange(m.n * m.n, (rot + t).len() as int) == t,
        m.spec_fits(x.len() as usize) && x.len() <= usize::MAX ==> x.subrange(0, m.n * m.n)
            + x.subrange(m.n * m.n, x.len() as int) == x,
{
    if rot.len() == m.n * m.n && t.len() == m.n {
        assert((rot + t).subrange(0, m.n * m.n) =~= rot);
        assert((rot + t).subrange(m.n * m.n, (rot + t).len() as int) =~= t);
    }
    if m.spec_fits(x.len() as usize) && x.len() <= usize::MAX {
        assert(m.n * m.n <= x.len()) by (nonlinear_arith)
            requires
                m.n * m.n + m.n == x.len(),
                0 <= m.n,
        ;
        assert(x.subrange(0, m.n * m.n) + x.subrange(m.n * m.n, x.len() as int) =~= x);
    }
}

/// `side` recovers the dimension of an `SE(n)` packing: a length fits
/// the factory of dimension `n` exactly when `n` is a legal rigid side
/// of it, and that side is unique. With the contract of [`side`] this
/// gives `side(n * n + n) == Some(n)` for every `n >= 2`.
pub proof fn side_recovers_se_n(m: SeN, len: usize, k: int)
    ensures
        m.spec_fits(len) <==> rigid_side(m.n as int, len as int),
        rigid_side(k, len as int) && rigid_side(m.n as int, len as int) ==> k == m.n,
{
    if rigid_side(k, len as int) && rigid_side(m.n as int, len as int) {
        let s = m.n as int;
        assert(s * s <= len);
        assert(len < (s + 1) * (s + 1)) by (nonlinear_arith)
            requires
                len == s * s + s,
                0 <= s,
        ;
        lemma_rigid_side_is_floor_sqrt(k, s, len as int);
    }
}

} // verus!

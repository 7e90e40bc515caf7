//! Complex unit sphere `{z in C^n : z^* z = 1}` (manopt `spherecomplexfactory`), packed as interleaved `(re, im)` pairs, length `2 n`.

use vstd::prelude::*;

verus! {

/// Unit sphere in `C^n`, packed as `2 n` reals.
#[derive(Clone, Copy, Debug, PartialEq, Eq)]
pub struct SphereComplex {
    /// Complex dimension. Packed length is `2 n`.
    pub n: usize,
}

impl Default for SphereComplex {
    /// One complex entry.
    fn default() -> (r: Self)
        ensures
            r == (SphereComplex { n: 1 }),
    {
        SphereComplex { n: 1 }
    }
}

impl SphereComplex {
    /// `2 n` when it fits a `usize`.
    pub open spec fn spec_packed_len(self) -> Option<usize> {
        if self.n * 2 <= usize::MAX {
            Some((self.n * 2) as usize)
        } else {
            None
        }
    }

    /// A packed vector of length `len` is a point of this factory.
    pub open spec fn spec_fits(self, len: usize) -> bool {
        self.n >= 1 && self.n * 2 == len
    }

    /// `n` complex entries. `n == 0` is kept here and refused by
    /// [`SphereComplex::required_dim`].
    pub fn new(n: usize) -> (r: Self)
        ensures
            r == (SphereComplex { n }),
    {
        SphereComplex { n }
    }

    /// Packed length `2 n`, or `None` on overflow.
    pub fn packed_len(self) -> (r: Option<usize>)
        ensures
            r == self.spec_packed_len(),
    {
        self.n.checked_mul(2)
    }

    /// Whether a length-`len` vector is a packed point of this factory.
    pub fn fits(self, len: usize) -> (r: bool)
        ensures
            r == self.spec_fits(len),
    {
        self.n >= 1 && self.packed_len() == Some(len)
    }

    /// `Ok` exactly when `len` fits; otherwise the length this factory
    /// wants, or `len` itself when `2 n` overflows.
    pub fn required_dim(&self, len: usize) -> (r: Result<(), usize>)
        ensures
            r is Ok <==> self.spec_fits(len),
            r matches Err(want) ==> want == (match self.spec_packed_len() {
                Some(p) => p,
                None => len,
            }),
    {
        match self.packed_len() {
            Some(want) => {
                if self.n >= 1 && len == want {
                    Ok(())
                } else {
                    Err(want)
                }
            },
            None => Err(len),
        }
    }
}

impl SphereComplex {
    /// Interleaved pack of real and imaginary parts; see [`pack`].
    pub fn pack<T: Copy>(re: &[T], im: &[T]) -> (r: Vec<T>)
        ensures
            r@ == interleave(re@, im@),
    {
        pack(re, im)
    }

    /// Split a packed vector into `(re, im)`; see [`unpack`].
    pub fn unpack<T: Copy>(x: &[T]) -> (r: Option<(Vec<T>, Vec<T>)>)
        ensures
            r is None <==> x@.len() % 2 != 0,
            r matches Some(p) ==> p.0@ == evens(x@) && p.1@ == odds(x@),
    {
        unpack(x)
    }
}

/// The shorter of two lengths.
pub open spec fn min_len(a: nat, b: nat) -> nat {
    if a <= b { a } else { b }
}

/// `re[0], im[0], re[1], im[1], ...` over the common length.
pub open spec fn interleave<T>(re: Seq<T>, im: Seq<T>) -> Seq<T> {
    Seq::new(
        2 * min_len(re.len(), im.len()),
        |i: int| if i % 2 == 0 { re[i / 2] } else { im[i / 2] },
    )
}

/// The entries at even positions: the real parts of a packing.
pub open spec fn evens<T>(x: Seq<T>) -> Seq<T> {
    Seq::new(x.len() / 2, |k: int| x[2 * k])
}

/// The entries at odd positions: the imaginary parts of a packing.
pub open spec fn odds<T>(x: Seq<T>) -> Seq<T> {
    Seq::new(x.len() / 2, |k: int| x[2 * k + 1])
}

/// Interleaved pack of real and imaginary parts. Extra entries of the
/// longer part are dropped.
pub fn pack<T: Copy>(re: &[T], im: &[T]) -> (r: Vec<T>)
    ensures
        r@ == interleave(re@, im@),
{
    let n = if re.len() <= im.len() { re.len() } else { im.len() };
    let mut out: Vec<T> = Vec::new();
    let mut k: usize = 0;
    while k < n
        invariant
            n == min_len(re@.len(), im@.len()),
            k <= n,
            out@.len() == 2 * k,
            forall|i: int| 0 <= i < 2 * k ==> #[trigger] out@[i] == (if i % 2 == 0 {
                re@[i / 2]
            } else {
                im@[i / 2]
            }),
        decreases n - k,
    {
        out.push(re[k]);
        out.push(im[k]);
        k = k + 1;
    }
    assert(out@ =~= interleave(re@, im@));
    out
}

/// Split a packed vector into `(re, im)`. `None` if the length is odd.
pub fn unpack<T: Copy>(x: &[T]) -> (r: Option<(Vec<T>, Vec<T>)>)
    ensures
        r is None <==> x@.len() % 2 != 0,
        r matches Some(p) ==> p.0@ == evens(x@) && p.1@ == odds(x@),
{
    if x.len() % 2 != 0 {
        return None;
    }
    let n = x.len() / 2;
    assert(2 * n == x@.len());
    let mut re: Vec<T> = Vec::new();
    let mut im: Vec<T> = Vec::new();
    let mut k: usize = 0;
    while k < n
        invariant
            2 * n == x@.len(),
            x@.len() == x.len(),
            k <= n,
            re@.len() == k,
            im@.len() == k,
            forall|j: int| 0 <= j < k ==> #[trigger] re@[j] == x@[2 * j],
            forall|j: int| 0 <= j < k ==> #[trigger] im@[j] == x@[2 * j + 1],
        decreases n - k,
    {
        re.push(x[2 * k]);
        im.push(x[2 * k + 1]);
        k = k + 1;
    }
    assert(re@ =~= evens(x@));
    assert(im@ =~= odds(x@));
    Some((re, im))
}

/// `unpack` undoes `pack` and `pack` undoes `unpack`: the real and
/// imaginary parts of an interleaved packing of two equally long parts
/// are those parts, and interleaving the two halves of an even-length
/// packing gives the packing back.
pub proof fn interleave_round_trips<T>(re: Seq<T>, im: Seq<T>, x: Seq<T>)
    ensures
        re.len() == im.len() ==> evens(interleave(re, im)) == re && odds(interleave(re, im)) == im,
        x.len() % 2 == 0 ==> interleave(evens(x), odds(x)) == x,
{
    if re.len() == im.len() {
        assert(evens(interleave(re, im)) =~= re);
        assert(odds(interleave(re, im)) =~= im);
    }
    if x.len() % 2 == 0 {
        assert forall|i: int| 0 <= i < x.len() implies #[trigger] interleave(evens(x), odds(x))[i]
            == x[i] by {
            if i % 2 == 0 {
                assert(2 * (i / 2) == i);
            } else {
                assert(2 * (i / 2) + 1 == i);
            }
        }
        assert(interleave(evens(x), odds(x)) =~= x);
    }
}

} // verus!

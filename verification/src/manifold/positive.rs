//! Positive orthant `R_{++}^n` (manopt `positivefactory(n)`), packed as
//! the length-`n` vector itself.

use vstd::prelude::*;
use vstd::arithmetic::div_mod::lemma_fundamental_div_mod_converse;
use vstd::slice::slice_to_vec;

verus! {

/// Strictly positive `n`-vector.
#[derive(Clone, Copy, Debug, PartialEq, Eq)]
pub struct Positive {
    /// Packed length. manopt `m*n` with default second dimension 1.
    pub n: usize,
}

impl Default for Positive {
    /// The positive half-line.
    fn default() -> (r: Self)
        ensures
            r == (Positive { n: 1 }),
    {
        Positive { n: 1 }
    }
}

impl Positive {
    /// A packed vector of length `len` is a point of this factory.
    pub open spec fn spec_fits(self, len: usize) -> bool {
        self.n >= 1 && self.n == len
    }

    /// Positive orthant of length `n`. `n == 0` is kept here and refused
    /// by [`Positive::required_dim`].
    pub fn new(n: usize) -> (r: Self)
        ensures
            r == (Positive { n }),
    {
        Positive { n }
    }

    /// Whether a length-`len` vector is a packed point of this factory.
    pub fn fits(self, len: usize) -> (r: bool)
        ensures
            r == self.spec_fits(len),
    {
        self.n >= 1 && self.n == len
    }

    /// `Ok` exactly when `len` fits; otherwise `n`.
    pub fn required_dim(&self, len: usize) -> (r: Result<(), usize>)
        ensures
            r is Ok <==> self.spec_fits(len),
            r matches Err(want) ==> want == self.n,
    {
        if self.n >= 1 && len == self.n {
            Ok(())
        } else {
            Err(self.n)
        }
    }

    /// Column-major flatten of an `m x k` matrix given row-major; see
    /// [`pack`].
    pub fn pack<T: Copy>(m: usize, k: usize, a: &[T]) -> (r: Vec<T>)
        requires
            a@.len() == m * k,
        ensures
            r@ == col_major(a@, m as nat, k as nat),
    {
        pack(m, k, a)
    }

    /// The `m x k` matrix, row-major, of a column-major vector; see
    /// [`unpack`].
    pub fn unpack<T: Copy>(&self, x: &[T], m: usize, k: usize) -> (r: Option<Vec<T>>)
        ensures
            r is Some <==> (m >= 1 && k >= 1 && x@.len() == m * k),
            r matches Some(v) ==> v@ == row_major(x@, m as nat, k as nat),
    {
        unpack(x, m, k)
    }
}

/// Column-major layout of an `m x k` matrix held row-major in `a`:
/// position `p` holds entry `(p % m, p / m)`.
pub open spec fn col_major<T>(a: Seq<T>, m: nat, k: nat) -> Seq<T> {
    Seq::new(m * k, |p: int| a[(p % (m as int)) * k + p / (m as int)])
}

/// Row-major layout of an `m x k` matrix held column-major in `x`:
/// position `q` holds entry `(q / k, q % k)`.
pub open spec fn row_major<T>(x: Seq<T>, m: nat, k: nat) -> Seq<T> {
    Seq::new(m * k, |q: int| x[q / (k as int) + (q % (k as int)) * m])
}

/// `i + j m` is the column-major position of `(i, j)`: its remainder by
/// `m` is `i`, its quotient `j`, and it is below `m k`; the row-major
/// position `i k + j` is below `m k` too.
proof fn lemma_index(i: int, j: int, m: int, k: int)
    requires
        0 <= i < m,
        0 <= j < k,
    ensures
        (i + j * m) % m == i,
        (i + j * m) / m == j,
        i + j * m < m * k,
        i * k + j < m * k,
{
    lemma_fundamental_div_mod_converse(i + j * m, m, j, i);
    assert(i + j * m < m * k) by (nonlinear_arith)
        requires
            0 <= i < m,
            0 <= j < k,
    ;
    assert(i * k + j < m * k) by (nonlinear_arith)
        requires
            0 <= i < m,
            0 <= j < k,
    ;
}

/// Column-major flatten (manopt `X(:)`) of an `m x k` matrix given
/// row-major in `a`.
pub fn pack<T: Copy>(m: usize, k: usize, a: &[T]) -> (r: Vec<T>)
    requires
        a@.len() == m * k,
    ensures
        r@ == col_major(a@, m as nat, k as nat),
{
    let mut out: Vec<T> = Vec::new();
    let mut j: usize = 0;
    while j < k
        invariant
            a@.len() == m * k,
            a@.len() == a.len(),
            j <= k,
            out@.len() == j * m,
            forall|p: int|
                0 <= p < out@.len() ==> #[trigger] out@[p] == a@[(p % (m as int)) * k + p / (
                m as int)],
        decreases k - j,
    {
        let mut i: usize = 0;
        while i < m
            invariant
                a@.len() == m * k,
                a@.len() == a.len(),
                j < k,
                i <= m,
                out@.len() == j * m + i,
                forall|p: int|
                    0 <= p < out@.len() ==> #[trigger] out@[p] == a@[(p % (m as int)) * k + p / (
                    m as int)],
            decreases m - i,
        {
            proof {
                lemma_index(i as int, j as int, m as int, k as int);
                assert(i + j * m == j * m + i);
            }
            out.push(a[i * k + j]);
            i = i + 1;
        }
        assert(j * m + m == (j + 1) * m) by (nonlinear_arith);
        j = j + 1;
    }
    assert(k * m == m * k) by (nonlinear_arith);
    assert(out@ =~= col_major(a@, m as nat, k as nat));
    out
}

/// Inverse of [`pack`]: the `m x k` matrix, row-major, of a column-major
/// vector. `None` unless the shape is non-empty and the length is `m k`.
pub fn unpack<T: Copy>(x: &[T], m: usize, k: usize) -> (r: Option<Vec<T>>)
    ensures
        r is Some <==> (m >= 1 && k >= 1 && x@.len() == m * k),
        r matches Some(v) ==> v@ == row_major(x@, m as nat, k as nat),
{
    let len = x.len();
    let want = match m.checked_mul(k) {
        Some(w) => w,
        None => return None,
    };
    if m < 1 || k < 1 || len != want {
        return None;
    }
    let mut out: Vec<T> = Vec::new();
    let mut i: usize = 0;
    while i < m
        invariant
            x@.len() == m * k,
            x@.len() == x.len(),
            1 <= k,
            i <= m,
            out@.len() == i * k,
            forall|q: int|
                0 <= q < out@.len() ==> #[trigger] out@[q] == x@[q / (k as int) + (q % (k as int))
                    * m],
        decreases m - i,
    {
        let mut j: usize = 0;
        while j < k
            invariant
                x@.len() == m * k,
                x@.len() == x.len(),
                i < m,
                j <= k,
                out@.len() == i * k + j,
                forall|q: int|
                    0 <= q < out@.len() ==> #[trigger] out@[q] == x@[q / (k as int) + (q % (
                    k as int)) * m],
                decreases k - j,
        {
            proof {
                lemma_index(j as int, i as int, k as int, m as int);
                lemma_index(i as int, j as int, m as int, k as int);
                assert(j + i * k == i * k + j);
            }
            out.push(x[i + j * m]);
            j = j + 1;
        }
        assert(i * k + k == (i + 1) * k) by (nonlinear_arith);
        i = i + 1;
    }
    assert(out@ =~= row_major(x@, m as nat, k as nat));
    Some(out)
}

/// The packing of a positive vector is the vector itself.
pub fn pack_vec<T: Copy>(x: &[T]) -> (r: Vec<T>)
    ensures
        r@ == x@,
{
    slice_to_vec(x)
}

/// The positive vector of a packing is the packing itself.
pub fn unpack_vec<T: Copy>(x: &[T]) -> (r: Vec<T>)
    ensures
        r@ == x@,
{
    slice_to_vec(x)
}

/// [`unpack`] undoes [`pack`] and [`pack`] undoes [`unpack`]: the two
/// layouts of an `m x k` matrix are inverse permutations of each other.
pub proof fn layouts_round_trip<T>(a: Seq<T>, x: Seq<T>, m: nat, k: nat)
    ensures
        a.len() == m * k ==> row_major(col_major(a, m, k), m, k) == a,
        x.len() == m * k ==> col_major(row_major(x, m, k), m, k) == x,
{
    if a.len() == m * k {
        assert forall|q: int| 0 <= q < a.len() implies #[trigger] row_major(
            col_major(a, m, k),
            m,
            k,
        )[q] == a[q] by {
            let i = q / (k as int);
            let j = q % (k as int);
            assert(0 <= i < m && 0 <= j < k) by (nonlinear_arith)
                requires
                    0 <= q < m * k,
                    k > 0 || m * k == 0,
                    i == q / (k as int),
                    j == q % (k as int),
            ;
            lemma_index(i, j, m as int, k as int);
            assert(q == i * k + j) by (nonlinear_arith)
                requires
                    k > 0,
                    i == q / (k as int),
                    j == q % (k as int),
            ;
        }
        assert(row_major(col_major(a, m, k), m, k) =~= a);
    }
    if x.len() == m * k {
        assert forall|p: int| 0 <= p < x.len() implies #[trigger] col_major(
            row_major(x, m, k),
            m,
            k,
        )[p] == x[p] by {
            let i = p % (m as int);
            let j = p / (m as int);
            assert(0 <= i < m && 0 <= j < k) by (nonlinear_arith)
                requires
                    0 <= p < m * k,
                    i == p % (m as int),
                    j == p / (m as int),
            ;
            lemma_index(j, i, k as int, m as int);
            lemma_index(i, j, m as int, k as int);
            assert(p == i + j * m) by (nonlinear_arith)
                requires
                    m > 0,
                    i == p % (m as int),
                    j == p / (m as int),
            ;
        }
        assert(col_major(row_major(x, m, k), m, k) =~= x);
    }
}

} // verus!

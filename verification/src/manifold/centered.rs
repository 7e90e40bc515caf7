//! Matrices with centered columns or rows (manopt
//! `centeredmatrixfactory(m, n, rows_or_cols)`), packed row-major as a
//! length-`m n` vector.

use vstd::prelude::*;
use vstd::slice::slice_to_vec;

verus! {

/// Centered `m x n` matrices. Packed row-major, length `m n`.
#[derive(Clone, Copy, Debug, PartialEq, Eq)]
pub struct CenteredMatrix {
    /// Rows of the matrix. MATLAB `m`.
    pub m: usize,
    /// Columns of the matrix. MATLAB `n`.
    pub n: usize,
    /// `true` = centered rows (`1^T X = 0`). `false` = centered
    /// columns (`X 1 = 0`), the manopt default.
    pub rows: bool,
}

impl Default for CenteredMatrix {
    /// `2 x 2` with centered columns.
    fn default() -> (r: Self)
        ensures
            r == (CenteredMatrix { m: 2, n: 2, rows: false }),
    {
        CenteredMatrix { m: 2, n: 2, rows: false }
    }
}

impl CenteredMatrix {
    /// `m n` when it fits a `usize`.
    pub open spec fn spec_packed_len(self) -> Option<usize> {
        if self.m * self.n <= usize::MAX {
            Some((self.m * self.n) as usize)
        } else {
            None
        }
    }

    /// A packed vector of length `len` is a point of this factory.
    pub open spec fn spec_fits(self, len: usize) -> bool {
        self.m >= 1 && self.n >= 1 && self.m * self.n == len
    }

    /// Centered `m x n` matrices. An empty shape is kept here and
    /// refused by [`CenteredMatrix::required_dim`].
    pub fn new(m: usize, n: usize, rows: bool) -> (r: Self)
        ensures
            r == (CenteredMatrix { m, n, rows }),
    {
        CenteredMatrix { m, n, rows }
    }

    /// Packed length `m n`, or `None` on overflow.
    pub fn packed_len(self) -> (r: Option<usize>)
        ensures
            r == self.spec_packed_len(),
    {
        self.m.checked_mul(self.n)
    }

    /// Whether a length-`len` vector is a packed point of this factory.
    pub fn fits(self, len: usize) -> (r: bool)
        ensures
            r == self.spec_fits(len),
    {
        self.m >= 1 && self.n >= 1 && self.packed_len() == Some(len)
    }

    /// `Ok` exactly when `len` fits; otherwise the length this factory
    /// wants, or `len` itself when `m n` overflows.
    pub fn required_dim(&self, len: usize) -> (r: Result<(), usize>)
        ensures
            r is Ok <==> self.spec_fits(len),
            r matches Err(want) ==> want == (match self.spec_packed_len() {
                Some(p) => p,
                None => len,
            }),
    {
        match self.packed_len() {
            Some(want) => {
                if self.m >= 1 && self.n >= 1 && len == want {
                    Ok(())
                } else {
                    Err(want)
                }
            },
            None => Err(len),
        }
    }

    /// A row-major `m x n` matrix, flattened into the ambient vector.
    pub fn pack<T: Copy>(self, a: &[T]) -> (r: Vec<T>)
        ensures
            r@ == a@,
    {
        slice_to_vec(a)
    }

    /// The entries of a packed point; `None` unless its length fits
    /// this factory.
    pub fn unpack<T: Copy>(self, x: &[T]) -> (r: Option<Vec<T>>)
        ensures
            r is Some <==> self.spec_fits(x@.len() as usize),
            r matches Some(v) ==> v@ == x@,
    {
        if self.fits(x.len()) {
            Some(slice_to_vec(x))
        } else {
            None
        }
    }
}

/// Flatten a row-major `m x n` matrix into the ambient vector. A vector
/// whose length is not `m n` (saturated at `usize::MAX`) packs to the
/// empty vector.
pub fn pack<T: Copy>(m: usize, n: usize, a: Vec<T>) -> (r: Vec<T>)
    ensures
        a@.len() == (if m * n <= usize::MAX { m * n } else { usize::MAX as int }) ==> r@ == a@,
        a@.len() != (if m * n <= usize::MAX { m * n } else { usize::MAX as int }) ==> r@.len() == 0,
{
    let want: usize = match m.checked_mul(n) {
        Some(w) => w,
        None => usize::MAX,
    };
    if a.len() == want {
        a
    } else {
        Vec::new()
    }
}

/// The entries of a packed `m x n` matrix; `None` unless the shape is
/// non-empty and the length is `m n`.
pub fn unpack<T: Copy>(x: &[T], m: usize, n: usize) -> (r: Option<Vec<T>>)
    ensures
        r is Some <==> (m >= 1 && n >= 1 && m * n == x@.len()),
        r matches Some(v) ==> v@ == x@,
{
    let len = x.len();
    match m.checked_mul(n) {
        Some(want) => {
            if want == len && m >= 1 && n >= 1 {
                Some(slice_to_vec(x))
            } else {
                None
            }
        },
        None => None,
    }
}

} // verus!

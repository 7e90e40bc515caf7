//! SO(3) as a row-major 9-vector (manopt `rotationsfactory(3)` at `k = 1`).

use vstd::prelude::*;

verus! {

/// Rotation matrices packed row-major, length 9.
#[derive(Clone, Copy, Debug, Default)]
pub struct So3;

impl So3 {
    /// `Ok` exactly for length 9; any other length is answered with 9.
    pub fn required_dim(&self, len: usize) -> (r: Result<(), usize>)
        ensures
            r is Ok <==> len == 9,
            r matches Err(want) ==> want == 9,
    {
        if len == 9 {
            Ok(())
        } else {
            Err(9)
        }
    }
}

/// Entry `(i, j)` of a row-major 3-by-3 block sits at `3 i + j`.
pub open spec fn row_major_3x3<T>(r: [[T; 3]; 3]) -> Seq<T> {
    Seq::new(9, |p: int| r@[p / 3]@[p % 3])
}

/// The 3-by-3 block of a packed vector: entry `(i, j)` is `x[3 i + j]`
/// when `x` holds at least 9 entries, and `zero` everywhere otherwise.
pub open spec fn block_3x3<T>(x: Seq<T>, zero: T) -> Seq<Seq<T>> {
    Seq::new(3, |i: int| Seq::new(3, |j: int| if x.len() >= 9 { x[3 * i + j] } else { zero }))
}

/// Row-major 3-by-3 block of a packed vector. A vector shorter than 9
/// gives the all-`zero` block; entries past the ninth are ignored.
pub fn unpack<T: Copy>(x: &[T], zero: T) -> (r: [[T; 3]; 3])
    ensures
        forall|i: int, j: int| 0 <= i < 3 && 0 <= j < 3 ==> #[trigger] r@[i]@[j] == block_3x3(x@, zero)[i][j],
{
    if x.len() >= 9 {
        [[x[0], x[1], x[2]], [x[3], x[4], x[5]], [x[6], x[7], x[8]]]
    } else {
        [[zero, zero, zero], [zero, zero, zero], [zero, zero, zero]]
    }
}

/// Flatten a 3-by-3 block into the ambient 9-vector, row by row.
pub fn pack<T: Copy>(r: [[T; 3]; 3]) -> (v: Vec<T>)
    ensures
        v@ == row_major_3x3(r),
{
    let mut v: Vec<T> = Vec::new();
    let mut i: usize = 0;
    while i < 3
        invariant
            i <= 3,
            v@.len() == 3 * i,
            forall|p: int| 0 <= p < v@.len() ==> #[trigger] v@[p] == r@[p / 3]@[p % 3],
        decreases 3 - i,
    {
        let row = r[i];
        let mut j: usize = 0;
        while j < 3
            invariant
                i < 3,
                j <= 3,
                row@ == r@[i as int]@,
                v@.len() == 3 * i + j,
                forall|p: int| 0 <= p < v@.len() ==> #[trigger] v@[p] == r@[p / 3]@[p % 3],
            decreases 3 - j,
        {
            v.push(row[j]);
            j = j + 1;
        }
        i = i + 1;
    }
    assert(v@ =~= row_major_3x3(r));
    v
}

/// Packing a 3-by-3 block and reading it back gives the block: the
/// entry at `3 i + j` of the packing is entry `(i, j)`.
pub proof fn pack_unpack_round_trip<T>(r: [[T; 3]; 3], zero: T)
    ensures
        forall|i: int, j: int| 0 <= i < 3 && 0 <= j < 3 ==> #[trigger] block_3x3(row_major_3x3(r), zero)[i][j] == r@[i]@[j],
{
    assert forall|i: int, j: int| 0 <= i < 3 && 0 <= j < 3 implies #[trigger] block_3x3(row_major_3x3(r), zero)[i][j] == r@[i]@[j] by {
        assert((3 * i + j) / 3 == i);
        assert((3 * i + j) % 3 == j);
    }
}

} // verus!

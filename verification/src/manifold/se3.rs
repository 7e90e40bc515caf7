//! Special Euclidean group SE(3) packed as a row-major rotation then a translation, length 12.

use vstd::prelude::*;

use super::so3::{self, block_3x3, row_major_3x3};

verus! {

/// SE(3) as a 12-vector: row-major rotation, then translation.
#[derive(Clone, Copy, Debug, Default)]
pub struct Se3;

impl Se3 {
    /// `Ok` exactly for length 12; any other length is answered with 12.
    pub fn required_dim(&self, len: usize) -> (r: Result<(), usize>)
        ensures
            r is Ok <==> len == 12,
            r matches Err(want) ==> want == 12,
    {
        if len == 12 {
            Ok(())
        } else {
            Err(12)
        }
    }
}

/// The translation of a packed vector: `x[9..12]` when `x` holds at
/// least 12 entries, and `zero` everywhere otherwise.
pub open spec fn translation<T>(x: Seq<T>, zero: T) -> Seq<T> {
    Seq::new(3, |k: int| if x.len() >= 12 { x[9 + k] } else { zero })
}

/// Row-major rotation then translation as a length-12 token.
pub fn pack<T: Copy>(r: [[T; 3]; 3], t: [T; 3]) -> (v: Vec<T>)
    ensures
        v@ == row_major_3x3(r) + t@,
{
    let mut v = so3::pack(r);
    v.push(t[0]);
    v.push(t[1]);
    v.push(t[2]);
    assert(v@ =~= row_major_3x3(r) + t@);
    v
}

/// Split a packed point or tangent into `(R, t)`. The rotation is the
/// all-`zero` block unless `x` holds 9 entries, the translation is
/// all `zero` unless it holds 12.
pub fn unpack<T: Copy>(x: &[T], zero: T) -> (p: ([[T; 3]; 3], [T; 3]))
    ensures
        forall|i: int, j: int| 0 <= i < 3 && 0 <= j < 3 ==> #[trigger] p.0@[i]@[j] == block_3x3(x@, zero)[i][j],
        p.1@ == translation(x@, zero),
{
    let r = so3::unpack(x, zero);
    let t = if x.len() >= 12 {
        [x[9], x[10], x[11]]
    } else {
        [zero, zero, zero]
    };
    assert(t@ =~= translation(x@, zero));
    (r, t)
}

/// Packing a rotation and a translation and splitting the result gives
/// them back.
pub proof fn pack_unpack_round_trip<T>(r: [[T; 3]; 3], t: [T; 3], zero: T)
    ensures
        forall|i: int, j: int| 0 <= i < 3 && 0 <= j < 3 ==> #[trigger] block_3x3(row_major_3x3(r) + t@, zero)[i][j] == r@[i]@[j],
        translation(row_major_3x3(r) + t@, zero) == t@,
{
    assert forall|i: int, j: int| 0 <= i < 3 && 0 <= j < 3 implies #[trigger] block_3x3(row_major_3x3(r) + t@, zero)[i][j] == r@[i]@[j] by {
        assert((3 * i + j) / 3 == i);
        assert((3 * i + j) % 3 == j);
    }
    assert(translation(row_major_3x3(r) + t@, zero) =~= t@);
}

} // verus!

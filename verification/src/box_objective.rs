//! Length checks of an objective extended by infinity outside a
//! session's coordinate box.
//!
//! A requested side (`lo` or `hi`) is either empty, one value broadcast
//! to every coordinate, or one value per coordinate; the objective's own
//! bounds must have one value per coordinate.

use vstd::prelude::*;

use crate::error::Error;

verus! {

/// A requested side of length `len` is usable on a `dim`-dimensional
/// objective: empty, broadcast, or one value per coordinate.
pub open spec fn side_len_ok(len: usize, dim: usize) -> bool {
    len == 0 || len == 1 || len == dim
}

/// The first length error of a box request on a `dim`-dimensional
/// objective: the lower side, then the upper side, then the
/// objective's own lower and upper bounds.
pub open spec fn spec_box_dims(
    lo_len: Option<usize>,
    hi_len: Option<usize>,
    low_len: usize,
    high_len: usize,
    dim: usize,
) -> Result<(), Error> {
    match (lo_len, hi_len) {
        (Some(l), _) if !side_len_ok(l, dim) => Err(Error::Dim { got: l, dim }),
        (_, Some(h)) if !side_len_ok(h, dim) => Err(Error::Dim { got: h, dim }),
        _ => if low_len != dim || high_len != dim {
            Err(Error::Dim { got: low_len, dim })
        } else {
            Ok(())
        },
    }
}

/// Check the lengths of a coordinate-box request before any bound is
/// merged: `lo_len` / `hi_len` are the lengths of the requested sides
/// (when given), `low_len` / `high_len` those of the objective's own
/// bounds. The first mismatch is reported as [`Error::Dim`].
pub fn box_dims(
    lo_len: Option<usize>,
    hi_len: Option<usize>,
    low_len: usize,
    high_len: usize,
    dim: usize,
) -> (r: Result<(), Error>)
    ensures
        r == spec_box_dims(lo_len, hi_len, low_len, high_len, dim),
{
    if let Some(l) = lo_len {
        if l != 0 && l != 1 && l != dim {
            return Err(Error::Dim { got: l, dim });
        }
    }
    if let Some(h) = hi_len {
        if h != 0 && h != 1 && h != dim {
            return Err(Error::Dim { got: h, dim });
        }
    }
    if low_len != dim || high_len != dim {
        return Err(Error::Dim { got: low_len, dim });
    }
    Ok(())
}

/// A requested side of length `len` is usable on a `dim`-dimensional
/// objective exactly when it is absent, empty, a single value broadcast
/// to every coordinate, or one value per coordinate.
pub open spec fn side_usable(len: Option<usize>, dim: usize) -> bool {
    match len {
        None => true,
        Some(l) => l == 0 || l == 1 || l == dim,
    }
}

/// What the length check of a box request answers. It passes exactly
/// when both requested sides are usable (absent, empty, broadcast from
/// one value, or one value per coordinate) and the objective's own
/// lower and upper bounds have one value per coordinate. Otherwise it
/// reports the first bad length as `Dim { got, dim }`: the lower side,
/// then the upper side, then the objective's lower bound (whose length
/// is named even when only the upper bound is off).
pub proof fn box_dims_law(
    lo_len: Option<usize>,
    hi_len: Option<usize>,
    low_len: usize,
    high_len: usize,
    dim: usize,
)
    ensures
        spec_box_dims(lo_len, hi_len, low_len, high_len, dim) is Ok <==> (side_usable(lo_len, dim)
            && side_usable(hi_len, dim) && low_len == dim && high_len == dim),
        !side_usable(lo_len, dim) ==> spec_box_dims(lo_len, hi_len, low_len, high_len, dim)
            == Err::<(), Error>(Error::Dim { got: lo_len.unwrap(), dim }),
        side_usable(lo_len, dim) && !side_usable(hi_len, dim) ==> spec_box_dims(
            lo_len,
            hi_len,
            low_len,
            high_len,
            dim,
        ) == Err::<(), Error>(Error::Dim { got: hi_len.unwrap(), dim }),
        side_usable(lo_len, dim) && side_usable(hi_len, dim) && (low_len != dim || high_len
            != dim) ==> spec_box_dims(lo_len, hi_len, low_len, high_len, dim) == Err::<(), Error>(
            Error::Dim { got: low_len, dim },
        ),
{
}

} // verus!

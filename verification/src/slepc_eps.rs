//! SLEPc EPS tokens and the typed `EPSSet*` / `STSet*` plan of the IRC
//! kick. The PETSc options database is not a config channel: the plan
//! carries only typed values.

use vstd::prelude::*;

use crate::error::Error;
use crate::lowest_mode::{at_least_one, EigenParams};

verus! {

/// SLEPc `EPSWhich`. [`SlepcWhich::as_slepc`] gives the `slepceps.h`
/// integer of each variant.
#[derive(Clone, Copy, Debug, PartialEq, Eq)]
pub enum SlepcWhich {
    /// `EPS_LARGEST_MAGNITUDE`
    LargestMagnitude,
    /// `EPS_SMALLEST_MAGNITUDE`
    SmallestMagnitude,
    /// `EPS_LARGEST_REAL`
    LargestReal,
    /// `EPS_SMALLEST_REAL`
    SmallestReal,
    /// `EPS_LARGEST_IMAGINARY`
    LargestImaginary,
    /// `EPS_SMALLEST_IMAGINARY`
    SmallestImaginary,
    /// `EPS_TARGET_MAGNITUDE`
    TargetMagnitude,
    /// `EPS_TARGET_REAL`
    TargetReal,
    /// `EPS_TARGET_IMAGINARY`
    TargetImaginary,
    /// `EPS_ALL`
    All,
    /// `EPS_WHICH_USER`
    WhichUser,
}

impl SlepcWhich {
    /// The index of the variant in the order the enum declares them,
    /// which is the order of `slepceps.h`.
    pub open spec fn position(self) -> int {
        match self {
            SlepcWhich::LargestMagnitude => 0,
            SlepcWhich::SmallestMagnitude => 1,
            SlepcWhich::LargestReal => 2,
            SlepcWhich::SmallestReal => 3,
            SlepcWhich::LargestImaginary => 4,
            SlepcWhich::SmallestImaginary => 5,
            SlepcWhich::TargetMagnitude => 6,
            SlepcWhich::TargetReal => 7,
            SlepcWhich::TargetImaginary => 8,
            SlepcWhich::All => 9,
            SlepcWhich::WhichUser => 10,
        }
    }

    /// The `slepceps.h` value of `EPSWhich`.
    pub open spec fn spec_slepc(self) -> i32 {
        match self {
            SlepcWhich::LargestMagnitude => 1,
            SlepcWhich::SmallestMagnitude => 2,
            SlepcWhich::LargestReal => 3,
            SlepcWhich::SmallestReal => 4,
            SlepcWhich::LargestImaginary => 5,
            SlepcWhich::SmallestImaginary => 6,
            SlepcWhich::TargetMagnitude => 7,
            SlepcWhich::TargetReal => 8,
            SlepcWhich::TargetImaginary => 9,
            SlepcWhich::All => 10,
            SlepcWhich::WhichUser => 11,
        }
    }

    /// The integer handed to `EPSSetWhichEigenpairs`.
    pub fn as_slepc(self) -> (r: i32)
        ensures
            r == self.spec_slepc(),
    {
        match self {
            SlepcWhich::LargestMagnitude => 1,
            SlepcWhich::SmallestMagnitude => 2,
            SlepcWhich::LargestReal => 3,
            SlepcWhich::SmallestReal => 4,
            SlepcWhich::LargestImaginary => 5,
            SlepcWhich::SmallestImaginary => 6,
            SlepcWhich::TargetMagnitude => 7,
            SlepcWhich::TargetReal => 8,
            SlepcWhich::TargetImaginary => 9,
            SlepcWhich::All => 10,
            SlepcWhich::WhichUser => 11,
        }
    }
}

/// SLEPc `EPSProblemType`. [`SlepcProblem::as_slepc`] gives the
/// `slepceps.h` integer of each variant.
#[derive(Clone, Copy, Debug, PartialEq, Eq)]
pub enum SlepcProblem {
    /// `EPS_HEP` (real-symmetric Hessian).
    Hep,
    /// `EPS_GHEP`
    Ghep,
    /// `EPS_NHEP`
    Nhep,
    /// `EPS_GNHEP`
    Gnhep,
    /// `EPS_PGNHEP`
    Pgnhep,
    /// `EPS_GHIEP`
    Ghiep,
    /// `EPS_BSE`
    Bse,
    /// `EPS_HAMILT`
    Hamilt,
    /// `EPS_LREP`
    Lrep,
}

impl SlepcProblem {
    /// The index of the variant in the order the enum declares them,
    /// which is the order of `slepceps.h`.
    pub open spec fn position(self) -> int {
        match self {
            SlepcProblem::Hep => 0,
            SlepcProblem::Ghep => 1,
            SlepcProblem::Nhep => 2,
            SlepcProblem::Gnhep => 3,
            SlepcProblem::Pgnhep => 4,
            SlepcProblem::Ghiep => 5,
            SlepcProblem::Bse => 6,
            SlepcProblem::Hamilt => 7,
            SlepcProblem::Lrep => 8,
        }
    }

    /// The `slepceps.h` value of `EPSProblemType`.
    pub open spec fn spec_slepc(self) -> i32 {
        match self {
            SlepcProblem::Hep => 1,
            SlepcProblem::Ghep => 2,
            SlepcProblem::Nhep => 3,
            SlepcProblem::Gnhep => 4,
            SlepcProblem::Pgnhep => 5,
            SlepcProblem::Ghiep => 6,
            SlepcProblem::Bse => 7,
            SlepcProblem::Hamilt => 8,
            SlepcProblem::Lrep => 9,
        }
    }

    /// The integer handed to `EPSSetProblemType`.
    pub fn as_slepc(self) -> (r: i32)
        ensures
            r == self.spec_slepc(),
    {
        match self {
            SlepcProblem::Hep => 1,
            SlepcProblem::Ghep => 2,
            SlepcProblem::Nhep => 3,
            SlepcProblem::Gnhep => 4,
            SlepcProblem::Pgnhep => 5,
            SlepcProblem::Ghiep => 6,
            SlepcProblem::Bse => 7,
            SlepcProblem::Hamilt => 8,
            SlepcProblem::Lrep => 9,
        }
    }
}

/// Closed ST kind. The official `STType` literals stay inside the crate.
#[derive(Clone, Copy, Debug, PartialEq, Eq)]
pub enum SlepcStKind {
    /// `STSHIFT`
    Shift,
    /// `STSINVERT`
    Sinvert,
    /// `STPRECOND`
    Precond,
}

impl SlepcStKind {
    /// The NUL-terminated official `STType` literal.
    pub open spec fn spec_sttype(self) -> Seq<char> {
        match self {
            SlepcStKind::Shift => "shift\0"@,
            SlepcStKind::Sinvert => "sinvert\0"@,
            SlepcStKind::Precond => "precond\0"@,
        }
    }

    /// Official SLEPc `STType` for `STSetType`, NUL-terminated so that
    /// its pointer is a C string. Not a host string key.
    pub fn as_sttype(self) -> (r: &'static str)
        ensures
            r@ == self.spec_sttype(),
    {
        match self {
            SlepcStKind::Shift => "shift\0",
            SlepcStKind::Sinvert => "sinvert\0",
            SlepcStKind::Precond => "precond\0",
        }
    }
}

/// Typed `EPSSet*` / `STSet*` plan. No options-database keys. The
/// residual tolerance is a real number and travels beside the plan.
#[derive(Clone, Copy, Debug, PartialEq, Eq)]
pub struct SlepcPlan {
    /// `EPSSetWhichEigenpairs`.
    pub which: SlepcWhich,
    /// `EPSSetProblemType`.
    pub problem: SlepcProblem,
    /// `EPSSetDimensions` `nev`.
    pub nev: i32,
    /// `EPSSetDimensions` `ncv`.
    pub ncv: i32,
    /// `EPSSetTolerances` `max_it`.
    pub max_it: i32,
    /// `STSetType` via [`SlepcStKind::as_sttype`].
    pub st: SlepcStKind,
    /// Whether `STSetPreconditionerMat` runs.
    pub has_pmat: bool,
}

impl SlepcPlan {
    /// IRC kick on an `n`-dimensional problem: Hermitian, smallest real,
    /// shell operator. A host Pmat selects `STPRECOND`, otherwise
    /// `STSHIFT`. `nev` is `max(nev, 1)` capped at `n`; `ncv` is the
    /// Krylov dimension clamped to `nev + 1 ..= n`; `max_it` is the
    /// outer iteration count.
    ///
    /// The clamp needs room above `nev`, so the problem must be larger
    /// than the pairs requested; PETSc integers are 32-bit.
    pub fn from_params(params: &EigenParams, n: usize, has_pmat: bool) -> (r: Self)
        requires
            at_least_one(params.nev as int) < n,
            n <= i32::MAX,
            params.spec_iterations(n) <= i32::MAX,
        ensures
            r.which == SlepcWhich::SmallestReal,
            r.problem == SlepcProblem::Hep,
            r.nev == at_least_one(params.nev as int),
            r.ncv == (if params.spec_krylov_dim(n) < r.nev + 1 {
                r.nev + 1
            } else {
                params.spec_krylov_dim(n)
            }),
            r.nev < r.ncv <= n,
            r.max_it == params.spec_iterations(n),
            r.st == (if has_pmat { SlepcStKind::Precond } else { SlepcStKind::Shift }),
            r.has_pmat == has_pmat,
    {
        let nev_u: usize = if params.nev >= 1 { params.nev } else { 1 };
        let nev: i32 = nev_u as i32;
        let k = params.krylov_dim(n);
        let ncv: i32 = if (k as i32) < nev + 1 {
            nev + 1
        } else {
            k as i32
        };
        let max_it = params.iterations(n) as i32;
        SlepcPlan {
            which: SlepcWhich::SmallestReal,
            problem: SlepcProblem::Hep,
            nev,
            ncv,
            max_it,
            st: if has_pmat {
                SlepcStKind::Precond
            } else {
                SlepcStKind::Shift
            },
            has_pmat,
        }
    }
}

/// Map a PETSc / SLEPc status code: 0 is success, anything else is
/// [`Error::Oracle`] naming the call `what`.
pub fn chk(err: i32, what: &'static str) -> (r: Result<(), Error>)
    ensures
        err == 0 ==> r == Ok::<(), Error>(()),
        err != 0 ==> r == Err::<(), Error>(Error::Oracle { what }),
{
    if err == 0 {
        Ok(())
    } else {
        Err(Error::Oracle { what })
    }
}

/// `slepceps.h` numbers `EPSWhich` from 1 and `EPSProblemType` from 1,
/// in the order the variants are declared here: the integer of each
/// variant is one more than its position, the positions run through
/// `0..=10` and `0..=8` without gaps, and two variants with one integer
/// are one variant. So `LargestReal` is 3, `SmallestReal` 4 and `Hep` 1.
pub proof fn slepc_integers_follow_the_header(
    a: SlepcWhich,
    b: SlepcWhich,
    c: SlepcProblem,
    d: SlepcProblem,
)
    ensures
        a.spec_slepc() == a.position() + 1,
        0 <= a.position() <= 10,
        a.spec_slepc() == b.spec_slepc() ==> a == b,
        c.spec_slepc() == c.position() + 1,
        0 <= c.position() <= 8,
        c.spec_slepc() == d.spec_slepc() ==> c == d,
{
}

} // verus!

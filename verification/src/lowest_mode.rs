//! The closed eigensolver tag, its typed parameters, and the dispatch of
//! the matrix-free lowest-eigenpair waist.
//!
//! Lanczos, Rayleigh-Ritz, Jacobi-Davidson, LOBPCG and the dimer run in
//! this crate. Every other backend the schema names is not linked into
//! this build and fails closed with [`Error::EigenUnavailable`]; EigenExa
//! first refuses a partial request with [`Error::EigenFullSpectrum`].
//! Ordinals match the schema.

use vstd::prelude::*;

use crate::dlaf_kind::DlaFutureParams;
use crate::error::Error;

verus! {

/// Below this order the dense distributed backends (ELPA, SLATE,
/// DLA-Future) refuse a problem.
pub const DENSE_EIGEN_CUTOFF: usize = 512;

/// Closed eigensolver tag. Ordinals match the schema.
#[derive(Clone, Copy, Debug, PartialEq, Eq, Hash)]
pub enum EigensolverKind {
    /// Lanczos with a tiny Jacobi on the tridiagonal. Default IRC kick.
    Lanczos,
    /// Residual-expanded Rayleigh-Ritz.
    RayleighRitz,
    /// Jacobi-Davidson correction with a matrix-free inner CG.
    JacobiDavidson,
    /// LOBPCG, one pair.
    Lobpcg,
    /// PRIMME `dprimme`. Not linked into this build.
    Primme,
    /// SLEPc EPS. Not linked into this build.
    Slepc,
    /// ChASE Chebyshev filter on an assembled dense H. Not linked.
    Chase,
    /// ELPA dense distributed. Not linked.
    Elpa,
    /// ELPA2. Not linked.
    Elpa2,
    /// SLATE heev. Not linked.
    Slate,
    /// MAGMA syev. Not linked.
    Magma,
    /// cuSOLVER dense / batched. Not linked.
    Cusolver,
    /// DLA-Future partial spectrum, window starting at 0. Not linked.
    DlaFuture,
    /// EigenExa. Full spectrum only. Not linked.
    EigenExa,
    /// Jonsson dimer with Heyden plane rotations. Linked, matrix-free.
    Dimer,
}

impl EigensolverKind {
    /// The schema ordinal.
    pub open spec fn ordinal(self) -> u8 {
        match self {
            EigensolverKind::Lanczos => 0,
            EigensolverKind::RayleighRitz => 1,
            EigensolverKind::JacobiDavidson => 2,
            EigensolverKind::Lobpcg => 3,
            EigensolverKind::Primme => 4,
            EigensolverKind::Slepc => 5,
            EigensolverKind::Chase => 6,
            EigensolverKind::Elpa => 7,
            EigensolverKind::Elpa2 => 8,
            EigensolverKind::Slate => 9,
            EigensolverKind::Magma => 10,
            EigensolverKind::Cusolver => 11,
            EigensolverKind::DlaFuture => 12,
            EigensolverKind::EigenExa => 13,
            EigensolverKind::Dimer => 14,
        }
    }

    /// The schema / C ABI name.
    pub open spec fn spec_name(self) -> Seq<char> {
        match self {
            EigensolverKind::Lanczos => "lanczos"@,
            EigensolverKind::RayleighRitz => "rayleighRitz"@,
            EigensolverKind::JacobiDavidson => "jacobiDavidson"@,
            EigensolverKind::Lobpcg => "lobpcg"@,
            EigensolverKind::Primme => "primme"@,
            EigensolverKind::Slepc => "slepc"@,
            EigensolverKind::Chase => "chase"@,
            EigensolverKind::Elpa => "elpa"@,
            EigensolverKind::Elpa2 => "elpa2"@,
            EigensolverKind::Slate => "slate"@,
            EigensolverKind::Magma => "magma"@,
            EigensolverKind::Cusolver => "cusolver"@,
            EigensolverKind::DlaFuture => "dlaFuture"@,
            EigensolverKind::EigenExa => "eigenExa"@,
            EigensolverKind::Dimer => "dimer"@,
        }
    }

    /// The backends built into this crate: the five matrix-free solvers
    /// that run here.
    pub open spec fn spec_is_linked(self) -> bool {
        match self {
            EigensolverKind::Lanczos
            | EigensolverKind::RayleighRitz
            | EigensolverKind::JacobiDavidson
            | EigensolverKind::Lobpcg
            | EigensolverKind::Dimer => true,
            _ => false,
        }
    }

    /// The backends that work from Hessian actions alone.
    pub open spec fn spec_is_matrix_free(self) -> bool {
        match self {
            EigensolverKind::Lanczos
            | EigensolverKind::RayleighRitz
            | EigensolverKind::JacobiDavidson
            | EigensolverKind::Lobpcg
            | EigensolverKind::Primme
            | EigensolverKind::Slepc
            | EigensolverKind::Dimer => true,
            _ => false,
        }
    }

    /// Schema / C ABI name. Never a free-form string key.
    pub fn name(self) -> (r: &'static str)
        ensures
            r@ == self.spec_name(),
    {
        match self {
            EigensolverKind::Lanczos => "lanczos",
            EigensolverKind::RayleighRitz => "rayleighRitz",
            EigensolverKind::JacobiDavidson => "jacobiDavidson",
            EigensolverKind::Lobpcg => "lobpcg",
            EigensolverKind::Primme => "primme",
            EigensolverKind::Slepc => "slepc",
            EigensolverKind::Chase => "chase",
            EigensolverKind::Elpa => "elpa",
            EigensolverKind::Elpa2 => "elpa2",
            EigensolverKind::Slate => "slate",
            EigensolverKind::Magma => "magma",
            EigensolverKind::Cusolver => "cusolver",
            EigensolverKind::DlaFuture => "dlaFuture",
            EigensolverKind::EigenExa => "eigenExa",
            EigensolverKind::Dimer => "dimer",
        }
    }

    /// Built into this crate. Unlinked kinds are refused with
    /// [`Error::EigenUnavailable`].
    pub fn is_linked(self) -> (r: bool)
        ensures
            r == self.spec_is_linked(),
    {
        match self {
            EigensolverKind::Lanczos
            | EigensolverKind::RayleighRitz
            | EigensolverKind::JacobiDavidson
            | EigensolverKind::Lobpcg
            | EigensolverKind::Dimer => true,
            _ => false,
        }
    }

    /// Works from Hessian actions, with no assembled matrix.
    pub fn is_matrix_free(self) -> (r: bool)
        ensures
            r == self.spec_is_matrix_free(),
    {
        match self {
            EigensolverKind::Lanczos
            | EigensolverKind::RayleighRitz
            | EigensolverKind::JacobiDavidson
            | EigensolverKind::Lobpcg
            | EigensolverKind::Primme
            | EigensolverKind::Slepc
            | EigensolverKind::Dimer => true,
            _ => false,
        }
    }

    /// Decode a schema / C ordinal. Unknown integers are `None`.
    pub fn from_ordinal(raw: u8) -> (r: Option<Self>)
        ensures
            r is Some <==> raw <= 14,
            r matches Some(k) ==> k.ordinal() == raw,
    {
        match raw {
            0 => Some(EigensolverKind::Lanczos),
            1 => Some(EigensolverKind::RayleighRitz),
            2 => Some(EigensolverKind::JacobiDavidson),
            3 => Some(EigensolverKind::Lobpcg),
            4 => Some(EigensolverKind::Primme),
            5 => Some(EigensolverKind::Slepc),
            6 => Some(EigensolverKind::Chase),
            7 => Some(EigensolverKind::Elpa),
            8 => Some(EigensolverKind::Elpa2),
            9 => Some(EigensolverKind::Slate),
            10 => Some(EigensolverKind::Magma),
            11 => Some(EigensolverKind::Cusolver),
            12 => Some(EigensolverKind::DlaFuture),
            13 => Some(EigensolverKind::EigenExa),
            14 => Some(EigensolverKind::Dimer),
            _ => None,
        }
    }
}

/// Typed integer parameters of a lowest-eigenpair request. No string
/// fields. The residual tolerance is a real number and travels beside
/// these.
#[derive(Clone, Copy, Debug, PartialEq, Eq)]
pub struct EigenParams {
    /// Which backend.
    pub kind: EigensolverKind,
    /// Extremal pairs requested. The IRC kick uses 1.
    pub nev: usize,
    /// Krylov / subspace cap. 0 selects `min(n, 12)`.
    pub krylov: usize,
    /// Outer iterations. 0 selects `n`.
    pub max_iter: usize,
    /// ChASE filter degree. 0 selects 20.
    pub degree: usize,
    /// ChASE search-space extra (`nex`). 0 selects `max(8, ceil(0.2 * nev))`.
    pub extra: usize,
}

impl Default for EigenParams {
    /// Lanczos for one pair; every other knob at its library default.
    fn default() -> (r: Self)
        ensures
            r == (EigenParams {
                kind: EigensolverKind::Lanczos,
                nev: 1,
                krylov: 0,
                max_iter: 0,
                degree: 0,
                extra: 0,
            }),
    {
        EigenParams {
            kind: EigensolverKind::Lanczos,
            nev: 1,
            krylov: 0,
            max_iter: 0,
            degree: 0,
            extra: 0,
        }
    }
}

/// `a` when it is positive, else 1.
pub open spec fn at_least_one(a: int) -> int {
    if a >= 1 { a } else { 1 }
}

impl EigenParams {
    /// The subspace size asked for, before clamping.
    pub open spec fn spec_krylov_request(self, n: usize) -> int {
        if self.krylov == 0 {
            if n < 12 { n as int } else { 12 }
        } else {
            self.krylov as int
        }
    }

    /// The subspace size `min(n, 12)` or `krylov`, clamped to `1..=max(n, 1)`.
    pub open spec fn spec_krylov_dim(self, n: usize) -> int {
        let k = self.spec_krylov_request(n);
        if k < 1 {
            1
        } else if k > at_least_one(n as int) {
            at_least_one(n as int)
        } else {
            k
        }
    }

    /// Outer iterations: `max_iter`, or `n` when it is 0.
    pub open spec fn spec_iterations(self, n: usize) -> int {
        if self.max_iter == 0 {
            n as int
        } else {
            self.max_iter as int
        }
    }

    /// ChASE `nex`: `extra`, or `max(8, ceil(max(nev, 1) / 5))` when it is 0.
    pub open spec fn spec_chase_extra(self) -> int {
        if self.extra == 0 {
            let frac = (at_least_one(self.nev as int) + 4) / 5;
            if frac > 8 { frac } else { 8 }
        } else {
            self.extra as int
        }
    }

    /// Krylov dimension on an `n`-dimensional problem. 0 selects
    /// `min(n, 12)`; the result always lies in `1..=max(n, 1)`.
    pub fn krylov_dim(self, n: usize) -> (r: usize)
        ensures
            r == self.spec_krylov_dim(n),
            1 <= r <= at_least_one(n as int),
    {
        let k: usize = if self.krylov == 0 {
            if n < 12 { n } else { 12 }
        } else {
            self.krylov
        };
        let hi: usize = if n >= 1 { n } else { 1 };
        if k < 1 {
            1
        } else if k > hi {
            hi
        } else {
            k
        }
    }

    /// Outer iterations on an `n`-dimensional problem. 0 selects `n`.
    pub fn iterations(self, n: usize) -> (r: usize)
        ensures
            r == self.spec_iterations(n),
    {
        if self.max_iter == 0 {
            n
        } else {
            self.max_iter
        }
    }

    /// ChASE initial degree. 0 selects 20.
    pub fn chase_degree(self) -> (r: usize)
        ensures
            r == (if self.degree == 0 { 20 } else { self.degree as int }),
    {
        if self.degree == 0 {
            20
        } else {
            self.degree
        }
    }

    /// ChASE `nex`. 0 selects `max(8, ceil(0.2 * nev))`, never 0.2 at
    /// `nev = 1`.
    pub fn chase_extra(self) -> (r: usize)
        ensures
            r == self.spec_chase_extra(),
            self.extra == 0 ==> r >= 8,
    {
        if self.extra == 0 {
            let m: usize = if self.nev >= 1 { self.nev } else { 1 };
            let frac: usize = m / 5 + if m % 5 != 0 { 1 } else { 0 };
            assert(frac == (m + 4) / 5);
            if frac > 8 { frac } else { 8 }
        } else {
            self.extra
        }
    }

    /// Plane rotations of the dimer. 0 selects 20.
    pub fn dimer_rotations(self) -> (r: usize)
        ensures
            r == (if self.max_iter == 0 { 20 } else { self.max_iter as int }),
    {
        if self.max_iter == 0 {
            20
        } else {
            self.max_iter
        }
    }

    /// ChASE outer iterations. 0 selects 25, not `n`.
    pub fn chase_iterations(self) -> (r: usize)
        ensures
            r == (if self.max_iter == 0 { 25 } else { self.max_iter as int }),
    {
        if self.max_iter == 0 {
            25
        } else {
            self.max_iter
        }
    }
}

/// Closed left-preconditioner on the lowest-mode waist. Ordinals are
/// tokens, not PETSc strings.
#[derive(Clone, Copy, Debug, PartialEq, Eq, Hash)]
pub enum PreconditionerKind {
    /// `T = I`.
    Identity,
    /// Inverse diagonal (Jacobi).
    Diagonal,
    /// Inverse 3-by-3 blocks on a 3N packing.
    Block3,
    /// Host-supplied preconditioner.
    User,
}

impl PreconditionerKind {
    /// The token ordinal.
    pub open spec fn ordinal(self) -> u8 {
        match self {
            PreconditionerKind::Identity => 0,
            PreconditionerKind::Diagonal => 1,
            PreconditionerKind::Block3 => 2,
            PreconditionerKind::User => 3,
        }
    }

    /// The token name.
    pub open spec fn spec_name(self) -> Seq<char> {
        match self {
            PreconditionerKind::Identity => "none"@,
            PreconditionerKind::Diagonal => "diagonal"@,
            PreconditionerKind::Block3 => "block3"@,
            PreconditionerKind::User => "user"@,
        }
    }

    /// Token name.
    pub fn name(self) -> (r: &'static str)
        ensures
            r@ == self.spec_name(),
    {
        match self {
            PreconditionerKind::Identity => "none",
            PreconditionerKind::Diagonal => "diagonal",
            PreconditionerKind::Block3 => "block3",
            PreconditionerKind::User => "user",
        }
    }

    /// Closed ordinal, or `None`.
    pub fn from_ordinal(raw: u8) -> (r: Option<Self>)
        ensures
            r is Some <==> raw <= 3,
            r matches Some(k) ==> k.ordinal() == raw,
    {
        match raw {
            0 => Some(PreconditionerKind::Identity),
            1 => Some(PreconditionerKind::Diagonal),
            2 => Some(PreconditionerKind::Block3),
            3 => Some(PreconditionerKind::User),
            _ => None,
        }
    }
}

/// The identity left preconditioner `T r = r`.
#[derive(Clone, Copy, Debug, Default)]
pub struct IdentityPrecond;

impl IdentityPrecond {
    /// Closed kind for the C waist: the identity is [`PreconditionerKind::Identity`].
    pub fn kind(&self) -> (r: PreconditionerKind)
        ensures
            r == PreconditionerKind::Identity,
    {
        PreconditionerKind::Identity
    }
}

/// The preconditioner ordinals are a bijection between the tokens and
/// `0..=3`, so `from_ordinal` is the exact inverse of the ordinal.
pub proof fn preconditioner_ordinals_are_closed(a: PreconditionerKind, b: PreconditionerKind, raw: u8)
    ensures
        a.ordinal() == b.ordinal() ==> a == b,
        a.ordinal() <= 3,
        raw <= 3 ==> exists|k: PreconditionerKind| #[trigger] k.ordinal() == raw,
{
    if raw == 0 {
        assert(PreconditionerKind::Identity.ordinal() == raw);
    } else if raw == 1 {
        assert(PreconditionerKind::Diagonal.ordinal() == raw);
    } else if raw == 2 {
        assert(PreconditionerKind::Block3.ordinal() == raw);
    } else if raw == 3 {
        assert(PreconditionerKind::User.ordinal() == raw);
    }
}

/// The answer of the EigenExa arm on an `n`-dimensional request for
/// `nev` pairs. EigenExa has no partial spectrum: `nev < n` is refused
/// as [`Error::EigenFullSpectrum`]; a full request is
/// [`Error::EigenUnavailable`] because EigenExa is not linked, and the
/// arm never assembles `H` from Hessian actions.
pub open spec fn spec_eigenexa_refusal(n: usize, nev: usize) -> Error {
    if n == 0 {
        Error::Dim { got: 0, dim: 0 }
    } else if nev < n {
        Error::EigenFullSpectrum { kind: EigensolverKind::EigenExa, nev, n }
    } else {
        Error::EigenUnavailable { kind: EigensolverKind::EigenExa }
    }
}

/// Why the EigenExa arm refuses an `n`-dimensional request for `nev` pairs.
pub fn eigenexa_refusal(n: usize, nev: usize) -> (r: Error)
    ensures
        r == spec_eigenexa_refusal(n, nev),
{
    if n == 0 {
        Error::Dim { got: 0, dim: 0 }
    } else if nev < n {
        Error::EigenFullSpectrum { kind: EigensolverKind::EigenExa, nev, n }
    } else {
        Error::EigenUnavailable { kind: EigensolverKind::EigenExa }
    }
}

/// Which built-in solver the matrix-free waist runs for `params` on an
/// `n`-dimensional seed, or why it refuses.
///
/// An empty seed is a dimension error. A linked kind runs itself. An
/// unlinked kind fails closed: EigenExa through its own arm, every other
/// one as [`Error::EigenUnavailable`]. The waist never assembles `H` for
/// a dense backend.
pub fn lowest_mode_backend(params: &EigenParams, n: usize) -> (r: Result<EigensolverKind, Error>)
    ensures
        n == 0 ==> r == Err::<EigensolverKind, Error>(Error::Dim { got: 0, dim: 0 }),
        n > 0 && params.kind.spec_is_linked() ==> r == Ok::<EigensolverKind, Error>(params.kind),
        n > 0 && params.kind == EigensolverKind::EigenExa ==> r == Err::<EigensolverKind, Error>(
            spec_eigenexa_refusal(n, params.nev),
        ),
        n > 0 && !params.kind.spec_is_linked() && params.kind != EigensolverKind::EigenExa ==> r
            == Err::<EigensolverKind, Error>(Error::EigenUnavailable { kind: params.kind }),
        r is Ok <==> n > 0 && params.kind.spec_is_linked(),
{
    if n == 0 {
        return Err(Error::Dim { got: 0, dim: 0 });
    }
    if params.kind.is_linked() {
        Ok(params.kind)
    } else {
        match params.kind {
            EigensolverKind::EigenExa => Err(eigenexa_refusal(n, params.nev)),
            other => Err(Error::EigenUnavailable { kind: other }),
        }
    }
}

/// Inner CG steps of a Jacobi-Davidson correction on an
/// `n`-dimensional problem: `n / 4`, kept within `4..=16`.
pub fn jd_inner_steps(n: usize) -> (r: usize)
    ensures
        r == (if n / 4 < 4 { 4 } else if n / 4 > 16 { 16 } else { n / 4 }),
{
    let q = n / 4;
    if q < 4 {
        4
    } else if q > 16 {
        16
    } else {
        q
    }
}

/// The answer of a matrix-free arm whose backend is not linked into
/// this build (PRIMME, SLEPc) on a length-`n` seed: an empty seed is a
/// dimension error, anything else [`Error::EigenUnavailable`].
pub fn unbuilt_refusal(kind: EigensolverKind, n: usize) -> (r: Error)
    ensures
        n == 0 ==> r == (Error::Dim { got: 0, dim: 0 }),
        n > 0 ==> r == (Error::EigenUnavailable { kind }),
{
    if n == 0 {
        Error::Dim { got: 0, dim: 0 }
    } else {
        Error::EigenUnavailable { kind }
    }
}

/// Why the DLA-Future assembled-H arm refuses an `n x n` problem: an
/// empty problem, a window that does not start at 0, an order below
/// [`DENSE_EIGEN_CUTOFF`], and otherwise [`Error::EigenUnavailable`]
/// because DLA-Future is not linked.
pub fn dlaf_refusal(n: usize, dlaf: &DlaFutureParams) -> (r: Error)
    ensures
        n == 0 ==> r == (Error::Dim { got: 0, dim: 0 }),
        n > 0 && dlaf.begin != 0 ==> r == (Error::EigenBegin {
            kind: EigensolverKind::DlaFuture,
            begin: dlaf.begin,
        }),
        n > 0 && dlaf.begin == 0 && n < DENSE_EIGEN_CUTOFF ==> r == (Error::EigenDenseCutoff {
            kind: EigensolverKind::DlaFuture,
            n,
            cutoff: DENSE_EIGEN_CUTOFF,
        }),
        n >= DENSE_EIGEN_CUTOFF && dlaf.begin == 0 ==> r == (Error::EigenUnavailable {
            kind: EigensolverKind::DlaFuture,
        }),
{
    if n == 0 {
        return Error::Dim { got: 0, dim: 0 };
    }
    if dlaf.begin != 0 {
        return Error::EigenBegin { kind: EigensolverKind::DlaFuture, begin: dlaf.begin };
    }
    if n < DENSE_EIGEN_CUTOFF {
        return Error::EigenDenseCutoff {
            kind: EigensolverKind::DlaFuture,
            n,
            cutoff: DENSE_EIGEN_CUTOFF,
        };
    }
    Error::EigenUnavailable { kind: EigensolverKind::DlaFuture }
}

/// The dense distributed backends of the assembled-H entry.
pub open spec fn is_dense_distributed(kind: EigensolverKind) -> bool {
    kind == EigensolverKind::Elpa || kind == EigensolverKind::Elpa2 || kind
        == EigensolverKind::Slate
}

/// The answer of the assembled symmetric-H entry; see [`dense_refusal`].
pub open spec fn spec_dense_refusal(nrows: usize, ncols: usize, kind: EigensolverKind) -> Error {
    if nrows != ncols {
        Error::Dim { got: nrows, dim: ncols }
    } else if nrows == 0 {
        Error::Dim { got: 0, dim: 0 }
    } else if is_dense_distributed(kind) && nrows < DENSE_EIGEN_CUTOFF {
        Error::EigenDenseCutoff { kind, n: nrows, cutoff: DENSE_EIGEN_CUTOFF }
    } else {
        Error::EigenUnavailable { kind }
    }
}

/// Why the assembled symmetric-H entry refuses an `nrows x ncols`
/// matrix for `kind`: a non-square or empty matrix, an order below
/// [`DENSE_EIGEN_CUTOFF`] for ELPA / ELPA2 / SLATE, and otherwise
/// [`Error::EigenUnavailable`], since no dense backend is linked.
pub fn dense_refusal(nrows: usize, ncols: usize, kind: EigensolverKind) -> (r: Error)
    ensures
        r == spec_dense_refusal(nrows, ncols, kind),
        nrows != ncols ==> r == (Error::Dim { got: nrows, dim: ncols }),
        nrows == ncols && nrows == 0 ==> r == (Error::Dim { got: 0, dim: 0 }),
        nrows == ncols && 0 < nrows < DENSE_EIGEN_CUTOFF && is_dense_distributed(kind) ==> r == (
        Error::EigenDenseCutoff { kind, n: nrows, cutoff: DENSE_EIGEN_CUTOFF }),
        nrows == ncols && nrows >= DENSE_EIGEN_CUTOFF && is_dense_distributed(kind) ==> r == (
        Error::EigenUnavailable { kind }),
        nrows == ncols && nrows > 0 && !is_dense_distributed(kind) ==> r == (
        Error::EigenUnavailable { kind }),
{
    if nrows != ncols {
        return Error::Dim { got: nrows, dim: ncols };
    }
    let n = nrows;
    if n == 0 {
        return Error::Dim { got: 0, dim: 0 };
    }
    match kind {
        EigensolverKind::Elpa | EigensolverKind::Elpa2 | EigensolverKind::Slate => {
            if n < DENSE_EIGEN_CUTOFF {
                Error::EigenDenseCutoff { kind, n, cutoff: DENSE_EIGEN_CUTOFF }
            } else {
                Error::EigenUnavailable { kind }
            }
        },
        other => Error::EigenUnavailable { kind: other },
    }
}

/// Why the ChASE assembled-H arm refuses an `nrows x ncols` matrix with
/// a length-`seed_len` seed: a non-square or empty matrix, a seed of
/// the wrong length, and otherwise [`Error::EigenUnavailable`], since
/// ChASE is not linked.
pub fn chase_refusal(nrows: usize, ncols: usize, seed_len: usize) -> (r: Error)
    ensures
        nrows != ncols ==> r == (Error::Dim { got: nrows, dim: ncols }),
        nrows == ncols && nrows == 0 ==> r == (Error::Dim { got: 0, dim: 0 }),
        nrows == ncols && nrows > 0 && seed_len != nrows ==> r == (Error::Dim {
            got: seed_len,
            dim: nrows,
        }),
        nrows == ncols && nrows > 0 && seed_len == nrows ==> r == (Error::EigenUnavailable {
            kind: EigensolverKind::Chase,
        }),
{
    if nrows != ncols {
        return Error::Dim { got: nrows, dim: ncols };
    }
    let n = nrows;
    if n == 0 {
        return Error::Dim { got: 0, dim: 0 };
    }
    if seed_len != n {
        return Error::Dim { got: seed_len, dim: n };
    }
    Error::EigenUnavailable { kind: EigensolverKind::Chase }
}

/// The schema ordinals are a bijection between the eigensolver tags and
/// `0..=14`: two tags with one ordinal are one tag, and every integer in
/// range is some tag's ordinal. With the contract of
/// [`EigensolverKind::from_ordinal`] this makes `from_ordinal` the exact
/// inverse of the ordinal, and `15..` decode to nothing.
pub proof fn eigensolver_ordinals_are_closed(a: EigensolverKind, b: EigensolverKind, raw: u8)
    ensures
        a.ordinal() == b.ordinal() ==> a == b,
        a.ordinal() <= 14,
        raw <= 14 ==> exists|k: EigensolverKind| #[trigger] k.ordinal() == raw,
{
    if raw <= 14 {
        let k = if raw == 0 {
            EigensolverKind::Lanczos
        } else if raw == 1 {
            EigensolverKind::RayleighRitz
        } else if raw == 2 {
            EigensolverKind::JacobiDavidson
        } else if raw == 3 {
            EigensolverKind::Lobpcg
        } else if raw == 4 {
            EigensolverKind::Primme
        } else if raw == 5 {
            EigensolverKind::Slepc
        } else if raw == 6 {
            EigensolverKind::Chase
        } else if raw == 7 {
            EigensolverKind::Elpa
        } else if raw == 8 {
            EigensolverKind::Elpa2
        } else if raw == 9 {
            EigensolverKind::Slate
        } else if raw == 10 {
            EigensolverKind::Magma
        } else if raw == 11 {
            EigensolverKind::Cusolver
        } else if raw == 12 {
            EigensolverKind::DlaFuture
        } else if raw == 13 {
            EigensolverKind::EigenExa
        } else {
            EigensolverKind::Dimer
        };
        assert(k.ordinal() == raw);
    }
}

/// Every backend built into this crate works from Hessian actions
/// alone: nothing linked here assembles `H`.
pub proof fn linked_kinds_are_matrix_free(k: EigensolverKind)
    ensures
        k.spec_is_linked() ==> k.spec_is_matrix_free(),
{
}

/// The schema's eigensolver names, listed by ordinal.
pub open spec fn schema_eigensolver_name(ordinal: u8) -> Seq<char> {
    if ordinal == 0 {
        "lanczos"@
    } else if ordinal == 1 {
        "rayleighRitz"@
    } else if ordinal == 2 {
        "jacobiDavidson"@
    } else if ordinal == 3 {
        "lobpcg"@
    } else if ordinal == 4 {
        "primme"@
    } else if ordinal == 5 {
        "slepc"@
    } else if ordinal == 6 {
        "chase"@
    } else if ordinal == 7 {
        "elpa"@
    } else if ordinal == 8 {
        "elpa2"@
    } else if ordinal == 9 {
        "slate"@
    } else if ordinal == 10 {
        "magma"@
    } else if ordinal == 11 {
        "cusolver"@
    } else if ordinal == 12 {
        "dlaFuture"@
    } else if ordinal == 13 {
        "eigenExa"@
    } else {
        "dimer"@
    }
}

/// A tag's name is the schema name at that tag's ordinal, so names and
/// ordinals travel together: `Elpa` (7) is `elpa`, `Elpa2` (8) is
/// `elpa2`, and no two tags trade names.
pub proof fn eigensolver_names_follow_the_schema(k: EigensolverKind)
    ensures
        k.spec_name() == schema_eigensolver_name(k.ordinal()),
{
}

/// Which tags are linked and which are matrix-free, by schema ordinal:
/// the linked ones are the four iterations `0..=3` and the dimer (14);
/// the matrix-free ones add PRIMME (4) and SLEPc (5).
pub proof fn backend_sets_by_ordinal(k: EigensolverKind)
    ensures
        k.spec_is_linked() <==> (k.ordinal() <= 3 || k.ordinal() == 14),
        k.spec_is_matrix_free() <==> (k.ordinal() <= 5 || k.ordinal() == 14),
        is_dense_distributed(k) <==> (7 <= k.ordinal() <= 9),
{
}

/// EigenExa has no partial spectrum. On a non-empty problem it refuses
/// a request for fewer pairs than the order as `EigenFullSpectrum`,
/// naming the pairs and the order asked for, and a full request as
/// `EigenUnavailable`; an empty problem is a dimension error. The
/// matrix-free waist answers an EigenExa request with exactly this.
pub proof fn eigenexa_refuses_partial_spectrum(n: usize, nev: usize, params: EigenParams)
    ensures
        n > 0 ==> (spec_eigenexa_refusal(n, nev) is EigenFullSpectrum <==> nev < n),
        n > 0 && nev < n ==> spec_eigenexa_refusal(n, nev) == (Error::EigenFullSpectrum {
            kind: EigensolverKind::EigenExa,
            nev,
            n,
        }),
        n > 0 && nev >= n ==> spec_eigenexa_refusal(n, nev) == (Error::EigenUnavailable {
            kind: EigensolverKind::EigenExa,
        }),
        n == 0 ==> spec_eigenexa_refusal(n, nev) == (Error::Dim { got: 0, dim: 0 }),
        params.kind == EigensolverKind::EigenExa ==> !params.kind.spec_is_linked(),
{
}

/// The dense distributed backends, ELPA (7), ELPA2 (8) and SLATE (9),
/// refuse a square non-empty matrix below the cutoff order as
/// `EigenDenseCutoff`, naming the order and the cutoff 512; at or above
/// the cutoff, and for every other backend at any order, a square
/// non-empty matrix is `EigenUnavailable`. A non-square matrix is a
/// dimension error naming both sides, an empty one `Dim { 0, 0 }`.
pub proof fn dense_refusal_law(nrows: usize, ncols: usize, kind: EigensolverKind)
    ensures
        nrows != ncols ==> spec_dense_refusal(nrows, ncols, kind) == (Error::Dim {
            got: nrows,
            dim: ncols,
        }),
        nrows == ncols && nrows == 0 ==> spec_dense_refusal(nrows, ncols, kind) == (Error::Dim {
            got: 0,
            dim: 0,
        }),
        nrows == ncols && 0 < nrows < 512 && 7 <= kind.ordinal() <= 9 ==> spec_dense_refusal(
            nrows,
            ncols,
            kind,
        ) == (Error::EigenDenseCutoff { kind, n: nrows, cutoff: 512 }),
        nrows == ncols && nrows > 0 && (nrows >= 512 || kind.ordinal() < 7 || kind.ordinal() > 9)
            ==> spec_dense_refusal(nrows, ncols, kind) == (Error::EigenUnavailable { kind }),
{
}

/// The preconditioner token names, listed by ordinal.
pub open spec fn schema_preconditioner_name(ordinal: u8) -> Seq<char> {
    if ordinal == 0 {
        "none"@
    } else if ordinal == 1 {
        "diagonal"@
    } else if ordinal == 2 {
        "block3"@
    } else {
        "user"@
    }
}

/// A preconditioner's name is the token name at its ordinal: the
/// identity (0) is `none`, the Jacobi diagonal (1) `diagonal`.
pub proof fn preconditioner_names_follow_the_tokens(k: PreconditionerKind)
    ensures
        k.spec_name() == schema_preconditioner_name(k.ordinal()),
{
}

/// The defaults of an eigen request on an `n`-dimensional problem, as
/// the parameter docs give them: a zero Krylov cap selects `min(n, 12)`
/// and any cap is kept within `1..=max(n, 1)`; zero outer iterations
/// select `n`; a zero ChASE degree selects 20, a zero ChASE extra the
/// larger of 8 and the fifth of `max(nev, 1)` rounded up, and zero
/// ChASE iterations 25; the dimer rotates 20 times when asked for 0.
/// Nonzero values are kept as given.
pub proof fn eigen_params_defaults(p: EigenParams, n: usize)
    ensures
        1 <= p.spec_krylov_dim(n) <= at_least_one(n as int),
        p.krylov == 0 && n >= 12 ==> p.spec_krylov_dim(n) == 12,
        p.krylov == 0 && 1 <= n < 12 ==> p.spec_krylov_dim(n) == n,
        1 <= p.krylov <= n ==> p.spec_krylov_dim(n) == p.krylov,
        p.krylov > n && n >= 1 ==> p.spec_krylov_dim(n) == n,
        p.max_iter == 0 ==> p.spec_iterations(n) == n,
        p.max_iter != 0 ==> p.spec_iterations(n) == p.max_iter,
        p.extra != 0 ==> p.spec_chase_extra() == p.extra,
        p.extra == 0 ==> p.spec_chase_extra() >= 8,
        p.extra == 0 && p.spec_chase_extra() > 8 ==> 5 * (p.spec_chase_extra() - 1) < at_least_one(
            p.nev as int,
        ) <= 5 * p.spec_chase_extra(),
        p.extra == 0 && at_least_one(p.nev as int) <= 40 ==> p.spec_chase_extra() == 8,
{
}

} // verus!

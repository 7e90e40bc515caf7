//! Closed ELPA stage and block-size tokens. Kind 7 is one-stage, kind 8
//! is two-stage; nothing here needs a linked ELPA.

use vstd::prelude::*;

use crate::lowest_mode::EigensolverKind;

verus! {

/// ELPA solver stage. [`ElpaStage::elpa_solver`] gives its
/// `ELPA_SOLVER_1STAGE` / `ELPA_SOLVER_2STAGE` integer (1 / 2).
#[derive(Clone, Copy, Debug, PartialEq, Eq, Hash)]
pub enum ElpaStage {
    /// `ELPA_SOLVER_1STAGE`.
    OneStage,
    /// `ELPA_SOLVER_2STAGE`.
    TwoStage,
}

impl ElpaStage {
    /// The ELPA solver integer of a stage.
    pub open spec fn spec_solver(self) -> i32 {
        match self {
            ElpaStage::OneStage => 1,
            ElpaStage::TwoStage => 2,
        }
    }

    /// The schema / C ABI name.
    pub open spec fn spec_name(self) -> Seq<char> {
        match self {
            ElpaStage::OneStage => "oneStage"@,
            ElpaStage::TwoStage => "twoStage"@,
        }
    }

    /// The stage of an eigensolver tag: ELPA is one-stage, ELPA2 is
    /// two-stage, every other tag has none.
    pub open spec fn spec_from_kind(kind: EigensolverKind) -> Option<ElpaStage> {
        match kind {
            EigensolverKind::Elpa => Some(ElpaStage::OneStage),
            EigensolverKind::Elpa2 => Some(ElpaStage::TwoStage),
            _ => None,
        }
    }

    /// Schema / C ABI name. Never an `elpa_set` key.
    pub fn name(self) -> (r: &'static str)
        ensures
            r@ == self.spec_name(),
    {
        match self {
            ElpaStage::OneStage => "oneStage",
            ElpaStage::TwoStage => "twoStage",
        }
    }

    /// Decode a closed ELPA solver integer. Unknown values are `None`.
    pub fn from_solver(raw: i32) -> (r: Option<Self>)
        ensures
            r is Some <==> (raw == 1 || raw == 2),
            r matches Some(s) ==> s.spec_solver() == raw,
    {
        match raw {
            1 => Some(ElpaStage::OneStage),
            2 => Some(ElpaStage::TwoStage),
            _ => None,
        }
    }

    /// Stage for [`EigensolverKind::Elpa`] / [`EigensolverKind::Elpa2`].
    pub fn from_kind(kind: EigensolverKind) -> (r: Option<Self>)
        ensures
            r == Self::spec_from_kind(kind),
    {
        match kind {
            EigensolverKind::Elpa => Some(ElpaStage::OneStage),
            EigensolverKind::Elpa2 => Some(ElpaStage::TwoStage),
            _ => None,
        }
    }

    /// Integer written to the linked ELPA handle. Not a string.
    pub fn elpa_solver(self) -> (r: i32)
        ensures
            r == self.spec_solver(),
    {
        match self {
            ElpaStage::OneStage => 1,
            ElpaStage::TwoStage => 2,
        }
    }
}

/// Typed ELPA extras. `nblk == 0` selects 16.
#[derive(Clone, Copy, Debug, PartialEq, Eq)]
pub struct ElpaParams {
    /// ScaLAPACK block size. 0 selects 16.
    pub nblk: u32,
}

impl Default for ElpaParams {
    /// Block size left at the library default.
    fn default() -> (r: Self)
        ensures
            r.nblk == 0,
    {
        ElpaParams { nblk: 0 }
    }
}

impl ElpaParams {
    /// Block size after the 0 -> 16 default.
    pub open spec fn spec_nblk(self) -> u32 {
        if self.nblk == 0 { 16 } else { self.nblk }
    }

    /// Block size after the 0 -> 16 default.
    pub fn nblk_or_default(self) -> (r: u32)
        ensures
            r == self.spec_nblk(),
    {
        if self.nblk == 0 {
            16
        } else {
            self.nblk
        }
    }
}

/// Closed ELPA integers for a dense call: `(solver, nblk)`. `None` for
/// every tag but ELPA and ELPA2.
pub fn elpa_config(kind: EigensolverKind, elpa: &ElpaParams) -> (r: Option<(i32, u32)>)
    ensures
        r is Some <==> (kind == EigensolverKind::Elpa || kind == EigensolverKind::Elpa2),
        r matches Some(c) ==> c == (ElpaStage::spec_from_kind(kind).unwrap().spec_solver(), elpa.spec_nblk()),
{
    let stage = ElpaStage::from_kind(kind)?;
    Some((stage.elpa_solver(), elpa.nblk_or_default()))
}

/// The solver integers are a bijection between the stages and `{1, 2}`:
/// `from_solver` undoes `elpa_solver`. A stage found for a tag reports
/// the integer of that tag's ordinal order (ELPA 1, ELPA2 2), and the
/// block size a call carries is never 0.
pub proof fn elpa_solver_integers_are_closed(a: ElpaStage, b: ElpaStage, kind: EigensolverKind, p: ElpaParams)
    ensures
        a.spec_solver() == b.spec_solver() ==> a == b,
        a.spec_solver() == 1 || a.spec_solver() == 2,
        ElpaStage::spec_from_kind(kind) matches Some(s) ==> s.spec_solver() == kind.ordinal() - 6,
        p.spec_nblk() != 0,
{
}

} // verus!

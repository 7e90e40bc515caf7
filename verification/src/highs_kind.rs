//! Closed HiGHS engine tokens, so that the C waist refuses an unknown
//! integer on every build, linked to HiGHS or not.

use vstd::prelude::*;

verus! {

/// HiGHS `solver` option. The integers match `rgmin_highs_solver_t`.
#[derive(Clone, Copy, Debug, PartialEq, Eq)]
pub enum HighsSolverKind {
    /// HiGHS `choose`.
    Choose,
    /// Dual / primal simplex.
    Simplex,
    /// Interior point: HiGHS picks IPX or HiPO.
    Ipm,
    /// IPX (PCG, serial).
    Ipx,
    /// HiPO (direct factor, parallel).
    Hipo,
    /// PDLP first-order LP.
    Pdlp,
    /// HiPDLP.
    Hipdlp,
    /// Active-set QP (`qpasm`).
    Qpasm,
}

impl HighsSolverKind {
    /// The C token.
    pub open spec fn ordinal(self) -> i32 {
        match self {
            HighsSolverKind::Choose => 0,
            HighsSolverKind::Simplex => 1,
            HighsSolverKind::Ipm => 2,
            HighsSolverKind::Ipx => 3,
            HighsSolverKind::Hipo => 4,
            HighsSolverKind::Pdlp => 5,
            HighsSolverKind::Hipdlp => 6,
            HighsSolverKind::Qpasm => 7,
        }
    }

    /// The HiGHS `solver` string; `Choose` leaves the default.
    pub open spec fn spec_highs(self) -> Option<Seq<char>> {
        match self {
            HighsSolverKind::Choose => None,
            HighsSolverKind::Simplex => Some("simplex"@),
            HighsSolverKind::Ipm => Some("ipm"@),
            HighsSolverKind::Ipx => Some("ipx"@),
            HighsSolverKind::Hipo => Some("hipo"@),
            HighsSolverKind::Pdlp => Some("pdlp"@),
            HighsSolverKind::Hipdlp => Some("hipdlp"@),
            HighsSolverKind::Qpasm => Some("qpasm"@),
        }
    }

    /// Closed map from the C token.
    pub fn from_ordinal(raw: i32) -> (r: Option<Self>)
        ensures
            r is Some <==> 0 <= raw <= 7,
            r matches Some(k) ==> k.ordinal() == raw,
    {
        match raw {
            0 => Some(HighsSolverKind::Choose),
            1 => Some(HighsSolverKind::Simplex),
            2 => Some(HighsSolverKind::Ipm),
            3 => Some(HighsSolverKind::Ipx),
            4 => Some(HighsSolverKind::Hipo),
            5 => Some(HighsSolverKind::Pdlp),
            6 => Some(HighsSolverKind::Hipdlp),
            7 => Some(HighsSolverKind::Qpasm),
            _ => None,
        }
    }

    /// HiGHS `solver` string, or `None` to leave the default.
    pub fn as_highs(self) -> (r: Option<&'static str>)
        ensures
            r is Some <==> self.spec_highs() is Some,
            r matches Some(s) ==> Some(s@) == self.spec_highs(),
    {
        match self {
            HighsSolverKind::Choose => None,
            HighsSolverKind::Simplex => Some("simplex"),
            HighsSolverKind::Ipm => Some("ipm"),
            HighsSolverKind::Ipx => Some("ipx"),
            HighsSolverKind::Hipo => Some("hipo"),
            HighsSolverKind::Pdlp => Some("pdlp"),
            HighsSolverKind::Hipdlp => Some("hipdlp"),
            HighsSolverKind::Qpasm => Some("qpasm"),
        }
    }
}

/// HiGHS `run_crossover`. The integers match the C token.
#[derive(Clone, Copy, Debug, PartialEq, Eq)]
pub enum HighsCrossover {
    /// HiGHS `choose`.
    Choose,
    /// Force crossover to a basic solution.
    On,
    /// Skip crossover.
    Off,
}

impl HighsCrossover {
    /// The C token.
    pub open spec fn ordinal(self) -> i32 {
        match self {
            HighsCrossover::Choose => 0,
            HighsCrossover::On => 1,
            HighsCrossover::Off => 2,
        }
    }

    /// The HiGHS `run_crossover` string; `Choose` leaves the default.
    pub open spec fn spec_highs(self) -> Option<Seq<char>> {
        match self {
            HighsCrossover::Choose => None,
            HighsCrossover::On => Some("on"@),
            HighsCrossover::Off => Some("off"@),
        }
    }

    /// Closed map from the C token.
    pub fn from_ordinal(raw: i32) -> (r: Option<Self>)
        ensures
            r is Some <==> 0 <= raw <= 2,
            r matches Some(k) ==> k.ordinal() == raw,
    {
        match raw {
            0 => Some(HighsCrossover::Choose),
            1 => Some(HighsCrossover::On),
            2 => Some(HighsCrossover::Off),
            _ => None,
        }
    }

    /// HiGHS `run_crossover` string, or `None` to leave the default.
    pub fn as_highs(self) -> (r: Option<&'static str>)
        ensures
            r is Some <==> self.spec_highs() is Some,
            r matches Some(s) ==> Some(s@) == self.spec_highs(),
    {
        match self {
            HighsCrossover::Choose => None,
            HighsCrossover::On => Some("on"),
            HighsCrossover::Off => Some("off"),
        }
    }
}

/// HiGHS callback kind. The integers match `HighsCallbackType`.
#[derive(Clone, Copy, Debug, PartialEq, Eq)]
pub enum HighsCallbackKind {
    /// General log line.
    Logging,
    /// Simplex interrupt poll.
    SimplexInterrupt,
    /// IPM interrupt poll.
    IpmInterrupt,
}

impl HighsCallbackKind {
    /// The C token.
    pub open spec fn ordinal(self) -> i32 {
        match self {
            HighsCallbackKind::Logging => 0,
            HighsCallbackKind::SimplexInterrupt => 1,
            HighsCallbackKind::IpmInterrupt => 2,
        }
    }

    /// Closed map from the C token.
    pub fn from_ordinal(raw: i32) -> (r: Option<Self>)
        ensures
            r is Some <==> 0 <= raw <= 2,
            r matches Some(k) ==> k.ordinal() == raw,
    {
        match raw {
            0 => Some(HighsCallbackKind::Logging),
            1 => Some(HighsCallbackKind::SimplexInterrupt),
            2 => Some(HighsCallbackKind::IpmInterrupt),
            _ => None,
        }
    }
}

/// The HiGHS tokens are closed: each of the three maps is a bijection
/// between its variants and its integer range, so every `from_ordinal`
/// is the exact inverse of the token. Only `Choose` leaves HiGHS at its
/// own default.
pub proof fn highs_tokens_are_closed(
    a: HighsSolverKind,
    b: HighsSolverKind,
    c: HighsCrossover,
    d: HighsCrossover,
    e: HighsCallbackKind,
    f: HighsCallbackKind,
    raw: i32,
)
    ensures
        a.ordinal() == b.ordinal() ==> a == b,
        0 <= a.ordinal() <= 7,
        0 <= raw <= 7 ==> exists|k: HighsSolverKind| #[trigger] k.ordinal() == raw,
        a.spec_highs() is None <==> a == HighsSolverKind::Choose,
        c.ordinal() == d.ordinal() ==> c == d,
        0 <= c.ordinal() <= 2,
        0 <= raw <= 2 ==> exists|k: HighsCrossover| #[trigger] k.ordinal() == raw,
        c.spec_highs() is None <==> c == HighsCrossover::Choose,
        e.ordinal() == f.ordinal() ==> e == f,
        0 <= e.ordinal() <= 2,
        0 <= raw <= 2 ==> exists|k: HighsCallbackKind| #[trigger] k.ordinal() == raw,
{
    if raw == 0 {
        assert(HighsSolverKind::Choose.ordinal() == raw);
        assert(HighsCrossover::Choose.ordinal() == raw);
        assert(HighsCallbackKind::Logging.ordinal() == raw);
    } else if raw == 1 {
        assert(HighsSolverKind::Simplex.ordinal() == raw);
        assert(HighsCrossover::On.ordinal() == raw);
        assert(HighsCallbackKind::SimplexInterrupt.ordinal() == raw);
    } else if raw == 2 {
        assert(HighsSolverKind::Ipm.ordinal() == raw);
        assert(HighsCrossover::Off.ordinal() == raw);
        assert(HighsCallbackKind::IpmInterrupt.ordinal() == raw);
    } else if raw == 3 {
        assert(HighsSolverKind::Ipx.ordinal() == raw);
    } else if raw == 4 {
        assert(HighsSolverKind::Hipo.ordinal() == raw);
    } else if raw == 5 {
        assert(HighsSolverKind::Pdlp.ordinal() == raw);
    } else if raw == 6 {
        assert(HighsSolverKind::Hipdlp.ordinal() == raw);
    } else if raw == 7 {
        assert(HighsSolverKind::Qpasm.ordinal() == raw);
    }
}

/// The HiGHS `solver` string of each C token; token 0 leaves the
/// default.
pub open spec fn highs_solver_string(token: i32) -> Option<Seq<char>> {
    if token == 1 {
        Some("simplex"@)
    } else if token == 2 {
        Some("ipm"@)
    } else if token == 3 {
        Some("ipx"@)
    } else if token == 4 {
        Some("hipo"@)
    } else if token == 5 {
        Some("pdlp"@)
    } else if token == 6 {
        Some("hipdlp"@)
    } else if token == 7 {
        Some("qpasm"@)
    } else {
        None
    }
}

/// The HiGHS `run_crossover` string of each C token; token 0 leaves
/// the default.
pub open spec fn highs_crossover_string(token: i32) -> Option<Seq<char>> {
    if token == 1 {
        Some("on"@)
    } else if token == 2 {
        Some("off"@)
    } else {
        None
    }
}

/// Each HiGHS option string is the one of its C token: solver token 2
/// is `ipm`, crossover token 2 is `off`, and so on.
pub proof fn highs_strings_follow_the_tokens(a: HighsSolverKind, c: HighsCrossover)
    ensures
        a.spec_highs() == highs_solver_string(a.ordinal()),
        c.spec_highs() == highs_crossover_string(c.ordinal()),
{
}

} // verus!

//! Closed EigenExa algorithm tokens. A host names `eigen_s` versus
//! `eigen_sx` as integers; nothing here needs a linked EigenExa.

use vstd::prelude::*;

verus! {

/// EigenExa solver kernel. The integers are the public ABI; there is
/// no string key.
#[derive(Clone, Copy, Debug, PartialEq, Eq, Hash)]
pub enum EigenExaAlgo {
    /// `eigen_s`.
    S,
    /// `eigen_sx`.
    Sx,
}

impl EigenExaAlgo {
    /// The ABI integer of the kernel.
    pub open spec fn ordinal(self) -> u8 {
        match self {
            EigenExaAlgo::S => 0,
            EigenExaAlgo::Sx => 1,
        }
    }

    /// The schema / C ABI name.
    pub open spec fn spec_name(self) -> Seq<char> {
        match self {
            EigenExaAlgo::S => "eigen_s"@,
            EigenExaAlgo::Sx => "eigen_sx"@,
        }
    }

    /// Schema / C ABI name. Never a free-form string key.
    pub fn name(self) -> (r: &'static str)
        ensures
            r@ == self.spec_name(),
    {
        match self {
            EigenExaAlgo::S => "eigen_s",
            EigenExaAlgo::Sx => "eigen_sx",
        }
    }

    /// Decode a closed ordinal. Unknown integers are `None`.
    pub fn from_ordinal(raw: u8) -> (r: Option<Self>)
        ensures
            r is Some <==> raw <= 1,
            r matches Some(k) ==> k.ordinal() == raw,
    {
        match raw {
            0 => Some(EigenExaAlgo::S),
            1 => Some(EigenExaAlgo::Sx),
            _ => None,
        }
    }
}

/// Typed EigenExa extras. Ignored unless the backend is EigenExa.
#[derive(Clone, Copy, Debug, PartialEq, Eq)]
pub struct EigenExaParams {
    /// `eigen_s` versus `eigen_sx`.
    pub algo: EigenExaAlgo,
}

impl Default for EigenExaParams {
    /// The default kernel is `eigen_sx`.
    fn default() -> (r: Self)
        ensures
            r.algo == EigenExaAlgo::Sx,
    {
        EigenExaParams { algo: EigenExaAlgo::Sx }
    }
}

/// The ordinals are a bijection between the kernels and `0..=1`: two
/// kernels with one ordinal are the same kernel, and every integer in
/// range is some kernel's ordinal. With the contract of
/// [`EigenExaAlgo::from_ordinal`] this makes `from_ordinal` the exact
/// inverse of the ordinal.
pub proof fn eigenexa_ordinals_are_closed(a: EigenExaAlgo, b: EigenExaAlgo, raw: u8)
    ensures
        a.ordinal() == b.ordinal() ==> a == b,
        a.ordinal() <= 1,
        raw <= 1 ==> exists|k: EigenExaAlgo| #[trigger] k.ordinal() == raw,
{
    if raw == 0 {
        assert(EigenExaAlgo::S.ordinal() == raw);
    } else if raw == 1 {
        assert(EigenExaAlgo::Sx.ordinal() == raw);
    }
}

/// The kernel named by an ABI integer: 0 is `eigen_s`, 1 `eigen_sx`.
pub open spec fn kernel_name(ordinal: u8) -> Seq<char> {
    if ordinal == 0 { "eigen_s"@ } else { "eigen_sx"@ }
}

/// A kernel's name is the name of its ABI integer.
pub proof fn eigenexa_names_follow_the_abi(a: EigenExaAlgo)
    ensures
        a.spec_name() == kernel_name(a.ordinal()),
{
}

} // verus!

//! The panning laws of stereo balance.

use vstd::prelude::*;
use vstd::std_specs::convert::FromSpecImpl;

verus! {

/// The law by which a source is panned between left and right.
#[derive(Clone, Copy, Debug, PartialEq, Eq, Structural)]
pub enum ObsBalanceType {
    /// Sine and cosine curves: constant power, three decibels down in the
    /// centre.
    SineLaw,
    /// Square root curves: constant power too, as mixing consoles do it.
    SquareLaw,
    /// A plain crossfade: slightly louder in the centre.
    Linear,
}

impl ObsBalanceType {
    /// The number that the engine knows the law by.
    pub open spec fn number(self) -> u32 {
        match self {
            ObsBalanceType::SineLaw => 0,
            ObsBalanceType::SquareLaw => 1,
            ObsBalanceType::Linear => 2,
        }
    }

    /// The law that the engine means by `val`. A number that names no law
    /// means the sine law.
    pub open spec fn of_number(val: u32) -> ObsBalanceType {
        if val == 1 {
            ObsBalanceType::SquareLaw
        } else if val == 2 {
            ObsBalanceType::Linear
        } else {
            ObsBalanceType::SineLaw
        }
    }
}

impl FromSpecImpl<ObsBalanceType> for u32 {
    open spec fn obeys_from_spec() -> bool {
        true
    }

    open spec fn from_spec(t: ObsBalanceType) -> u32 {
        t.number()
    }
}

impl From<ObsBalanceType> for u32 {
    fn from(t: ObsBalanceType) -> (n: u32) {
        match t {
            ObsBalanceType::SineLaw => 0,
            ObsBalanceType::SquareLaw => 1,
            ObsBalanceType::Linear => 2,
        }
    }
}

impl FromSpecImpl<u32> for ObsBalanceType {
    open spec fn obeys_from_spec() -> bool {
        true
    }

    open spec fn from_spec(val: u32) -> ObsBalanceType {
        ObsBalanceType::of_number(val)
    }
}

impl From<u32> for ObsBalanceType {
    fn from(val: u32) -> (t: ObsBalanceType) {
        match val {
            0 => ObsBalanceType::SineLaw,
            1 => ObsBalanceType::SquareLaw,
            2 => ObsBalanceType::Linear,
            _ => ObsBalanceType::SineLaw,
        }
    }
}

/// Every law comes back from its number.
pub proof fn lemma_balance_number_round_trip(t: ObsBalanceType)
    ensures
        ObsBalanceType::of_number(t.number()) == t,
{
}

} // verus!

//! Operating points of the memory controller and the kinds of training step.

use vstd::prelude::*;

verus! {

/// The frequencies to train DRAM to.
#[derive(Debug, Copy, Clone, PartialEq, Eq, Structural)]
pub enum Frequency {
    /// A DRAM frequency of 204MHz.
    Freq204,
    /// A DRAM frequency of 800MHz.
    Freq800,
    /// A DRAM frequency of 1600MHz.
    Freq1600,
}

/// The operation a training request asks of the engine.
#[derive(Debug, Copy, Clone, PartialEq, Eq, Structural)]
pub enum TrainMode {
    /// Full training of the target rate.
    Train,
    /// A switch to the target rate with parameters trained before.
    Switch,
    /// Periodic compensation at the running rate.
    PeriodicTrain,
}

impl Frequency {
    /// The rate of this operating point in kHz.
    pub open spec fn spec_khz(self) -> int {
        match self {
            Frequency::Freq204 => 204_000,
            Frequency::Freq800 => 800_000,
            Frequency::Freq1600 => 1_600_000,
        }
    }

    /// The rate of this operating point in kHz.
    pub fn khz(self) -> (rate: i32)
        ensures
            rate == self.spec_khz(),
    {
        match self {
            Frequency::Freq204 => 204_000,
            Frequency::Freq800 => 800_000,
            Frequency::Freq1600 => 1_600_000,
        }
    }
}

impl From<Frequency> for i32 {
    fn from(freq: Frequency) -> (rate: i32) {
        freq.khz()
    }
}

impl vstd::std_specs::convert::FromSpecImpl<Frequency> for i32 {
    open spec fn obeys_from_spec() -> bool {
        true
    }

    open spec fn from_spec(freq: Frequency) -> i32 {
        freq.spec_khz() as i32
    }
}

} // verus!

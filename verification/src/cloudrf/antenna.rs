//! The transmitting antenna of a request.

use vstd::prelude::*;

use crate::quantity::Micro;

verus! {

/// Gain, pattern and pointing of an antenna. Gains and losses are in dB,
/// angles in degrees.
#[derive(Debug, Clone, Copy, PartialEq, Eq, Structural)]
pub struct Antenna {
    pub txg: Micro,
    pub txl: Micro,
    pub ant: u64,
    pub azi: Micro,
    pub tlt: Micro,
    pub hbw: Micro,
    pub vbw: Micro,
    pub fbr: Micro,
    pub pol: Polarisation,
}

impl Antenna {
    /// The antenna of a request that says nothing else: 2 dB gain, pattern 1,
    /// vertical.
    pub open spec fn default_spec() -> Antenna {
        Antenna {
            txg: 2_000_000,
            txl: 0,
            ant: 1,
            azi: 0,
            tlt: 0,
            hbw: 0,
            vbw: 0,
            fbr: 0,
            pol: Polarisation::Vertical,
        }
    }
}

impl Default for Antenna {
    fn default() -> (antenna: Self)
        ensures
            antenna == Antenna::default_spec(),
    {
        Antenna {
            txg: 2_000_000,
            txl: 0,
            ant: 1,
            azi: 0,
            tlt: 0,
            hbw: 0,
            vbw: 0,
            fbr: 0,
            pol: Polarisation::Vertical,
        }
    }
}

/// The plane in which the antenna radiates.
#[derive(Debug, Clone, Copy, PartialEq, Eq, Structural)]
pub enum Polarisation {
    Vertical,
    Horizontal,
}

impl Polarisation {
    /// The word that the engine knows the polarisation by.
    pub fn code(&self) -> (word: &'static str)
        ensures
            word@ == match *self {
                Polarisation::Vertical => "v"@,
                Polarisation::Horizontal => "h"@,
            },
    {
        match self {
            Polarisation::Vertical => "v",
            Polarisation::Horizontal => "h",
        }
    }
}

} // verus!

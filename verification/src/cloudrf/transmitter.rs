//! The transmitter of a request.

use vstd::prelude::*;

use crate::quantity::Micro;

verus! {

/// Power of a transmitter.
///
/// A power is known either in watts or as a level in dBW. A level of `l` dBW
/// is `10^(l / 10)` watts, which no whole number of millionths writes
/// exactly; the level is therefore kept as it is and turned into watts only
/// where the request leaves the library.
#[derive(Debug, Clone, Copy, PartialEq, Eq, Structural)]
pub enum Power {
    /// Millionths of a watt.
    Watts(Micro),
    /// Millionths of a dBW.
    Level(Micro),
}

/// Place, frequency and power of a transmitter.
#[derive(Debug, Clone, Copy, PartialEq, Eq, Structural)]
pub struct Transmitter {
    /// Latitude in hundredths of an arc-second, north positive.
    pub lat: i64,
    /// Longitude in hundredths of an arc-second, east positive.
    pub lon: i64,
    /// Height above ground, in metres.
    pub alt: Micro,
    /// Frequency, in MHz.
    pub frq: Micro,
    pub txw: Power,
    /// Bandwidth, in MHz.
    pub bwi: Micro,
}

impl Transmitter {
    /// The transmitter of a request that says nothing else: at 38.916 N
    /// 1.448 E, 2 m high, 2200 MHz, 2 W, 1 MHz wide.
    pub open spec fn default_spec() -> Transmitter {
        Transmitter {
            lat: 14_009_760,
            lon: 521_280,
            alt: 2_000_000,
            frq: 2_200_000_000,
            txw: Power::Watts(2_000_000),
            bwi: 1_000_000,
        }
    }
}

impl Default for Transmitter {
    fn default() -> (transmitter: Self)
        ensures
            transmitter == Transmitter::default_spec(),
    {
        Transmitter {
            lat: 14_009_760,
            lon: 521_280,
            alt: 2_000_000,
            frq: 2_200_000_000,
            txw: Power::Watts(2_000_000),
            bwi: 1_000_000,
        }
    }
}

} // verus!

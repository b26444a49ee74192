//! The receiver of a request.

use vstd::prelude::*;

use crate::quantity::Micro;

verus! {

/// Place, gain and sensitivity of the receiver.
#[derive(Debug, Clone, Copy, PartialEq, Eq, Structural)]
pub struct Receiver {
    /// Latitude in hundredths of an arc-second, north positive.
    pub lat: i64,
    /// Longitude in hundredths of an arc-second, east positive.
    pub lon: i64,
    /// Height above ground, in metres.
    pub alt: Micro,
    /// Gain, in dB.
    pub rxg: Micro,
    /// Sensitivity, in dBm.
    pub rxs: Micro,
}

/// The sensitivity of a receiver that says nothing else: -110 dBm.
pub const DEFAULT_SENSITIVITY: Micro = -110_000_000;

impl Receiver {
    /// The receiver of a request that says nothing else: 2 m high, 1 dB gain,
    /// sensitive to -110 dBm.
    pub open spec fn default_spec() -> Receiver {
        Receiver { lat: 0, lon: 0, alt: 2_000_000, rxg: 1_000_000, rxs: DEFAULT_SENSITIVITY }
    }
}

impl Default for Receiver {
    fn default() -> (receiver: Self)
        ensures
            receiver == Receiver::default_spec(),
    {
        Receiver { lat: 0, lon: 0, alt: 2_000_000, rxg: 1_000_000, rxs: DEFAULT_SENSITIVITY }
    }
}

} // verus!

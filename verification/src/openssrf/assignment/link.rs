//! Links: one station paired with one configuration.

use vstd::prelude::*;

use crate::quantity::Micro;

verus! {

/// The pairing of a station and a configuration of the same assignment.
#[derive(Debug)]
pub struct Link {
    pub link_id: String,
    pub station_config: StationConfig,
}

/// Which station and configuration a link joins, and how the antenna is fed
/// and pointed.
#[derive(Debug)]
pub struct StationConfig {
    pub config_id: String,
    pub station_id: String,
    /// Loss in the feed line, in dB, stored positive.
    pub feedline_loss: Micro,
    /// Azimuth of the antenna, in degrees.
    pub pointing_az_min: Micro,
    /// Elevation of the antenna, in degrees.
    pub pointing_elev_min: Micro,
}

} // verus!

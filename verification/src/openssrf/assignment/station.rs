//! Stations of an assignment.

use vstd::prelude::*;

use crate::openssrf::serial::Serial;
use crate::quantity::Micro;

verus! {

/// A transmitting station.
#[derive(Debug)]
pub struct Station {
    pub station_id: String,
    pub station_name: Option<String>,
    /// Height of the antenna structure, in metres.
    pub ant_structure_height: i32,
    pub station_loc: StationLoc,
}

/// Where a station stands: the serial of a location of the document, and the
/// radius that the station covers, in kilometres.
#[derive(Debug)]
pub struct StationLoc {
    pub loc_sat_ref: Serial,
    pub location_radius: Micro,
}

} // verus!

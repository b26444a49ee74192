//! Named places that stations refer to.

use vstd::prelude::*;

use crate::openssrf::serial::Serial;

verus! {

/// A place on the ground.
#[derive(Debug)]
pub struct Location {
    pub name: String,
    pub serial: Serial,
    pub point: Point,
}

/// Latitude and longitude, each in hundredths of an arc-second, north and
/// east positive.
#[derive(Debug, Clone, Copy, PartialEq, Eq, Structural)]
pub struct Point {
    pub lat: i64,
    pub lon: i64,
}

} // verus!

//! What stands between transmitter and receiver.

use vstd::prelude::*;
use vstd::string::*;

verus! {

/// Clutter profile and the layers of the terrain model that count.
#[derive(Debug, Clone, PartialEq, Eq)]
pub struct Environment {
    pub clt: String,
    pub elevation: Elevation,
    pub landcover: bool,
    pub buildings: bool,
    pub obstacles: bool,
}

/// What an [`Environment`] holds.
pub struct EnvironmentView {
    pub clt: Seq<char>,
    pub elevation: Elevation,
    pub landcover: bool,
    pub buildings: bool,
    pub obstacles: bool,
}

impl View for Environment {
    type V = EnvironmentView;

    open spec fn view(&self) -> EnvironmentView {
        EnvironmentView {
            clt: self.clt@,
            elevation: self.elevation,
            landcover: self.landcover,
            buildings: self.buildings,
            obstacles: self.obstacles,
        }
    }
}

impl Environment {
    /// The environment of a request that says nothing else: temperate
    /// clutter on the surface model, no further layer.
    pub open spec fn default_view() -> EnvironmentView {
        EnvironmentView {
            clt: "Temperate.clt"@,
            elevation: Elevation::Surface,
            landcover: false,
            buildings: false,
            obstacles: false,
        }
    }
}

impl Default for Environment {
    fn default() -> (environment: Self)
        ensures
            environment@ == Environment::default_view(),
    {
        Environment {
            clt: "Temperate.clt".to_owned(),
            elevation: Elevation::Surface,
            landcover: false,
            buildings: false,
            obstacles: false,
        }
    }
}

/// How the engine wants a switch written: `1` for on, `0` for off.
pub fn serialize_bool(on: bool) -> (number: u8)
    ensures
        number == if on {
            1u8
        } else {
            0u8
        },
{
    if on {
        1
    } else {
        0
    }
}

/// Which model of the ground the engine computes over.
#[derive(Debug, Clone, Copy, PartialEq, Eq, Structural)]
pub enum Elevation {
    Surface,
    Terrain,
}

impl Elevation {
    /// The number that the engine knows the elevation model by.
    pub fn code(&self) -> (number: u8)
        ensures
            number == match *self {
                Elevation::Surface => 1u8,
                Elevation::Terrain => 2u8,
            },
    {
        match self {
            Elevation::Surface => 1,
            Elevation::Terrain => 2,
        }
    }
}

} // verus!

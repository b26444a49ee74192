//! How the engine renders what it computed.

use vstd::prelude::*;
use vstd::string::*;

use crate::quantity::Micro;

verus! {

/// Units, colours, resolution and radius of the rendering.
#[derive(Debug, Clone, PartialEq, Eq)]
pub struct Output {
    pub units: Units,
    pub col: String,
    pub out: u64,
    /// Noise floor, in dBm.
    pub nf: Micro,
    /// Resolution, in metres.
    pub res: Micro,
    /// Radius, in kilometres.
    pub rad: Micro,
}

/// The noise floor of a request that says nothing else: -100 dBm.
pub const DEFAULT_NOISE_FLOOR: Micro = -100_000_000;

/// What an [`Output`] holds.
pub struct OutputView {
    pub units: Units,
    pub col: Seq<char>,
    pub out: u64,
    pub nf: Micro,
    pub res: Micro,
    pub rad: Micro,
}

impl View for Output {
    type V = OutputView;

    open spec fn view(&self) -> OutputView {
        OutputView {
            units: self.units,
            col: self.col@,
            out: self.out,
            nf: self.nf,
            res: self.res,
            rad: self.rad,
        }
    }
}

impl Output {
    /// The rendering of a request that says nothing else.
    pub open spec fn default_view() -> OutputView {
        OutputView {
            units: Units::MetersAGL,
            col: "LTE.dBm"@,
            out: 2,
            nf: DEFAULT_NOISE_FLOOR,
            res: 4_000_000,
            rad: 2_000_000,
        }
    }
}

impl Default for Output {
    fn default() -> (output: Self)
        ensures
            output@ == Output::default_view(),
    {
        Output {
            units: Units::MetersAGL,
            col: "LTE.dBm".to_owned(),
            out: 2,
            nf: DEFAULT_NOISE_FLOOR,
            res: 4_000_000,
            rad: 2_000_000,
        }
    }
}

/// Metres or feet, above ground or above sea level.
#[derive(Debug, Clone, Copy, PartialEq, Eq, Structural)]
pub enum Units {
    MetersAGL,
    MetersASL,
    FeetAGL,
    FeetASL,
}

impl Units {
    /// The word that the engine knows the units by.
    pub fn code(&self) -> (word: &'static str)
        ensures
            word@ == match *self {
                Units::MetersAGL => "m"@,
                Units::MetersASL => "m_amsl"@,
                Units::FeetAGL => "f"@,
                Units::FeetASL => "f_amsl"@,
            },
    {
        match self {
            Units::MetersAGL => "m",
            Units::MetersASL => "m_amsl",
            Units::FeetAGL => "f",
            Units::FeetASL => "f_amsl",
        }
    }
}

} // verus!

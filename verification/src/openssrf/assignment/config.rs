//! Emission configurations of an assignment.

use vstd::prelude::*;

use crate::quantity::Micro;

verus! {

/// What a station may emit.
#[derive(Debug)]
pub struct Configuration {
    pub config_id: String,
    pub config_emission: ConfigEmission,
    pub config_freq: ConfigFreq,
    /// Radiated power against an isotropic radiator, in dBW.
    pub eirp_min: Micro,
}

/// The frequency of a configuration, in MHz.
#[derive(Debug, Clone, Copy, PartialEq, Eq, Structural)]
pub struct ConfigFreq {
    pub freq_min: Micro,
}

/// The bandwidth that an emission needs, in MHz.
#[derive(Debug, Clone, Copy, PartialEq, Eq, Structural)]
pub struct ConfigEmission {
    pub necessary_bw_min: Micro,
}

} // verus!

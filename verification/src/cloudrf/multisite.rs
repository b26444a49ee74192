//! Joint coverage of several transmitters.

use vstd::prelude::*;
use vstd::string::*;

use crate::cloudrf::antenna::Antenna;
use crate::cloudrf::environment::{Environment, EnvironmentView};
use crate::cloudrf::misc::{Bounds, ColourKeyValue};
use crate::cloudrf::model::Model;
use crate::cloudrf::output::{Output, OutputView, DEFAULT_NOISE_FLOOR};
use crate::cloudrf::receiver::Receiver;
use crate::cloudrf::transmitter::Transmitter;
use crate::quantity::Micro;

verus! {

/// A request for the joint coverage of a network's transmitters.
#[derive(Debug, Clone, PartialEq, Eq)]
pub struct MultisiteReq {
    pub site: String,
    pub network: String,
    pub transmitters: Vec<MultisiteTransmitter>,
    pub receiver: Receiver,
    pub model: Model,
    pub environment: Environment,
    pub output: Output,
}

/// What a [`MultisiteReq`] holds.
pub struct MultisiteReqView {
    pub site: Seq<char>,
    pub network: Seq<char>,
    pub transmitters: Seq<MultisiteTransmitter>,
    pub receiver: Receiver,
    pub model: Model,
    pub environment: EnvironmentView,
    pub output: OutputView,
}

impl View for MultisiteReq {
    type V = MultisiteReqView;

    open spec fn view(&self) -> MultisiteReqView {
        MultisiteReqView {
            site: self.site@,
            network: self.network@,
            transmitters: self.transmitters@,
            receiver: self.receiver,
            model: self.model,
            environment: self.environment@,
            output: self.output@,
        }
    }
}

impl MultisiteReq {
    /// The request that says nothing of its own and names no transmitter.
    pub open spec fn default_view() -> MultisiteReqView {
        MultisiteReqView {
            site: "My_Multiite"@,
            network: "My_Network"@,
            transmitters: Seq::empty(),
            receiver: Receiver::default_spec(),
            model: Model::default_spec(),
            environment: Environment::default_view(),
            output: Output::default_view(),
        }
    }
}

impl Default for MultisiteReq {
    fn default() -> (request: Self)
        ensures
            request@ == MultisiteReq::default_view(),
    {
        MultisiteReq {
            site: "My_Multiite".to_owned(),
            network: "My_Network".to_owned(),
            transmitters: Vec::new(),
            receiver: Receiver::default(),
            model: Model::default(),
            environment: Environment::default(),
            output: Output::default(),
        }
    }
}

/// One transmitter of a [`MultisiteReq`], with its antenna and noise floor.
#[derive(Debug, Clone, Copy, PartialEq, Eq, Structural)]
pub struct MultisiteTransmitter {
    pub tx: Transmitter,
    /// Noise floor, in dBm.
    pub nf: Micro,
    pub antenna: Antenna,
}

impl MultisiteTransmitter {
    /// The transmitter that says nothing of its own.
    pub open spec fn default_spec() -> MultisiteTransmitter {
        MultisiteTransmitter {
            tx: Transmitter::default_spec(),
            nf: DEFAULT_NOISE_FLOOR,
            antenna: Antenna::default_spec(),
        }
    }
}

impl Default for MultisiteTransmitter {
    fn default() -> (transmitter: Self)
        ensures
            transmitter == MultisiteTransmitter::default_spec(),
    {
        MultisiteTransmitter {
            tx: Transmitter::default(),
            nf: DEFAULT_NOISE_FLOOR,
            antenna: Antenna::default(),
        }
    }
}

/// What the engine answers to a [`MultisiteReq`]: what went wrong, or where
/// the rendered coverage lies.
#[derive(Debug, Clone, PartialEq, Eq)]
pub enum MultisiteRes {
    Error { error: String },
    Success {
        kmz: String,
        png_wgs84: String,
        png_mercator: String,
        bounds: Bounds,
        /// Covered area, in square kilometres.
        area: Micro,
        /// Covered share, in percent.
        coverage: Micro,
        key: Vec<ColourKeyValue>,
        /// Time the engine took, in seconds.
        elapsed: Micro,
        calculation_adjusted: Option<Vec<String>>,
    },
}

} // verus!

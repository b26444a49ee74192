//! Coverage of one transmitter.

use vstd::prelude::*;
use vstd::string::*;

use crate::cloudrf::antenna::Antenna;
use crate::cloudrf::environment::{Environment, EnvironmentView};
use crate::cloudrf::misc::{Bounds, ColourKeyValue, Engine};
use crate::cloudrf::model::Model;
use crate::cloudrf::output::{Output, OutputView};
use crate::cloudrf::receiver::Receiver;
use crate::cloudrf::transmitter::Transmitter;
use crate::quantity::Micro;

verus! {

/// A request for the coverage of one transmitter.
#[derive(Debug, Clone, PartialEq, Eq)]
pub struct AreaReq {
    pub site: String,
    pub network: String,
    pub engine: Engine,
    pub transmitter: Transmitter,
    pub receiver: Receiver,
    pub antenna: Antenna,
    pub model: Model,
    pub environment: Environment,
    pub output: Output,
}

/// What an [`AreaReq`] holds.
pub struct AreaReqView {
    pub site: Seq<char>,
    pub network: Seq<char>,
    pub engine: Engine,
    pub transmitter: Transmitter,
    pub receiver: Receiver,
    pub antenna: Antenna,
    pub model: Model,
    pub environment: EnvironmentView,
    pub output: OutputView,
}

impl View for AreaReq {
    type V = AreaReqView;

    open spec fn view(&self) -> AreaReqView {
        AreaReqView {
            site: self.site@,
            network: self.network@,
            engine: self.engine,
            transmitter: self.transmitter,
            receiver: self.receiver,
            antenna: self.antenna,
            model: self.model,
            environment: self.environment@,
            output: self.output@,
        }
    }
}

impl AreaReq {
    /// The request that says nothing of its own.
    pub open spec fn default_view() -> AreaReqView {
        AreaReqView {
            site: "My_Site"@,
            network: "My_Network"@,
            engine: Engine::GPU,
            transmitter: Transmitter::default_spec(),
            receiver: Receiver::default_spec(),
            antenna: Antenna::default_spec(),
            model: Model::default_spec(),
            environment: Environment::default_view(),
            output: Output::default_view(),
        }
    }
}

impl Default for AreaReq {
    fn default() -> (request: Self)
        ensures
            request@ == AreaReq::default_view(),
    {
        AreaReq {
            site: "My_Site".to_owned(),
            network: "My_Network".to_owned(),
            engine: Engine::GPU,
            transmitter: Transmitter::default(),
            receiver: Receiver::default(),
            antenna: Antenna::default(),
            model: Model::default(),
            environment: Environment::default(),
            output: Output::default(),
        }
    }
}

/// What the engine answers to an [`AreaReq`]: what went wrong, or where the
/// rendered coverage lies.
#[derive(Debug, Clone, PartialEq, Eq)]
pub enum AreaRes {
    Error { error: String },
    Success {
        kmz: String,
        png_wgs84: String,
        png_mercator: String,
        bounds: Bounds,
        /// Covered area, in square kilometres.
        area: Micro,
        /// Covered share, in percent.
        coverage: Micro,
        key: Vec<ColourKeyValue>,
        /// Time the engine took, in seconds.
        elapsed: Micro,
        calculation_adjusted: Option<Vec<String>>,
    },
}

} // verus!

//! The propagation model of a request.

use vstd::prelude::*;

verus! {

/// Which model computes the propagation, and how careful it is.
#[derive(Debug, Clone, Copy, PartialEq, Eq, Structural)]
pub struct Model {
    pub pm: PropagationModel,
    pub pe: Propagationenvironment,
    pub ked: DiffractionModel,
    /// Reliability, in percent.
    pub rel: u64,
}

impl Model {
    /// The model of a request that says nothing else.
    pub open spec fn default_spec() -> Model {
        Model {
            pm: PropagationModel::EGLI,
            pe: Propagationenvironment::Average,
            ked: DiffractionModel::Bullington,
            rel: 50,
        }
    }
}

impl Default for Model {
    fn default() -> (model: Self)
        ensures
            model == Model::default_spec(),
    {
        Model {
            pm: PropagationModel::EGLI,
            pe: Propagationenvironment::Average,
            ked: DiffractionModel::Bullington,
            rel: 50,
        }
    }
}

/// The models of propagation that the engine knows.
#[derive(Debug, Clone, Copy, PartialEq, Eq, Structural)]
pub enum PropagationModel {
    ITM,
    EGLI,
}

impl PropagationModel {
    /// The number that the engine knows the model by.
    pub fn code(&self) -> (number: u8)
        ensures
            number == match *self {
                PropagationModel::ITM => 1u8,
                PropagationModel::EGLI => 11u8,
            },
    {
        match self {
            PropagationModel::ITM => 1,
            PropagationModel::EGLI => 11,
        }
    }
}

/// How kindly the model judges the surroundings.
#[derive(Debug, Clone, Copy, PartialEq, Eq, Structural)]
pub enum Propagationenvironment {
    Conservative,
    Average,
    Optimistic,
}

impl Propagationenvironment {
    /// The number that the engine knows the environment by.
    pub fn code(&self) -> (number: u8)
        ensures
            number == match *self {
                Propagationenvironment::Conservative => 1u8,
                Propagationenvironment::Average => 2u8,
                Propagationenvironment::Optimistic => 3u8,
            },
    {
        match self {
            Propagationenvironment::Conservative => 1,
            Propagationenvironment::Average => 2,
            Propagationenvironment::Optimistic => 3,
        }
    }
}

/// How the model bends a signal over obstacles.
#[derive(Debug, Clone, Copy, PartialEq, Eq, Structural)]
pub enum DiffractionModel {
    LineOfSight,
    SingleKnifeEdge,
    Bullington,
    Deygout,
}

impl DiffractionModel {
    /// The number that the engine knows the diffraction model by.
    pub fn code(&self) -> (number: u8)
        ensures
            number == match *self {
                DiffractionModel::LineOfSight => 0u8,
                DiffractionModel::SingleKnifeEdge => 1u8,
                DiffractionModel::Bullington => 2u8,
                DiffractionModel::Deygout => 4u8,
            },
    {
        match self {
            DiffractionModel::LineOfSight => 0,
            DiffractionModel::SingleKnifeEdge => 1,
            DiffractionModel::Bullington => 2,
            DiffractionModel::Deygout => 4,
        }
    }
}

} // verus!

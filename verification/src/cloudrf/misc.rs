//! Small parts of requests and results.

use vstd::prelude::*;

use crate::quantity::Micro;

verus! {

/// On what the engine computes.
#[derive(Debug, Clone, Copy, PartialEq, Eq, Structural)]
pub enum Engine {
    CPU,
    GPU,
}

impl Engine {
    /// The number that the engine knows itself by.
    pub fn code(&self) -> (number: u8)
        ensures
            number == match *self {
                Engine::CPU => 2u8,
                Engine::GPU => 1u8,
            },
    {
        match self {
            Engine::CPU => 2,
            Engine::GPU => 1,
        }
    }
}

/// One entry of a colour key: a label and its colour.
#[derive(Debug, Clone, PartialEq, Eq)]
pub struct ColourKeyValue {
    pub l: String,
    pub r: u8,
    pub g: u8,
    pub b: u8,
}

/// The box that a result covers, each side in degrees.
#[derive(Debug, Clone, Copy, PartialEq, Eq, Structural)]
pub struct Bounds {
    pub north: Micro,
    pub east: Micro,
    pub south: Micro,
    pub west: Micro,
}

} // verus!

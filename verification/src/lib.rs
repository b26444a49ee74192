//! Spectrum-management network descriptions and the calculation requests
//! that are derived from them.
//!
//! Every physical quantity is held as an exact integer: coordinates in
//! hundredths of an arc-second, every other decimal quantity in millionths of
//! its unit. All rules of the library are therefore integer arithmetic, and
//! each public function carries a contract that Verus proves.

pub mod cloudrf;
pub mod find;
pub mod generate;
pub mod interference_analysis;
pub mod multisite_pipeline;
pub mod openssrf;
pub mod openssrf_to_cloudrf;
pub mod quantity;
pub mod text;

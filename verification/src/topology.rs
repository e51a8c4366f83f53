//! Core-topology naming: the marketed family lines of one vendor's parts.

use vstd::prelude::*;

verus! {

/// The marketed family lines of AMD parts.
#[derive(Debug, Copy, Clone, PartialEq, Eq, Structural)]
pub enum AMDCpuFamily {
    Athlon,
    AthlonXP,
    Athlon2,
    Athlon2X2,
    Duron,
    Sempron,
    PhenomX3,
    PhenomX4,
    Phenom2X4,
    Phenom2X6,
    Ryzen,
    Epyc,
}

/// Placeholder for core/thread topology details.
#[derive(Debug)]
pub struct Topology {}

} // verus!

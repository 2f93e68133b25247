//! The catalogue of the MK4i swerve module: its gear ratio options and its
//! wheel options.
use vstd::prelude::*;

verus! {

/// The drive gear ratio options of the MK4i module.
#[derive(Clone, Copy, Debug, PartialEq, Eq, Structural)]
pub enum Mk4iGearRatio {
    L1,
    L1Plus,
    L2,
    L2Plus,
    L3,
    L3Plus,
}

/// The wheel options of the MK4i module.
#[derive(Clone, Copy, Debug, PartialEq, Eq, Structural)]
pub enum Mk4iWheel {
    Billet,
    Colson,
}

} // verus!

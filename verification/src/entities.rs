//! Kinds of fighters and CPU-controlled enemies that the game rules speak of.

use vstd::prelude::*;

verus! {

/// The CPU-controlled enemy kinds.
#[derive(Debug, Clone, Copy, PartialEq, Eq, Hash, Structural)]
pub enum CpuVariant {
    GiantMantis,
    Rattlesnake,
    GiantRattlesnake,
    Raptor,
    TRex,
    BloodIdol,
    VoidTempest,
    LightReaver,
    NightReaver,
    RazorFiend,
}

/// The playable fighter kinds.
#[derive(Debug, Clone, Copy, PartialEq, Eq, Hash, Structural)]
pub enum FighterType {
    Racer,
    Soldier,
    Raptor,
}

} // verus!

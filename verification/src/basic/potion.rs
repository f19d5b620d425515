//! The plain potion record.

use vstd::prelude::*;

verus! {

/// A potion.
#[derive(Clone, Copy, Debug)]
pub struct Potion {
    pub kind: PotionKind,
    /// Whether it was identified.
    pub identified: bool,
    /// Whether it is an alchemy product.
    pub alchemy: bool,
}

/// The twelve kinds of potions.
#[derive(Clone, Copy, Debug)]
pub enum PotionKind {
    Healing,
    Experience,
    ToxicGas,
    ParalyticGas,
    LiquidFlame,
    Levitation,
    Invisibility,
    Purity,
    Frost,
    Strength,
    MindVision,
    Haste,
}

} // verus!

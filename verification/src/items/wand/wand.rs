//! Wands with signed levels that recharge one charge per step.

use vstd::prelude::*;

verus! {

/// A wand.
#[derive(Clone, Copy, Debug, PartialEq, Eq, Structural)]
pub struct Wand {
    pub kind: WandKind,
    /// Upgrade level.
    pub level: i32,
    /// Current charges.
    pub charges: u8,
    /// Maximum charges.
    pub max_charges: u8,
    /// Whether it is cursed.
    pub cursed: bool,
}

/// The eight kinds of wands.
#[derive(Clone, Copy, Debug, PartialEq, Eq, Structural)]
pub enum WandKind {
    MagicMissile,
    Fireblast,
    Frost,
    Lightning,
    Disintegration,
    Corruption,
    LivingEarth,
    Regrowth,
}

impl Wand {
    /// Base damage of the kind at this level.
    pub open spec fn spec_base_damage(self) -> int {
        match self.kind {
            WandKind::MagicMissile => 1 + self.level,
            WandKind::Fireblast => 4 + self.level * 2,
            WandKind::Frost => 3 + self.level,
            WandKind::Lightning => 8 + self.level * 3,
            WandKind::Disintegration => 6 + self.level * 2,
            WandKind::Corruption => 0,
            WandKind::LivingEarth => 2 + self.level,
            WandKind::Regrowth => 0,
        }
    }

    /// Base damage (must fit in an `i32`).
    pub fn base_damage(&self) -> (d: i32)
        requires
            i32::MIN <= self.spec_base_damage() <= i32::MAX,
            i32::MIN <= self.level * 3 <= i32::MAX,
        ensures
            d == self.spec_base_damage(),
    {
        match self.kind {
            WandKind::MagicMissile => 1 + self.level,
            WandKind::Fireblast => 4 + self.level * 2,
            WandKind::Frost => 3 + self.level,
            WandKind::Lightning => 8 + self.level * 3,
            WandKind::Disintegration => 6 + self.level * 2,
            WandKind::Corruption => 0,
            WandKind::LivingEarth => 2 + self.level,
            WandKind::Regrowth => 0,
        }
    }

    /// Recharge one charge, up to the maximum.
    pub fn recharge(&mut self)
        ensures
            *final(self) == (Wand {
                charges: if old(self).charges < old(self).max_charges {
                    (old(self).charges + 1) as u8
                } else {
                    old(self).charges
                },
                ..*old(self)
            }),
    {
        if self.charges < self.max_charges {
            self.charges = self.charges + 1;
        }
    }
}

} // verus!

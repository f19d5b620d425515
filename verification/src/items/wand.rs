//! Wands: eight kinds with charges that recharge over time.

use vstd::prelude::*;
use vstd::string::*;

use crate::dice::roll_ratio;
use crate::text::{decimal, push_decimal};

pub mod wand;

verus! {

/// A wand.
#[derive(Clone, Copy, Debug, PartialEq, Eq, Structural)]
pub struct Wand {
    pub kind: WandKind,
    /// Upgrade level.
    pub level: u8,
    /// Current charges.
    pub charges: u8,
    /// Maximum charges (2 + level for disintegration, 3 + level otherwise).
    pub max_charges: u8,
    /// Whether it is cursed.
    pub cursed: bool,
    /// Whether it was identified.
    pub identified: bool,
}

/// The eight kinds of wands.
#[derive(Clone, Copy, Debug, PartialEq, Eq, Structural)]
pub enum WandKind {
    MagicMissile,
    Fireblast,
    Frost,
    Lightning,
    Corruption,
    LivingEarth,
    Regrowth,
    Disintegration,
}

/// Maximum charges of a new wand.
pub open spec fn spec_wand_max_charges(kind: WandKind, level: u8) -> int {
    match kind {
        WandKind::Disintegration => 2 + level,
        _ => 3 + level,
    }
}

pub open spec fn spec_new_wand(kind: WandKind, level: u8, cursed: bool) -> Wand {
    let m = spec_wand_max_charges(kind, level) as u8;
    Wand { kind: kind, level: level, charges: m, max_charges: m, cursed: cursed, identified: false }
}

pub open spec fn spec_wand_base_name(kind: WandKind) -> Seq<char> {
    match kind {
        WandKind::MagicMissile => "魔法飞弹法杖"@,
        WandKind::Fireblast => "火焰冲击法杖"@,
        WandKind::Frost => "寒冰法杖"@,
        WandKind::Lightning => "闪电法杖"@,
        WandKind::Corruption => "腐化法杖"@,
        WandKind::LivingEarth => "活体大地法杖"@,
        WandKind::Regrowth => "再生法杖"@,
        WandKind::Disintegration => "瓦解法杖"@,
    }
}

/// Damage of an uncursed wand of this kind and level.
pub open spec fn spec_wand_raw_damage(kind: WandKind, level: u8) -> int {
    match kind {
        WandKind::MagicMissile => 1 + level,
        WandKind::Fireblast => 4 + level * 2,
        WandKind::Frost => 3 + level,
        WandKind::Lightning => 8 + level * 3,
        WandKind::Corruption => 0,
        WandKind::LivingEarth => 2 + level,
        WandKind::Regrowth => 0,
        WandKind::Disintegration => 10 + level * 4,
    }
}

impl Wand {
    pub open spec fn spec_name(self) -> Seq<char> {
        if !self.identified {
            if self.cursed {
                "未鉴定的诅咒法杖"@
            } else {
                "未鉴定的法杖"@
            }
        } else if self.level > 0 {
            "+"@ + decimal(self.level as nat) + " "@ + spec_wand_base_name(self.kind)
        } else {
            spec_wand_base_name(self.kind)
        }
    }

    /// Base damage: the kind's damage at this level, 70% of it (rounded down)
    /// when cursed.
    pub open spec fn spec_base_damage(self) -> int {
        let d = spec_wand_raw_damage(self.kind, self.level);
        if self.cursed {
            d * 7 / 10
        } else {
            d
        }
    }

    /// A new wand at full charge, unidentified and uncursed (the maximum
    /// charge count must fit in a `u8`).
    pub fn new(kind: WandKind, level: u8) -> (w: Self)
        requires
            spec_wand_max_charges(kind, level) <= u8::MAX,
        ensures
            w == spec_new_wand(kind, level, false),
    {
        let max_charges = match kind {
            WandKind::Disintegration => 2 + level,
            _ => 3 + level,
        };
        Self { kind, level, charges: max_charges, max_charges, cursed: false, identified: false }
    }

    /// A new cursed wand at full charge.
    pub fn new_cursed(kind: WandKind, level: u8) -> (w: Self)
        requires
            spec_wand_max_charges(kind, level) <= u8::MAX,
        ensures
            w == spec_new_wand(kind, level, true),
    {
        let mut wand = Self::new(kind, level);
        wand.cursed = true;
        wand
    }

    /// Name: hidden until identified, then "+level base" for a positive level.
    pub fn name(&self) -> (s: String)
        ensures
            s@ == self.spec_name(),
    {
        if !self.identified {
            return if self.cursed {
                String::from_str("未鉴定的诅咒法杖")
            } else {
                String::from_str("未鉴定的法杖")
            };
        }
        let base_name = match self.kind {
            WandKind::MagicMissile => "魔法飞弹法杖",
            WandKind::Fireblast => "火焰冲击法杖",
            WandKind::Frost => "寒冰法杖",
            WandKind::Lightning => "闪电法杖",
            WandKind::Corruption => "腐化法杖",
            WandKind::LivingEarth => "活体大地法杖",
            WandKind::Regrowth => "再生法杖",
            WandKind::Disintegration => "瓦解法杖",
        };
        if self.level > 0 {
            let mut s = String::from_str("+");
            push_decimal(&mut s, self.level as u64);
            s.append(" ");
            s.append(base_name);
            s
        } else {
            String::from_str(base_name)
        }
    }

    /// Base damage (the damage formula is computed in `u8` and must fit).
    pub fn base_damage(&self) -> (d: usize)
        requires
            spec_wand_raw_damage(self.kind, self.level) <= u8::MAX,
        ensures
            d == self.spec_base_damage(),
    {
        let damage: u8 = match self.kind {
            WandKind::MagicMissile => 1 + self.level,
            WandKind::Fireblast => 4 + self.level * 2,
            WandKind::Frost => 3 + self.level,
            WandKind::Lightning => 8 + self.level * 3,
            WandKind::Corruption => 0,
            WandKind::LivingEarth => 2 + self.level,
            WandKind::Regrowth => 0,
            WandKind::Disintegration => 10 + self.level * 4,
        };
        if self.cursed {
            (damage as usize) * 7 / 10
        } else {
            damage as usize
        }
    }

    /// Use the wand: spends one charge; fails when empty.
    pub fn use_wand(&mut self) -> (used: bool)
        ensures
            used == (old(self).charges > 0),
            used ==> *final(self) == (Wand { charges: (old(self).charges - 1) as u8, ..*old(self) }),
            !used ==> *final(self) == *old(self),
    {
        if self.charges == 0 {
            return false;
        }
        self.charges = self.charges - 1;
        true
    }

    /// Natural recharge: a wand below its maximum regains one charge with a
    /// probability of 10% at level 0, 15% at level 1, 20% at level 2 and 25%
    /// above.
    pub fn natural_recharge(&mut self)
        ensures
            final(self).charges == old(self).charges || (old(self).charges < old(self).max_charges
                && final(self).charges == old(self).charges + 1),
            *final(self) == (Wand { charges: final(self).charges, ..*old(self) }),
    {
        if self.charges < self.max_charges {
            let chance_in_20: u32 = match self.level {
                0 => 2,
                1 => 3,
                2 => 4,
                _ => 5,
            };
            if roll_ratio(chance_in_20, 20) {
                self.charges = self.charges + 1;
            }
        }
    }

    /// Identify the wand.
    pub fn identify(&mut self)
        ensures
            *final(self) == (Wand { identified: true, ..*old(self) }),
    {
        self.identified = true;
    }
}

} // verus!

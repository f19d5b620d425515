//! Armor with a signed upgrade level; a negative level means a curse.

use vstd::prelude::*;
use vstd::string::*;

verus! {

/// Armor data.
#[derive(Clone, Debug, PartialEq, Eq)]
pub struct Armor {
    pub name: String,
    /// Tier 1-5.
    pub tier: usize,
    /// Base defense.
    pub defense: i32,
    /// Upgrade level (negative when cursed).
    pub level: i32,
    /// Glyph inscribed on the armor.
    pub glyph: Option<ArmorGlyph>,
    /// Whether the armor is cursed.
    pub cursed: bool,
}

/// Armor glyphs (all ten).
#[derive(Clone, Copy, Debug, PartialEq, Eq, Structural)]
pub enum ArmorGlyph {
    Affection,
    AntiEntropy,
    Brimstone,
    Camouflage,
    Flow,
    Obfuscation,
    Potential,
    Repulsion,
    Stone,
    Thorns,
}

/// What a glyph does when it triggers.
#[derive(Clone, Copy, Debug, PartialEq, Eq, Structural)]
pub enum GlyphEffect {
    Nothing,
    /// Damage reflected.
    ReflectDamage(i32),
    /// Knockback distance.
    Knockback(i32),
}

pub open spec fn spec_base_defense(tier: usize) -> i32 {
    if tier == 1 {
        2
    } else if tier == 2 {
        5
    } else if tier == 3 {
        8
    } else if tier == 4 {
        11
    } else if tier == 5 {
        14
    } else {
        0
    }
}

pub open spec fn spec_tier_name(tier: usize) -> Seq<char> {
    if tier == 1 {
        "布甲"@
    } else if tier == 2 {
        "皮甲"@
    } else if tier == 3 {
        "锁甲"@
    } else if tier == 4 {
        "鳞甲"@
    } else if tier == 5 {
        "板甲"@
    } else {
        "未知护甲"@
    }
}

impl Armor {
    /// Effective defense: base plus level, never below zero. A negative
    /// level is the curse's own penalty; a cursed armor whose level is not
    /// negative loses two more points instead.
    pub open spec fn spec_effective_defense(self) -> int {
        let d = self.defense + self.level - if self.cursed && self.level >= 0 {
            2int
        } else {
            0int
        };
        if d < 0 {
            0
        } else {
            d
        }
    }

    /// A new armor of the given tier and level; a negative level is cursed.
    pub fn new(tier: usize, level: i32) -> (a: Self)
        ensures
            a.name@ == spec_tier_name(tier),
            a.tier == tier,
            a.defense == spec_base_defense(tier),
            a.level == level,
            a.glyph is None,
            a.cursed == (level < 0),
    {
        let defense = Self::base_defense(tier);
        let name = Self::tier_name(tier);
        Armor { name, tier, defense, level, glyph: None, cursed: level < 0 }
    }

    /// Base defense of a tier.
    fn base_defense(tier: usize) -> (d: i32)
        ensures
            d == spec_base_defense(tier),
    {
        match tier {
            1 => 2,
            2 => 5,
            3 => 8,
            4 => 11,
            5 => 14,
            _ => 0,
        }
    }

    /// Name of a tier.
    fn tier_name(tier: usize) -> (s: String)
        ensures
            s@ == spec_tier_name(tier),
    {
        match tier {
            1 => String::from_str("布甲"),
            2 => String::from_str("皮甲"),
            3 => String::from_str("锁甲"),
            4 => String::from_str("鳞甲"),
            5 => String::from_str("板甲"),
            _ => String::from_str("未知护甲"),
        }
    }

    /// Effective defense (the intermediate sums must fit in an `i32`).
    pub fn effective_defense(&self) -> (d: i32)
        requires
            i32::MIN + 2 <= self.defense + self.level <= i32::MAX,
        ensures
            d == self.spec_effective_defense(),
    {
        let mut defense = self.defense + self.level;
        if self.cursed && self.level >= 0 {
            defense = defense - 2;
        }
        if defense < 0 {
            0
        } else {
            defense
        }
    }

    /// Upgrade: one more level; the curse lifts once the level is not negative.
    pub fn upgrade(&mut self)
        requires
            old(self).level < i32::MAX,
        ensures
            final(self).level == old(self).level + 1,
            final(self).cursed == (old(self).cursed && old(self).level + 1 < 0),
            final(self).name == old(self).name,
            final(self).tier == old(self).tier,
            final(self).defense == old(self).defense,
            final(self).glyph == old(self).glyph,
    {
        self.level = self.level + 1;
        if self.level >= 0 {
            self.cursed = false;
        }
    }

    /// Inscribe a glyph; this lifts the curse.
    pub fn inscribe(&mut self, glyph: ArmorGlyph)
        ensures
            final(self).glyph == Some(glyph),
            !final(self).cursed,
            final(self).name == old(self).name,
            final(self).tier == old(self).tier,
            final(self).defense == old(self).defense,
            final(self).level == old(self).level,
    {
        self.glyph = Some(glyph);
        if self.cursed {
            self.cursed = false;
        }
    }

    /// What the glyph does when it triggers.
    pub fn trigger_glyph(&self) -> (e: Option<GlyphEffect>)
        ensures
            e == match self.glyph {
                None => None,
                Some(ArmorGlyph::Thorns) => Some(GlyphEffect::ReflectDamage(
                    (1 + (if self.level > 0 {
                        self.level as int
                    } else {
                        0
                    }) / 3) as i32,
                )),
                Some(ArmorGlyph::Repulsion) => Some(GlyphEffect::Knockback(2)),
                Some(_) => Some(GlyphEffect::Nothing),
            },
    {
        match self.glyph {
            None => None,
            Some(ArmorGlyph::Thorns) => {
                let l = if self.level > 0 {
                    self.level
                } else {
                    0
                };
                Some(GlyphEffect::ReflectDamage(1 + l / 3))
            },
            Some(ArmorGlyph::Repulsion) => Some(GlyphEffect::Knockback(2)),
            Some(_) => Some(GlyphEffect::Nothing),
        }
    }
}

} // verus!

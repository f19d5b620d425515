//! Armor: tiers, upgrades, glyphs and curses.

use vstd::prelude::*;
use vstd::string::*;

use crate::dice::{roll_index, roll_range, roll_ratio};
use crate::items::DisplayColor;
use crate::text::{decimal, push_decimal};

verus! {

/// Armor data.
#[derive(Clone, Copy, Debug, PartialEq, Eq, Structural)]
pub struct Armor {
    /// Tier 1-5.
    pub tier: u32,
    /// Base defense.
    pub defense: u32,
    /// Upgrade level.
    pub upgrade_level: u8,
    /// Glyph inscribed on the armor.
    pub glyph: Option<ArmorGlyph>,
    /// Whether the armor is cursed.
    pub cursed: bool,
    /// Whether the curse status is known.
    pub cursed_known: bool,
    /// Strength requirement.
    pub str_requirement: u8,
    /// Base value.
    pub base_value: u32,
    /// Whether the armor is identified.
    pub identified: bool,
}

/// Armor glyphs (all ten).
#[derive(Clone, Copy, Debug, PartialEq, Eq, Structural)]
pub enum ArmorGlyph {
    Affection,
    AntiEntropy,
    Brimstone,
    Camouflage,
    Flow,
    Obfuscation,
    Potential,
    Repulsion,
    Stone,
    Thorns,
}

/// What a glyph does when it triggers.
#[derive(Clone, Copy, Debug, PartialEq, Eq, Structural)]
pub enum GlyphEffect {
    Nothing,
    /// Damage reflected.
    ReflectDamage(u32),
    /// Knockback distance.
    Knockback(u32),
    /// Charm chance in percent.
    Charm(u32),
}

pub open spec fn spec_base_defense(tier: u32) -> u32 {
    if tier == 1 {
        2
    } else if tier == 2 {
        5
    } else if tier == 3 {
        8
    } else if tier == 4 {
        11
    } else if tier == 5 {
        14
    } else {
        0
    }
}

pub open spec fn spec_base_str_requirement(tier: u32) -> u8 {
    if tier == 1 {
        10
    } else if tier == 2 {
        12
    } else if tier == 3 {
        14
    } else if tier == 4 {
        16
    } else if tier == 5 {
        18
    } else {
        0
    }
}

pub open spec fn spec_base_value(tier: u32) -> u32 {
    if tier == 1 {
        100
    } else if tier == 2 {
        250
    } else if tier == 3 {
        500
    } else if tier == 4 {
        1000
    } else if tier == 5 {
        2000
    } else {
        0
    }
}

pub open spec fn spec_tier_name(tier: u32) -> Seq<char> {
    if tier == 1 {
        "布甲"@
    } else if tier == 2 {
        "皮甲"@
    } else if tier == 3 {
        "锁甲"@
    } else if tier == 4 {
        "鳞甲"@
    } else if tier == 5 {
        "板甲"@
    } else {
        "未知护甲"@
    }
}

pub open spec fn spec_glyph_name(g: ArmorGlyph) -> Seq<char> {
    match g {
        ArmorGlyph::Affection => "魅惑"@,
        ArmorGlyph::AntiEntropy => "抗熵"@,
        ArmorGlyph::Brimstone => "硫磺"@,
        ArmorGlyph::Camouflage => "伪装"@,
        ArmorGlyph::Flow => "流动"@,
        ArmorGlyph::Obfuscation => "混淆"@,
        ArmorGlyph::Potential => "潜能"@,
        ArmorGlyph::Repulsion => "排斥"@,
        ArmorGlyph::Stone => "石肤"@,
        ArmorGlyph::Thorns => "荆棘"@,
    }
}

pub open spec fn spec_glyph_description(g: ArmorGlyph) -> Seq<char> {
    match g {
        ArmorGlyph::Affection => "受到攻击时有概率魅惑敌人"@,
        ArmorGlyph::AntiEntropy => "免疫燃烧和冰冻效果"@,
        ArmorGlyph::Brimstone => "免疫燃烧，受到火焰攻击时恢复生命"@,
        ArmorGlyph::Camouflage => "静止时获得隐身效果"@,
        ArmorGlyph::Flow => "被击退距离翻倍但不受伤害"@,
        ArmorGlyph::Obfuscation => "降低敌人的命中率"@,
        ArmorGlyph::Potential => "充能速度提升"@,
        ArmorGlyph::Repulsion => "击退攻击者"@,
        ArmorGlyph::Stone => "免疫毒气和瘫痪效果"@,
        ArmorGlyph::Thorns => "反弹部分近战伤害"@,
    }
}

pub open spec fn spec_base_penalty(tier: u32) -> u32 {
    if tier == 2 {
        1
    } else if tier == 3 {
        2
    } else if tier == 4 {
        3
    } else if tier == 5 {
        4
    } else {
        0
    }
}

/// A freshly made, unidentified, uncursed armor of the given tier.
pub open spec fn spec_new_armor(tier: u32) -> Armor {
    Armor {
        tier: tier,
        defense: spec_base_defense(tier),
        upgrade_level: 0,
        glyph: None,
        cursed: false,
        cursed_known: false,
        str_requirement: spec_base_str_requirement(tier),
        base_value: spec_base_value(tier),
        identified: false,
    }
}

/// The glyph at a position of the declaration.
pub open spec fn spec_glyph_at(i: int) -> ArmorGlyph {
    if i == 0 {
        ArmorGlyph::Affection
    } else if i == 1 {
        ArmorGlyph::AntiEntropy
    } else if i == 2 {
        ArmorGlyph::Brimstone
    } else if i == 3 {
        ArmorGlyph::Camouflage
    } else if i == 4 {
        ArmorGlyph::Flow
    } else if i == 5 {
        ArmorGlyph::Obfuscation
    } else if i == 6 {
        ArmorGlyph::Potential
    } else if i == 7 {
        ArmorGlyph::Repulsion
    } else if i == 8 {
        ArmorGlyph::Stone
    } else {
        ArmorGlyph::Thorns
    }
}

/// The armor made of the values drawn: its tier, whether it bears a glyph,
/// the position of the glyph, and whether it is cursed.
pub open spec fn armor_from_rolls(tier: u32, inscribed: bool, g: int, cursed: bool) -> Armor {
    let a = spec_new_armor(tier);
    let a2 = if inscribed {
        Armor { glyph: Some(spec_glyph_at(g)), ..a }
    } else {
        a
    };
    if cursed {
        Armor { cursed: true, cursed_known: false, ..a2 }
    } else {
        a2
    }
}

impl Armor {
    /// Display name: tier name, then "+level" and " [glyph]" once identified,
    /// then " (诅咒)" when the curse is known.
    pub open spec fn spec_name(self) -> Seq<char> {
        spec_tier_name(self.tier) + (if self.identified && self.upgrade_level > 0 {
            "+"@ + decimal(self.upgrade_level as nat)
        } else {
            Seq::empty()
        }) + (if self.identified && self.glyph is Some {
            " ["@ + spec_glyph_name(self.glyph.unwrap()) + "]"@
        } else {
            Seq::empty()
        }) + (if self.cursed_known && self.cursed {
            " (诅咒)"@
        } else {
            Seq::empty()
        })
    }

    /// Evasion penalty: the tier's penalty, lowered by one per three upgrade
    /// levels down to no less than zero, removed by the Flow glyph, and raised
    /// by half (rounded up) on a cursed armor.
    pub open spec fn spec_evasion_penalty(self) -> u32 {
        let reduction = self.upgrade_level / 3;
        let p = if self.glyph == Some(ArmorGlyph::Flow) {
            0
        } else if reduction >= spec_base_penalty(self.tier) {
            0
        } else {
            (spec_base_penalty(self.tier) - reduction) as u32
        };
        if self.cursed {
            ((3 * p + 1) / 2) as u32
        } else {
            p
        }
    }

    /// Effective defense: base plus upgrade level, two thirds (0.67, rounded
    /// down) of it on a cursed armor, and at least 1.
    pub open spec fn spec_defense(self) -> u32 {
        let d = self.defense + self.upgrade_level;
        let d2 = if self.cursed {
            d * 67 / 100
        } else {
            d
        };
        if d2 < 1 {
            1
        } else {
            d2 as u32
        }
    }

    pub open spec fn spec_trigger_glyph(self) -> Option<GlyphEffect> {
        if !self.identified {
            None
        } else {
            match self.glyph {
                None => None,
                Some(ArmorGlyph::Thorns) => Some(GlyphEffect::ReflectDamage((1 + self.upgrade_level / 3) as u32)),
                Some(ArmorGlyph::Repulsion) => Some(GlyphEffect::Knockback(2)),
                Some(ArmorGlyph::Affection) => Some(GlyphEffect::Charm((10 + self.upgrade_level * 5) as u32)),
                Some(_) => Some(GlyphEffect::Nothing),
            }
        }
    }

    /// Create a new armor.
    pub fn new(tier: u32) -> (a: Self)
        ensures
            a == spec_new_armor(tier),
    {
        let defense = Self::base_defense(tier);
        let str_requirement = Self::base_str_requirement(tier);
        let base_value = Self::base_value(tier);
        Armor {
            tier,
            defense,
            upgrade_level: 0,
            glyph: None,
            cursed: false,
            cursed_known: false,
            str_requirement,
            base_value,
            identified: false,
        }
    }

    /// Identify the armor; this also reveals its curse status.
    pub fn identify(&mut self)
        ensures
            *final(self) == (Armor { identified: true, cursed_known: true, ..*old(self) }),
    {
        self.identified = true;
        self.cursed_known = true;
    }

    /// The armor made of the values drawn: its tier, whether it bears a
    /// glyph, the position of the glyph, and whether it is cursed.
    pub fn from_rolls(tier: u32, inscribed: bool, g: usize, cursed: bool) -> (a: Self)
        ensures
            a == armor_from_rolls(tier, inscribed, g as int, cursed),
    {
        let mut armor = Armor::new(tier);
        if inscribed {
            let glyph = if g == 0 {
                ArmorGlyph::Affection
            } else if g == 1 {
                ArmorGlyph::AntiEntropy
            } else if g == 2 {
                ArmorGlyph::Brimstone
            } else if g == 3 {
                ArmorGlyph::Camouflage
            } else if g == 4 {
                ArmorGlyph::Flow
            } else if g == 5 {
                ArmorGlyph::Obfuscation
            } else if g == 6 {
                ArmorGlyph::Potential
            } else if g == 7 {
                ArmorGlyph::Repulsion
            } else if g == 8 {
                ArmorGlyph::Stone
            } else {
                ArmorGlyph::Thorns
            };
            armor.inscribe(glyph);
        }
        if cursed {
            armor.curse();
        }
        armor
    }

    /// A random armor: tier 1 to 5, a random glyph with probability 15%,
    /// cursed with probability 15%.
    pub fn random_new() -> (a: Self)
        ensures
            1 <= a.tier <= 5,
            a == (Armor { glyph: a.glyph, cursed: a.cursed, ..spec_new_armor(a.tier) }),
            exists|tier: u32, inscribed: bool, g: int, cursed: bool|
                1 <= tier <= 5 && 0 <= g < 10 && a == #[trigger] armor_from_rolls(tier, inscribed, g, cursed),
    {
        let tier = roll_range(1, 5);
        let inscribed = roll_ratio(3, 20);
        let g = if inscribed {
            roll_index(10)
        } else {
            0
        };
        let cursed = roll_ratio(3, 20);
        Self::from_rolls(tier, inscribed, g, cursed)
    }

    /// Base value of a tier.
    fn base_value(tier: u32) -> (v: u32)
        ensures
            v == spec_base_value(tier),
    {
        match tier {
            1 => 100,
            2 => 250,
            3 => 500,
            4 => 1000,
            5 => 2000,
            _ => 0,
        }
    }

    /// Base defense of a tier.
    fn base_defense(tier: u32) -> (d: u32)
        ensures
            d == spec_base_defense(tier),
    {
        match tier {
            1 => 2,
            2 => 5,
            3 => 8,
            4 => 11,
            5 => 14,
            _ => 0,
        }
    }

    /// Strength requirement of a tier.
    fn base_str_requirement(tier: u32) -> (s: u8)
        ensures
            s == spec_base_str_requirement(tier),
    {
        match tier {
            1 => 10,
            2 => 12,
            3 => 14,
            4 => 16,
            5 => 18,
            _ => 0,
        }
    }

    /// Tier name.
    pub fn tier_name(&self) -> (s: String)
        ensures
            s@ == spec_tier_name(self.tier),
    {
        match self.tier {
            1 => String::from_str("布甲"),
            2 => String::from_str("皮甲"),
            3 => String::from_str("锁甲"),
            4 => String::from_str("鳞甲"),
            5 => String::from_str("板甲"),
            _ => String::from_str("未知护甲"),
        }
    }

    /// Full name, with level and glyph once identified and the curse once known.
    pub fn name(&self) -> (s: String)
        ensures
            s@ == self.spec_name(),
    {
        let mut s = self.tier_name();
        if self.identified && self.upgrade_level > 0 {
            s.append("+");
            push_decimal(&mut s, self.upgrade_level as u64);
        }
        if self.identified {
            if let Some(g) = self.glyph {
                s.append(" [");
                s.append(glyph_name(g));
                s.append("]");
            }
        }
        if self.cursed_known && self.cursed {
            s.append(" (诅咒)");
        }
        s
    }

    /// Evasion penalty of the armor; upgrades lower it no further than zero.
    pub fn evasion_penalty(&self) -> (p: u32)
        ensures
            p == self.spec_evasion_penalty(),
    {
        let base_penalty: u32 = match self.tier {
            1 => 0,
            2 => 1,
            3 => 2,
            4 => 3,
            5 => 4,
            _ => 0,
        };
        let upgrade_reduction = self.upgrade_level as u32 / 3;
        let mut final_penalty = base_penalty.saturating_sub(upgrade_reduction);
        if let Some(ArmorGlyph::Flow) = self.glyph {
            final_penalty = 0;
        }
        if self.cursed {
            final_penalty = (3 * final_penalty + 1) / 2;
        }
        final_penalty
    }

    /// Color of the armor in the interface.
    pub fn color(&self) -> (c: DisplayColor)
        ensures
            c == (if self.cursed_known && self.cursed {
                DisplayColor::LightRed
            } else if self.tier == 1 {
                DisplayColor::White
            } else if self.tier == 2 {
                DisplayColor::LightYellow
            } else if self.tier == 3 {
                DisplayColor::LightBlue
            } else if self.tier == 4 {
                DisplayColor::LightGreen
            } else if self.tier == 5 {
                DisplayColor::LightMagenta
            } else {
                DisplayColor::Gray
            }),
    {
        if self.cursed_known && self.cursed {
            DisplayColor::LightRed
        } else {
            match self.tier {
                1 => DisplayColor::White,
                2 => DisplayColor::LightYellow,
                3 => DisplayColor::LightBlue,
                4 => DisplayColor::LightGreen,
                5 => DisplayColor::LightMagenta,
                _ => DisplayColor::Gray,
            }
        }
    }

    /// Effective defense. The sum of base defense and upgrade level must fit
    /// in a `u32`, and, on a cursed armor, stay below 2^17, where the `f32`
    /// scaling by 0.67 still rounds to the exact two-thirds shown here.
    pub fn defense(&self) -> (d: u32)
        requires
            self.defense + self.upgrade_level <= u32::MAX,
            self.cursed ==> self.defense + self.upgrade_level < 0x20000,
        ensures
            d == self.spec_defense(),
    {
        let mut defense = self.defense + self.upgrade_level as u32;
        if self.cursed {
            defense = defense * 67 / 100;
        }
        if defense < 1 {
            1
        } else {
            defense
        }
    }

    /// Upgrade the armor: one more level, and the curse is lifted.
    pub fn upgrade(&mut self)
        requires
            old(self).upgrade_level < u8::MAX,
        ensures
            *final(self) == (Armor {
                upgrade_level: (old(self).upgrade_level + 1) as u8,
                cursed: false,
                cursed_known: false,
                ..*old(self)
            }),
    {
        self.upgrade_level = self.upgrade_level + 1;
        self.cursed = false;
        self.cursed_known = false;
    }

    /// Inscribe a glyph (the curse stays).
    pub fn inscribe(&mut self, glyph: ArmorGlyph)
        ensures
            *final(self) == (Armor { glyph: Some(glyph), ..*old(self) }),
    {
        self.glyph = Some(glyph);
    }

    /// Curse the armor; the curse is hidden.
    pub fn curse(&mut self)
        ensures
            *final(self) == (Armor { cursed: true, cursed_known: false, ..*old(self) }),
    {
        self.cursed = true;
        self.cursed_known = false;
    }

    /// Reveal the curse status.
    pub fn identify_curse(&mut self)
        ensures
            *final(self) == (Armor { cursed_known: true, ..*old(self) }),
    {
        self.cursed_known = true;
    }

    /// Lift the curse.
    pub fn remove_curse(&mut self)
        ensures
            *final(self) == (Armor { cursed: false, cursed_known: true, ..*old(self) }),
    {
        self.cursed = false;
        self.cursed_known = true;
    }

    /// What the glyph does when it triggers (nothing before identification).
    pub fn trigger_glyph(&self) -> (e: Option<GlyphEffect>)
        ensures
            e == self.spec_trigger_glyph(),
    {
        if !self.identified {
            return None;
        }
        match self.glyph {
            None => None,
            Some(ArmorGlyph::Thorns) => Some(GlyphEffect::ReflectDamage(1 + self.upgrade_level as u32 / 3)),
            Some(ArmorGlyph::Repulsion) => Some(GlyphEffect::Knockback(2)),
            Some(ArmorGlyph::Affection) => Some(GlyphEffect::Charm(10 + self.upgrade_level as u32 * 5)),
            Some(_) => Some(GlyphEffect::Nothing),
        }
    }
}

impl Default for Armor {
    fn default() -> (a: Self)
        ensures
            a == spec_new_armor(1),
    {
        Armor::new(1)
    }
}

/// Name of a glyph.
pub fn glyph_name(g: ArmorGlyph) -> (s: &'static str)
    ensures
        s@ == spec_glyph_name(g),
{
    match g {
        ArmorGlyph::Affection => "魅惑",
        ArmorGlyph::AntiEntropy => "抗熵",
        ArmorGlyph::Brimstone => "硫磺",
        ArmorGlyph::Camouflage => "伪装",
        ArmorGlyph::Flow => "流动",
        ArmorGlyph::Obfuscation => "混淆",
        ArmorGlyph::Potential => "潜能",
        ArmorGlyph::Repulsion => "排斥",
        ArmorGlyph::Stone => "石肤",
        ArmorGlyph::Thorns => "荆棘",
    }
}

/// Description of what a glyph does.
pub fn glyph_description(glyph: &ArmorGlyph) -> (s: String)
    ensures
        s@ == spec_glyph_description(*glyph),
{
    match glyph {
        ArmorGlyph::Affection => String::from_str("受到攻击时有概率魅惑敌人"),
        ArmorGlyph::AntiEntropy => String::from_str("免疫燃烧和冰冻效果"),
        ArmorGlyph::Brimstone => String::from_str("免疫燃烧，受到火焰攻击时恢复生命"),
        ArmorGlyph::Camouflage => String::from_str("静止时获得隐身效果"),
        ArmorGlyph::Flow => String::from_str("被击退距离翻倍但不受伤害"),
        ArmorGlyph::Obfuscation => String::from_str("降低敌人的命中率"),
        ArmorGlyph::Potential => String::from_str("充能速度提升"),
        ArmorGlyph::Repulsion => String::from_str("击退攻击者"),
        ArmorGlyph::Stone => String::from_str("免疫毒气和瘫痪效果"),
        ArmorGlyph::Thorns => String::from_str("反弹部分近战伤害"),
    }
}

} // verus!

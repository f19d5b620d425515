//! Weapon enchantments, modifications, kinds and tiers.

use vstd::prelude::*;

verus! {

/// Weapon enchantments.
#[derive(Clone, Copy, Debug, PartialEq, Eq, Structural)]
pub enum WeaponEnhance {
    Burning,
    Stunning,
    Vampiric,
    Lucky,
    Projecting,
    Grim,
    Chilling,
}

/// Directions in which a weapon can be modified.
#[derive(Clone, Copy, Debug, PartialEq, Eq, Structural, Default)]
pub enum WeaponMod {
    Damage,
    Speed,
    Accuracy,
    #[default]
    Balanced,
}

/// Kinds of weapons.
#[derive(Clone, Copy, Debug, PartialEq, Eq, Structural, Default)]
pub enum WeaponKind {
    #[default]
    Sword,
    Dagger,
    Greataxe,
    Spear,
    Mace,
    Whip,
}

/// Weapon tiers.
#[derive(Clone, Copy, Debug, PartialEq, Eq, Structural, Default)]
pub enum Tier {
    #[default]
    One,
    Two,
    Three,
    Four,
    Five,
}

impl Tier {
    pub open spec fn spec_from_u32(value: u32) -> Tier {
        if value == 2 {
            Tier::Two
        } else if value == 3 {
            Tier::Three
        } else if value == 4 {
            Tier::Four
        } else if value == 5 {
            Tier::Five
        } else {
            Tier::One
        }
    }

    pub open spec fn spec_to_u32(self) -> u32 {
        match self {
            Tier::One => 1,
            Tier::Two => 2,
            Tier::Three => 3,
            Tier::Four => 4,
            Tier::Five => 5,
        }
    }

    /// Tier of a number; anything but 2 to 5 is tier one.
    pub fn from_u32(value: u32) -> (t: Self)
        ensures
            t == Tier::spec_from_u32(value),
    {
        match value {
            1 => Tier::One,
            2 => Tier::Two,
            3 => Tier::Three,
            4 => Tier::Four,
            5 => Tier::Five,
            _ => Tier::One,
        }
    }

    /// Number of a tier (1 to 5).
    pub fn to_u32(&self) -> (v: u32)
        ensures
            v == self.spec_to_u32(),
    {
        match self {
            Tier::One => 1,
            Tier::Two => 2,
            Tier::Three => 3,
            Tier::Four => 4,
            Tier::Five => 5,
        }
    }
}

/// Converting a tier to its number and back gives the tier; converting a
/// number from 1 to 5 to a tier and back gives the number.
pub proof fn lemma_tier_round_trip(t: Tier, v: u32)
    ensures
        Tier::spec_from_u32(t.spec_to_u32()) == t,
        1 <= v <= 5 ==> Tier::spec_from_u32(v).spec_to_u32() == v,
        1 <= t.spec_to_u32() <= 5,
{
}

/// Base value of a weapon of a tier (none outside tiers 1 to 5).
pub fn base_value_for_tier(tier: u32) -> (v: u32)
    ensures
        v == (if tier == 1 {
            300u32
        } else if tier == 2 {
            600
        } else if tier == 3 {
            1200
        } else if tier == 4 {
            2400
        } else if tier == 5 {
            4800
        } else {
            0
        }),
{
    match tier {
        1 => 300,
        2 => 600,
        3 => 1200,
        4 => 2400,
        5 => 4800,
        _ => 0,
    }
}

/// Damage range, strength requirement and name of the weapons of a tier.
pub open spec fn tier_stats(tier: u32) -> Option<((u32, u32), u8, Seq<char>)> {
    if tier == 1 {
        Some(((1, 6), 10, "短剑"@))
    } else if tier == 2 {
        Some(((3, 12), 13, "长剑"@))
    } else if tier == 3 {
        Some(((6, 18), 16, "巨剑"@))
    } else if tier == 4 {
        Some(((10, 25), 19, "符文剑"@))
    } else if tier == 5 {
        Some(((15, 35), 22, "圣剑"@))
    } else {
        None
    }
}

/// The damage range, strength requirement and name of a tier's weapons.
pub fn weapon_tier_stats(tier: u32) -> (r: Option<((u32, u32), u8, &'static str)>)
    ensures
        match (r, tier_stats(tier)) {
            (Some((d, s, n)), Some((d2, s2, n2))) => d == d2 && s == s2 && n@ == n2,
            (None, None) => true,
            _ => false,
        },
{
    if tier == 1 {
        Some(((1, 6), 10, "短剑"))
    } else if tier == 2 {
        Some(((3, 12), 13, "长剑"))
    } else if tier == 3 {
        Some(((6, 18), 16, "巨剑"))
    } else if tier == 4 {
        Some(((10, 25), 19, "符文剑"))
    } else if tier == 5 {
        Some(((15, 35), 22, "圣剑"))
    } else {
        None
    }
}

/// Hit bonus of a weapon: by kind, plus by modification.
pub fn accuracy_bonus(kind: WeaponKind, modifier: WeaponMod) -> (b: i32)
    ensures
        b == (match kind {
            WeaponKind::Sword => 0int,
            WeaponKind::Dagger => 1,
            WeaponKind::Greataxe => -1,
            WeaponKind::Spear => 2,
            WeaponKind::Mace => -2,
            WeaponKind::Whip => 3,
        }) + (match modifier {
            WeaponMod::Damage => 0int,
            WeaponMod::Speed => 1,
            WeaponMod::Accuracy => 3,
            WeaponMod::Balanced => 1,
        }),
{
    let base: i32 = match kind {
        WeaponKind::Sword => 0,
        WeaponKind::Dagger => 1,
        WeaponKind::Greataxe => -1,
        WeaponKind::Spear => 2,
        WeaponKind::Mace => -2,
        WeaponKind::Whip => 3,
    };
    base + match modifier {
        WeaponMod::Damage => 0,
        WeaponMod::Speed => 1,
        WeaponMod::Accuracy => 3,
        WeaponMod::Balanced => 1,
    }
}

/// Attack distance of a weapon: two for spears, one otherwise, one more
/// with the projecting enchantment.
pub fn weapon_range(kind: WeaponKind, enchanted: Option<WeaponEnhance>) -> (r: u32)
    ensures
        r == (if kind == WeaponKind::Spear { 2int } else { 1int }) + (if enchanted == Some(WeaponEnhance::Projecting) {
            1int
        } else {
            0int
        }),
{
    let base: u32 = match kind {
        WeaponKind::Spear => 2,
        _ => 1,
    };
    match enchanted {
        Some(WeaponEnhance::Projecting) => base + 1,
        _ => base,
    }
}

/// A weapon reaching farther than the next cell is ranged.
pub fn is_ranged(kind: WeaponKind, enchanted: Option<WeaponEnhance>) -> (r: bool)
    ensures
        r == (kind == WeaponKind::Spear || enchanted == Some(WeaponEnhance::Projecting)),
{
    weapon_range(kind, enchanted) > 1
}

/// The strength requirement after an upgrade to `level`: every third level
/// lowers it by one, never below one.
pub fn upgraded_str_requirement(level: u8, str_requirement: u8) -> (r: u8)
    requires
        level % 3 == 0 ==> str_requirement >= 1,
    ensures
        r == (if level % 3 == 0 {
            if str_requirement - 1 >= 1 { (str_requirement - 1) as u8 } else { 1u8 }
        } else {
            str_requirement
        }),
{
    if level % 3 == 0 {
        let lowered = str_requirement - 1;
        if lowered >= 1 {
            lowered
        } else {
            1
        }
    } else {
        str_requirement
    }
}

/// The damage range after an upgrade: minimum one more, maximum two more.
pub fn upgraded_damage(damage: (u32, u32)) -> (r: (u32, u32))
    requires
        damage.0 < u32::MAX,
        damage.1 <= u32::MAX - 2,
    ensures
        r == ((damage.0 + 1) as u32, (damage.1 + 2) as u32),
{
    (damage.0 + 1, damage.1 + 2)
}

} // verus!

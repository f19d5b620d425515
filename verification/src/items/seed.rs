//! Seeds: eight plants, each brewing into a potion.

use vstd::prelude::*;
use vstd::string::*;

use crate::dice::roll_index;
use crate::items::potion::PotionKind;
use vstd::std_specs::convert::FromSpecImpl;

pub mod seed;

verus! {

/// A seed.
#[derive(Clone, Copy, Debug, PartialEq, Eq, Structural)]
pub struct Seed {
    pub kind: SeedKind,
    /// Turns needed to grow.
    pub turns_to_grow: u8,
}

/// The eight kinds of seeds.
#[derive(Clone, Copy, Debug, PartialEq, Eq, Structural)]
pub enum SeedKind {
    Earthroot,
    Fadeleaf,
    Firebloom,
    Icecap,
    Sorrowmoss,
    Dreamfoil,
    Stormvine,
    Rotberry,
}

pub open spec fn spec_seed_turns(kind: SeedKind) -> u8 {
    match kind {
        SeedKind::Earthroot => 10,
        SeedKind::Fadeleaf => 8,
        SeedKind::Firebloom => 12,
        SeedKind::Icecap => 10,
        SeedKind::Sorrowmoss => 15,
        SeedKind::Dreamfoil => 8,
        SeedKind::Stormvine => 12,
        SeedKind::Rotberry => 20,
    }
}

pub open spec fn spec_seed_name(kind: SeedKind) -> Seq<char> {
    match kind {
        SeedKind::Earthroot => "地根草"@,
        SeedKind::Fadeleaf => "消隐叶"@,
        SeedKind::Firebloom => "火焰花"@,
        SeedKind::Icecap => "冰帽草"@,
        SeedKind::Sorrowmoss => "哀伤苔"@,
        SeedKind::Dreamfoil => "幻梦草"@,
        SeedKind::Stormvine => "风暴藤"@,
        SeedKind::Rotberry => "腐浆果"@,
    }
}

pub open spec fn spec_seed_base_value(kind: SeedKind) -> nat {
    match kind {
        SeedKind::Earthroot => 40,
        SeedKind::Fadeleaf => 35,
        SeedKind::Firebloom => 25,
        SeedKind::Icecap => 30,
        SeedKind::Sorrowmoss => 15,
        SeedKind::Dreamfoil => 50,
        SeedKind::Stormvine => 20,
        SeedKind::Rotberry => 5,
    }
}
pub open spec fn spec_seed_effect(kind: SeedKind) -> Seq<char> {
    match kind {
        SeedKind::Earthroot => "生成护盾格挡伤害"@,
        SeedKind::Fadeleaf => "触发传送效果"@,
        SeedKind::Firebloom => "产生火焰爆炸"@,
        SeedKind::Icecap => "冻结周围水体"@,
        SeedKind::Sorrowmoss => "释放毒云"@,
        SeedKind::Dreamfoil => "清除负面状态"@,
        SeedKind::Stormvine => "召唤闪电"@,
        SeedKind::Rotberry => "释放诅咒能量"@,
    }
}

pub open spec fn spec_seed_potion(kind: SeedKind) -> Option<PotionKind> {
    match kind {
        SeedKind::Earthroot => Some(PotionKind::Purity),
        SeedKind::Fadeleaf => Some(PotionKind::Invisibility),
        SeedKind::Firebloom => Some(PotionKind::LiquidFlame),
        SeedKind::Icecap => Some(PotionKind::Frost),
        SeedKind::Sorrowmoss => Some(PotionKind::ToxicGas),
        SeedKind::Dreamfoil => Some(PotionKind::MindVision),
        SeedKind::Stormvine => Some(PotionKind::Levitation),
        SeedKind::Rotberry => None,
    }
}

/// The kind at a position of the declaration.
pub open spec fn spec_seed_kind_at(i: int) -> SeedKind {
    if i == 0 {
        SeedKind::Earthroot
    } else if i == 1 {
        SeedKind::Fadeleaf
    } else if i == 2 {
        SeedKind::Firebloom
    } else if i == 3 {
        SeedKind::Icecap
    } else if i == 4 {
        SeedKind::Sorrowmoss
    } else if i == 5 {
        SeedKind::Dreamfoil
    } else if i == 6 {
        SeedKind::Stormvine
    } else {
        SeedKind::Rotberry
    }
}

/// The seed made of the position of its kind drawn.
pub open spec fn seed_from_roll(i: int) -> Seed {
    Seed { kind: spec_seed_kind_at(i), turns_to_grow: spec_seed_turns(spec_seed_kind_at(i)) }
}

impl Seed {
    /// Value: base value, times 1.2 for fast growers (up to 8 turns), 1.0
    /// for medium ones (9 to 12 turns) and 0.8 for slow ones, times 1.3 when
    /// it brews into a potion, rounded down.
    pub open spec fn spec_value(self) -> nat {
        let growth: nat = if self.turns_to_grow <= 8 {
            12
        } else if self.turns_to_grow <= 12 {
            10
        } else {
            8
        };
        let alchemy: nat = if spec_seed_potion(self.kind) is Some {
            13
        } else {
            10
        };
        spec_seed_base_value(self.kind) * growth * alchemy / 100
    }

    /// A new seed with the kind's growing time.
    pub fn new(kind: SeedKind) -> (s: Self)
        ensures
            s == (Seed { kind: kind, turns_to_grow: spec_seed_turns(kind) }),
    {
        let turns_to_grow = match kind {
            SeedKind::Earthroot => 10,
            SeedKind::Fadeleaf => 8,
            SeedKind::Firebloom => 12,
            SeedKind::Icecap => 10,
            SeedKind::Sorrowmoss => 15,
            SeedKind::Dreamfoil => 8,
            SeedKind::Stormvine => 12,
            SeedKind::Rotberry => 20,
        };
        Seed { kind, turns_to_grow }
    }

    /// The seed made of the position of its kind drawn.
    pub fn from_roll(i: usize) -> (s: Self)
        ensures
            s == seed_from_roll(i as int),
    {
        let kind = if i == 0 {
            SeedKind::Earthroot
        } else if i == 1 {
            SeedKind::Fadeleaf
        } else if i == 2 {
            SeedKind::Firebloom
        } else if i == 3 {
            SeedKind::Icecap
        } else if i == 4 {
            SeedKind::Sorrowmoss
        } else if i == 5 {
            SeedKind::Dreamfoil
        } else if i == 6 {
            SeedKind::Stormvine
        } else {
            SeedKind::Rotberry
        };
        Seed::new(kind)
    }

    /// A random seed of any kind.
    pub fn random_new() -> (s: Self)
        ensures
            s.turns_to_grow == spec_seed_turns(s.kind),
            exists|i: int| 0 <= i < 8 && s == #[trigger] seed_from_roll(i),
    {
        let i = roll_index(8);
        Self::from_roll(i)
    }

    /// Name of the seed.
    pub fn name(&self) -> (s: String)
        ensures
            s@ == spec_seed_name(self.kind),
    {
        match self.kind {
            SeedKind::Earthroot => String::from_str("地根草"),
            SeedKind::Fadeleaf => String::from_str("消隐叶"),
            SeedKind::Firebloom => String::from_str("火焰花"),
            SeedKind::Icecap => String::from_str("冰帽草"),
            SeedKind::Sorrowmoss => String::from_str("哀伤苔"),
            SeedKind::Dreamfoil => String::from_str("幻梦草"),
            SeedKind::Stormvine => String::from_str("风暴藤"),
            SeedKind::Rotberry => String::from_str("腐浆果"),
        }
    }

    /// Value of the seed.
    pub fn value(&self) -> (v: u32)
        ensures
            v == self.spec_value(),
    {
        let base_value: u32 = match self.kind {
            SeedKind::Earthroot => 40,
            SeedKind::Fadeleaf => 35,
            SeedKind::Firebloom => 25,
            SeedKind::Icecap => 30,
            SeedKind::Sorrowmoss => 15,
            SeedKind::Dreamfoil => 50,
            SeedKind::Stormvine => 20,
            SeedKind::Rotberry => 5,
        };
        let growth: u32 = if self.turns_to_grow <= 8 {
            12
        } else if self.turns_to_grow <= 12 {
            10
        } else {
            8
        };
        let alchemy: u32 = if self.to_potion().is_some() {
            13
        } else {
            10
        };
        assert(base_value * growth * alchemy <= 50 * 12 * 13) by (nonlinear_arith)
            requires
                base_value <= 50,
                growth <= 12,
                alchemy <= 13,
        ;
        base_value * growth * alchemy / 100
    }

    /// Color name of the seed.
    pub fn color(&self) -> (s: &'static str)
        ensures
            s@ == match self.kind {
                SeedKind::Earthroot => "green"@,
                SeedKind::Fadeleaf => "cyan"@,
                SeedKind::Firebloom => "red"@,
                SeedKind::Icecap => "blue"@,
                SeedKind::Sorrowmoss => "purple"@,
                SeedKind::Dreamfoil => "white"@,
                SeedKind::Stormvine => "yellow"@,
                SeedKind::Rotberry => "darkred"@,
            },
    {
        match self.kind {
            SeedKind::Earthroot => "green",
            SeedKind::Fadeleaf => "cyan",
            SeedKind::Firebloom => "red",
            SeedKind::Icecap => "blue",
            SeedKind::Sorrowmoss => "purple",
            SeedKind::Dreamfoil => "white",
            SeedKind::Stormvine => "yellow",
            SeedKind::Rotberry => "darkred",
        }
    }

    /// Effect when planted.
    pub fn effect_description(&self) -> (s: String)
        ensures
            s@ == spec_seed_effect(self.kind),
    {
        match self.kind {
            SeedKind::Earthroot => String::from_str("生成护盾格挡伤害"),
            SeedKind::Fadeleaf => String::from_str("触发传送效果"),
            SeedKind::Firebloom => String::from_str("产生火焰爆炸"),
            SeedKind::Icecap => String::from_str("冻结周围水体"),
            SeedKind::Sorrowmoss => String::from_str("释放毒云"),
            SeedKind::Dreamfoil => String::from_str("清除负面状态"),
            SeedKind::Stormvine => String::from_str("召唤闪电"),
            SeedKind::Rotberry => String::from_str("释放诅咒能量"),
        }
    }

    /// The potion this seed brews into (none for rotberry).
    pub fn to_potion(&self) -> (p: Option<PotionKind>)
        ensures
            p == spec_seed_potion(self.kind),
    {
        match self.kind {
            SeedKind::Earthroot => Some(PotionKind::Purity),
            SeedKind::Fadeleaf => Some(PotionKind::Invisibility),
            SeedKind::Firebloom => Some(PotionKind::LiquidFlame),
            SeedKind::Icecap => Some(PotionKind::Frost),
            SeedKind::Sorrowmoss => Some(PotionKind::ToxicGas),
            SeedKind::Dreamfoil => Some(PotionKind::MindVision),
            SeedKind::Stormvine => Some(PotionKind::Levitation),
            SeedKind::Rotberry => None,
        }
    }
}

impl Default for Seed {
    fn default() -> (s: Self)
        ensures
            s == (Seed { kind: SeedKind::Earthroot, turns_to_grow: 10 }),
    {
        Seed { kind: SeedKind::Earthroot, turns_to_grow: 10 }
    }
}

impl Default for SeedKind {
    fn default() -> (k: Self)
        ensures
            k == SeedKind::Earthroot,
    {
        SeedKind::Earthroot
    }
}

impl From<SeedKind> for Seed {
    fn from(kind: SeedKind) -> (s: Self) {
        Seed::new(kind)
    }
}

impl FromSpecImpl<SeedKind> for Seed {
    open spec fn obeys_from_spec() -> bool {
        true
    }

    open spec fn from_spec(kind: SeedKind) -> Seed {
        Seed { kind: kind, turns_to_grow: spec_seed_turns(kind) }
    }
}

} // verus!

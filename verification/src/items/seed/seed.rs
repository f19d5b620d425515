//! Seeds as alchemy ingredients.

use vstd::prelude::*;
use vstd::string::*;

use crate::items::potion::potion::PotionKind;

verus! {

/// A seed.
#[derive(Clone, Copy, Debug, PartialEq, Eq, Structural)]
pub struct Seed {
    pub kind: SeedKind,
    /// Turns needed to grow.
    pub turns_to_grow: u8,
}

/// The eight kinds of seeds.
#[derive(Clone, Copy, Debug, PartialEq, Eq, Structural)]
pub enum SeedKind {
    Earthroot,
    Fadeleaf,
    Firebloom,
    Icecap,
    Sorrowmoss,
    Dreamfoil,
    Stormvine,
    Rotberry,
}

pub open spec fn spec_seed_effect(kind: SeedKind) -> Seq<char> {
    match kind {
        SeedKind::Earthroot => "生成护盾格挡伤害"@,
        SeedKind::Fadeleaf => "触发传送效果"@,
        SeedKind::Firebloom => "产生火焰爆炸"@,
        SeedKind::Icecap => "冻结周围水体"@,
        SeedKind::Sorrowmoss => "释放毒云"@,
        SeedKind::Dreamfoil => "清除负面状态"@,
        SeedKind::Stormvine => "召唤闪电"@,
        SeedKind::Rotberry => "释放诅咒能量"@,
    }
}

pub open spec fn spec_seed_potion(kind: SeedKind) -> Option<PotionKind> {
    match kind {
        SeedKind::Earthroot => Some(PotionKind::Purity),
        SeedKind::Fadeleaf => Some(PotionKind::Invisibility),
        SeedKind::Firebloom => Some(PotionKind::LiquidFlame),
        SeedKind::Icecap => Some(PotionKind::Frost),
        SeedKind::Sorrowmoss => Some(PotionKind::ToxicGas),
        SeedKind::Dreamfoil => Some(PotionKind::MindVision),
        SeedKind::Stormvine => Some(PotionKind::Levitation),
        SeedKind::Rotberry => None,
    }
}

impl Seed {
    /// Effect when planted.
    pub fn effect_description(&self) -> (s: String)
        ensures
            s@ == spec_seed_effect(self.kind),
    {
        match self.kind {
            SeedKind::Earthroot => String::from_str("生成护盾格挡伤害"),
            SeedKind::Fadeleaf => String::from_str("触发传送效果"),
            SeedKind::Firebloom => String::from_str("产生火焰爆炸"),
            SeedKind::Icecap => String::from_str("冻结周围水体"),
            SeedKind::Sorrowmoss => String::from_str("释放毒云"),
            SeedKind::Dreamfoil => String::from_str("清除负面状态"),
            SeedKind::Stormvine => String::from_str("召唤闪电"),
            SeedKind::Rotberry => String::from_str("释放诅咒能量"),
        }
    }

    /// The potion this seed brews into (none for rotberry).
    pub fn to_potion(&self) -> (p: Option<PotionKind>)
        ensures
            p == spec_seed_potion(self.kind),
    {
        match self.kind {
            SeedKind::Earthroot => Some(PotionKind::Purity),
            SeedKind::Fadeleaf => Some(PotionKind::Invisibility),
            SeedKind::Firebloom => Some(PotionKind::LiquidFlame),
            SeedKind::Icecap => Some(PotionKind::Frost),
            SeedKind::Sorrowmoss => Some(PotionKind::ToxicGas),
            SeedKind::Dreamfoil => Some(PotionKind::MindVision),
            SeedKind::Stormvine => Some(PotionKind::Levitation),
            SeedKind::Rotberry => None,
        }
    }
}

} // verus!

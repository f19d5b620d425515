//! Runestones with charges.

use vstd::prelude::*;
use vstd::string::*;

verus! {

/// A runestone.
#[derive(Clone, Copy, Debug, PartialEq, Eq, Structural)]
pub struct Stone {
    pub kind: StoneKind,
    /// Remaining uses.
    pub charges: u8,
}

/// The six kinds of runestones.
#[derive(Clone, Copy, Debug, PartialEq, Eq, Structural)]
pub enum StoneKind {
    Aggression,
    Blink,
    Clairvoyance,
    Affection,
    Shock,
    DeepSleep,
}

pub open spec fn spec_runestone_effect(kind: StoneKind) -> Seq<char> {
    match kind {
        StoneKind::Aggression => "使敌人互相攻击"@,
        StoneKind::Blink => "传送至视线范围内位置"@,
        StoneKind::Clairvoyance => "显示整层地图"@,
        StoneKind::Affection => "魅惑敌人10回合"@,
        StoneKind::Shock => "击退周围敌人"@,
        StoneKind::DeepSleep => "使敌人陷入沉睡"@,
    }
}

impl Stone {
    /// Use the stone: one charge is spent (none below zero) and the effect
    /// is described.
    pub fn use_effect(&mut self) -> (s: String)
        ensures
            final(self).kind == old(self).kind,
            final(self).charges == if old(self).charges > 0 {
                (old(self).charges - 1) as u8
            } else {
                0u8
            },
            s@ == spec_runestone_effect(old(self).kind),
    {
        self.charges = self.charges.saturating_sub(1);
        match self.kind {
            StoneKind::Aggression => String::from_str("使敌人互相攻击"),
            StoneKind::Blink => String::from_str("传送至视线范围内位置"),
            StoneKind::Clairvoyance => String::from_str("显示整层地图"),
            StoneKind::Affection => String::from_str("魅惑敌人10回合"),
            StoneKind::Shock => String::from_str("击退周围敌人"),
            StoneKind::DeepSleep => String::from_str("使敌人陷入沉睡"),
        }
    }

    /// Aggression, affection and shock stones can be used again.
    pub fn is_reusable(&self) -> (r: bool)
        ensures
            r == (self.kind == StoneKind::Aggression || self.kind == StoneKind::Affection
                || self.kind == StoneKind::Shock),
    {
        match self.kind {
            StoneKind::Aggression | StoneKind::Affection | StoneKind::Shock => true,
            _ => false,
        }
    }
}

} // verus!

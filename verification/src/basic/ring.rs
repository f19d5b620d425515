//! Rings with a level clamped to 0..=10.

use vstd::prelude::*;

verus! {

/// A ring.
#[derive(Clone, Copy, Debug, PartialEq, Eq, Structural)]
pub struct Ring {
    pub kind: RingKind,
    /// Ring level (0-10).
    pub level: i32,
    /// Whether the ring is cursed.
    pub cursed: bool,
}

/// The ten kinds of rings.
#[derive(Clone, Copy, Debug, PartialEq, Eq, Structural)]
pub enum RingKind {
    Accuracy,
    Elements,
    Energy,
    Evasion,
    Force,
    Furor,
    Haste,
    Might,
    Sharpshooting,
    Wealth,
}

pub open spec fn spec_base_name(kind: RingKind) -> Seq<char> {
    match kind {
        RingKind::Accuracy => "精准之戒"@,
        RingKind::Elements => "元素之戒"@,
        RingKind::Energy => "能量之戒"@,
        RingKind::Evasion => "闪避之戒"@,
        RingKind::Force => "力量之戒"@,
        RingKind::Furor => "狂怒之戒"@,
        RingKind::Haste => "急速之戒"@,
        RingKind::Might => "威力之戒"@,
        RingKind::Sharpshooting => "狙击之戒"@,
        RingKind::Wealth => "财富之戒"@,
    }
}

impl Ring {
    /// A new uncursed ring, level clamped to 0..=10.
    pub fn new(kind: RingKind, level: i32) -> (r: Self)
        ensures
            r == (Ring {
                kind: kind,
                level: if level < 0 {
                    0
                } else if level > 10 {
                    10
                } else {
                    level
                },
                cursed: false,
            }),
    {
        let l = if level < 0 {
            0
        } else if level > 10 {
            10
        } else {
            level
        };
        Ring { kind, level: l, cursed: false }
    }

    /// Base name of the ring's kind.
    pub fn base_name(&self) -> (s: &'static str)
        ensures
            s@ == spec_base_name(self.kind),
    {
        match self.kind {
            RingKind::Accuracy => "精准之戒",
            RingKind::Elements => "元素之戒",
            RingKind::Energy => "能量之戒",
            RingKind::Evasion => "闪避之戒",
            RingKind::Force => "力量之戒",
            RingKind::Furor => "狂怒之戒",
            RingKind::Haste => "急速之戒",
            RingKind::Might => "威力之戒",
            RingKind::Sharpshooting => "狙击之戒",
            RingKind::Wealth => "财富之戒",
        }
    }
}

impl RingKind {
    /// Default level of a newly generated ring: 0 for the rare kinds, the
    /// first of 1..=3 otherwise.
    pub fn default_level(&self) -> (l: i32)
        ensures
            l == match self {
                RingKind::Wealth | RingKind::Might => 0i32,
                _ => 1i32,
            },
    {
        match self {
            RingKind::Wealth | RingKind::Might => 0,
            _ => 1,
        }
    }
}

} // verus!

//! Rings: ten kinds with upgrade levels and curses.

use vstd::prelude::*;
use vstd::string::*;

use crate::dice::{roll_index, roll_range, roll_ratio};
use crate::items::{
    encode_key_bool, encode_key_i32, encode_key_u32, key_bytes_bool, key_bytes_i32, key_bytes_u32,
    push_key_part, sea_hash, sea_hash_bytes, ItemCategory, ItemTrait,
};
use crate::text::{decimal, push_decimal};
use vstd::std_specs::convert::FromSpecImpl;

verus! {

/// A ring.
#[derive(Clone, Copy, Debug, PartialEq, Eq, Structural)]
pub struct Ring {
    pub kind: RingKind,
    /// Ring level (0-10).
    pub level: i32,
    /// Whether the ring is cursed.
    pub cursed: bool,
    pub identified: bool,
    pub base_value: u32,
}

/// The ten kinds of rings.
#[derive(Clone, Copy, Debug, PartialEq, Eq, Structural)]
pub enum RingKind {
    Accuracy,
    Elements,
    Energy,
    Evasion,
    Force,
    Furor,
    Haste,
    Might,
    Sharpshooting,
    Wealth,
}

pub open spec fn spec_ring_base_name(kind: RingKind) -> Seq<char> {
    match kind {
        RingKind::Accuracy => "精准之戒"@,
        RingKind::Elements => "元素之戒"@,
        RingKind::Energy => "能量之戒"@,
        RingKind::Evasion => "闪避之戒"@,
        RingKind::Force => "力量之戒"@,
        RingKind::Furor => "狂怒之戒"@,
        RingKind::Haste => "急速之戒"@,
        RingKind::Might => "威力之戒"@,
        RingKind::Sharpshooting => "狙击之戒"@,
        RingKind::Wealth => "财富之戒"@,
    }
}

pub open spec fn spec_ring_base_value(kind: RingKind) -> u32 {
    match kind {
        RingKind::Accuracy => 1000,
        RingKind::Elements => 800,
        RingKind::Energy => 800,
        RingKind::Evasion => 1000,
        RingKind::Force => 700,
        RingKind::Furor => 600,
        RingKind::Haste => 1200,
        RingKind::Might => 1500,
        RingKind::Sharpshooting => 1000,
        RingKind::Wealth => 2000,
    }
}

/// Declaration index of a kind (the index bincode writes).
pub open spec fn spec_ring_kind_index(kind: RingKind) -> u32 {
    match kind {
        RingKind::Accuracy => 0,
        RingKind::Elements => 1,
        RingKind::Energy => 2,
        RingKind::Evasion => 3,
        RingKind::Force => 4,
        RingKind::Furor => 5,
        RingKind::Haste => 6,
        RingKind::Might => 7,
        RingKind::Sharpshooting => 8,
        RingKind::Wealth => 9,
    }
}

/// The level clamped to 0..=10.
pub open spec fn spec_clamp_level(level: i32) -> i32 {
    if level < 0 {
        0
    } else if level > 10 {
        10
    } else {
        level
    }
}

/// A new ring of the given kind and level.
pub open spec fn spec_new_ring(kind: RingKind, level: i32, cursed: bool) -> Ring {
    Ring {
        kind: kind,
        level: spec_clamp_level(level),
        cursed: cursed,
        identified: false,
        base_value: spec_ring_base_value(kind),
    }
}

impl RingKind {
    /// Default level of a newly generated ring of this kind.
    pub open spec fn spec_default_level(self) -> i32 {
        match self {
            RingKind::Wealth | RingKind::Might => 0,
            _ => 1,
        }
    }

    /// Default level of a newly generated ring: 0 for the rare kinds, the
    /// first of 1..=3 otherwise.
    pub fn default_level(&self) -> (l: i32)
        ensures
            l == self.spec_default_level(),
    {
        match self {
            RingKind::Wealth | RingKind::Might => 0,
            _ => 1,
        }
    }
}

/// The kind at a position of the declaration.
pub open spec fn spec_ring_kind_at(i: int) -> RingKind {
    if i == 0 {
        RingKind::Accuracy
    } else if i == 1 {
        RingKind::Elements
    } else if i == 2 {
        RingKind::Energy
    } else if i == 3 {
        RingKind::Evasion
    } else if i == 4 {
        RingKind::Force
    } else if i == 5 {
        RingKind::Furor
    } else if i == 6 {
        RingKind::Haste
    } else if i == 7 {
        RingKind::Might
    } else if i == 8 {
        RingKind::Sharpshooting
    } else {
        RingKind::Wealth
    }
}

/// The ring made of the values drawn: the position of its kind, its level
/// and whether it is cursed.
pub open spec fn ring_from_rolls(i: int, level: i32, cursed: bool) -> Ring {
    spec_new_ring(spec_ring_kind_at(i), level, cursed)
}

impl Ring {
    pub open spec fn spec_name(self) -> Seq<char> {
        if !self.identified {
            if self.cursed {
                "未鉴定的诅咒戒指"@
            } else {
                "未鉴定的戒指"@
            }
        } else if self.level > 0 {
            "+"@ + decimal(self.level as nat) + " "@ + spec_ring_base_name(self.kind)
        } else {
            spec_ring_base_name(self.kind)
        }
    }

    /// Value: base value plus 20% of it per level (rounded down), halved when
    /// cursed.
    pub open spec fn spec_value(self) -> int {
        let v = if self.level > 0 {
            self.base_value + self.base_value * self.level / 5
        } else {
            self.base_value as int
        };
        if self.cursed {
            v / 2
        } else {
            v
        }
    }

    pub open spec fn spec_stacking_bytes(self) -> Seq<u8> {
        key_bytes_u32(spec_ring_kind_index(self.kind)) + key_bytes_i32(self.level) + key_bytes_bool(
            self.cursed,
        ) + key_bytes_bool(self.identified) + key_bytes_u32(self.base_value)
    }

    /// A new ring (unidentified, uncursed), level clamped to 0..=10.
    pub fn new(kind: RingKind, level: i32) -> (r: Self)
        ensures
            r == spec_new_ring(kind, level, false),
    {
        Self {
            kind,
            level: clamp_level(level),
            cursed: false,
            identified: false,
            base_value: Self::base_value_for_kind(&kind),
        }
    }

    /// A new cursed ring (unidentified), level clamped to 0..=10.
    pub fn new_cursed(kind: RingKind, level: i32) -> (r: Self)
        ensures
            r == spec_new_ring(kind, level, true),
    {
        Self {
            kind,
            level: clamp_level(level),
            cursed: true,
            identified: false,
            base_value: Self::base_value_for_kind(&kind),
        }
    }

    /// Base value of a kind.
    fn base_value_for_kind(kind: &RingKind) -> (v: u32)
        ensures
            v == spec_ring_base_value(*kind),
    {
        match kind {
            RingKind::Accuracy => 1000,
            RingKind::Elements => 800,
            RingKind::Energy => 800,
            RingKind::Evasion => 1000,
            RingKind::Force => 700,
            RingKind::Furor => 600,
            RingKind::Haste => 1200,
            RingKind::Might => 1500,
            RingKind::Sharpshooting => 1000,
            RingKind::Wealth => 2000,
        }
    }

    /// The ring made of the values drawn: the position of its kind, its
    /// level and whether it is cursed.
    pub fn from_rolls(i: usize, level: i32, cursed: bool) -> (r: Self)
        ensures
            r == ring_from_rolls(i as int, level, cursed),
    {
        let kind = if i == 0 {
            RingKind::Accuracy
        } else if i == 1 {
            RingKind::Elements
        } else if i == 2 {
            RingKind::Energy
        } else if i == 3 {
            RingKind::Evasion
        } else if i == 4 {
            RingKind::Force
        } else if i == 5 {
            RingKind::Furor
        } else if i == 6 {
            RingKind::Haste
        } else if i == 7 {
            RingKind::Might
        } else if i == 8 {
            RingKind::Sharpshooting
        } else {
            RingKind::Wealth
        };
        if cursed {
            Ring::new_cursed(kind, level)
        } else {
            Ring::new(kind, level)
        }
    }

    /// A random ring: random kind, level 0 to 3, cursed with probability 5%.
    pub fn random_new() -> (r: Self)
        ensures
            0 <= r.level <= 3,
            r == spec_new_ring(r.kind, r.level, r.cursed),
            exists|i: int, level: i32, cursed: bool|
                0 <= i < 10 && 0 <= level <= 3 && r == #[trigger] ring_from_rolls(i, level, cursed),
    {
        let i = roll_index(10);
        let level = roll_range(0, 3) as i32;
        let cursed = roll_ratio(1, 20);
        Self::from_rolls(i, level, cursed)
    }

    /// Value of the ring: the base value, plus a fifth of it for each level
    /// above zero (rounded down), halved when cursed. The value before
    /// halving fits `u32`.
    pub fn value(&self) -> (v: u32)
        requires
            self.level > 0 ==> self.base_value + self.base_value * self.level / 5 <= u32::MAX,
        ensures
            v == self.spec_value(),
    {
        let mut value: u64 = self.base_value as u64;
        if self.level > 0 {
            let lv = self.level as u64;
            assert(self.base_value * lv <= 0xffff_ffffu64 * 0x7fff_ffffu64) by (nonlinear_arith)
                requires
                    self.base_value <= 0xffff_ffffu64,
                    lv <= 0x7fff_ffffu64,
            ;
            let bonus = self.base_value as u64 * lv / 5;
            value = value + bonus;
        }
        if self.cursed {
            value = value / 2;
        }
        value as u32
    }

    /// Identify the ring.
    pub fn identify(&mut self)
        ensures
            *final(self) == (Ring { identified: true, ..*old(self) }),
    {
        self.identified = true;
    }

    /// Name: hidden until identified, then "+level base" for a positive level.
    pub fn name(&self) -> (s: String)
        ensures
            s@ == self.spec_name(),
    {
        if !self.identified {
            return if self.cursed {
                String::from_str("未鉴定的诅咒戒指")
            } else {
                String::from_str("未鉴定的戒指")
            };
        }
        let base = self.base_name();
        if self.level > 0 {
            let mut s = String::from_str("+");
            push_decimal(&mut s, self.level as u64);
            s.append(" ");
            s.append(base);
            s
        } else {
            String::from_str(base)
        }
    }

    /// Base name of the ring's kind.
    pub fn base_name(&self) -> (s: &'static str)
        ensures
            s@ == spec_ring_base_name(self.kind),
    {
        match self.kind {
            RingKind::Accuracy => "精准之戒",
            RingKind::Elements => "元素之戒",
            RingKind::Energy => "能量之戒",
            RingKind::Evasion => "闪避之戒",
            RingKind::Force => "力量之戒",
            RingKind::Furor => "狂怒之戒",
            RingKind::Haste => "急速之戒",
            RingKind::Might => "威力之戒",
            RingKind::Sharpshooting => "狙击之戒",
            RingKind::Wealth => "财富之戒",
        }
    }
}

/// The level clamped to 0..=10.
pub fn clamp_level(level: i32) -> (l: i32)
    ensures
        l == spec_clamp_level(level),
{
    if level < 0 {
        0
    } else if level > 10 {
        10
    } else {
        level
    }
}

/// Declaration index of a kind.
pub fn ring_kind_index(kind: RingKind) -> (i: u32)
    ensures
        i == spec_ring_kind_index(kind),
{
    match kind {
        RingKind::Accuracy => 0,
        RingKind::Elements => 1,
        RingKind::Energy => 2,
        RingKind::Evasion => 3,
        RingKind::Force => 4,
        RingKind::Furor => 5,
        RingKind::Haste => 6,
        RingKind::Might => 7,
        RingKind::Sharpshooting => 8,
        RingKind::Wealth => 9,
    }
}

impl Default for Ring {
    fn default() -> (r: Self)
        ensures
            r == spec_new_ring(RingKind::Accuracy, 0, false),
    {
        Ring { kind: RingKind::Accuracy, level: 0, cursed: false, identified: false, base_value: 1000 }
    }
}

impl From<RingKind> for Ring {
    fn from(kind: RingKind) -> (r: Self) {
        Ring::new(kind, kind.default_level())
    }
}

impl FromSpecImpl<RingKind> for Ring {
    open spec fn obeys_from_spec() -> bool {
        true
    }

    open spec fn from_spec(kind: RingKind) -> Ring {
        spec_new_ring(kind, kind.spec_default_level(), false)
    }
}

impl ItemTrait for Ring {
    /// The SeaHash of the bincode encoding of every field.
    fn stacking_id(&self) -> (h: u64)
        ensures
            h == sea_hash(self.spec_stacking_bytes()),
    {
        let mut bytes = encode_key_u32(ring_kind_index(self.kind));
        push_key_part(&mut bytes, encode_key_i32(self.level));
        push_key_part(&mut bytes, encode_key_bool(self.cursed));
        push_key_part(&mut bytes, encode_key_bool(self.identified));
        push_key_part(&mut bytes, encode_key_u32(self.base_value));
        sea_hash_bytes(bytes.as_slice())
    }

    /// Rings never stack.
    fn is_stackable(&self) -> (r: bool)
        ensures
            !r,
    {
        false
    }

    fn max_stack(&self) -> (n: u32)
        ensures
            n == 1,
    {
        1
    }

    fn display_name(&self) -> (s: String)
        ensures
            s@ == self.spec_name(),
    {
        self.name()
    }

    fn category(&self) -> (c: ItemCategory)
        ensures
            c == ItemCategory::Ring,
    {
        ItemCategory::Ring
    }

    fn sort_value(&self) -> (v: u32)
        ensures
            v == 100,
    {
        100
    }
}

} // verus!

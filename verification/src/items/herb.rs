//! Herbs, used in brewing and alchemy.

use vstd::prelude::*;
use vstd::string::*;

use crate::dice::{roll_index, roll_range, roll_ratio};
use crate::items::{
    encode_key_bool, encode_key_u32, encode_key_u8, key_bytes_bool, key_bytes_u32, key_bytes_u8,
    push_key_part, sea_hash, sea_hash_bytes, ItemCategory, ItemRarity, ItemTrait,
};
use crate::text::{decimal, push_decimal};

verus! {

/// A herb.
#[derive(Clone, Copy, Debug, PartialEq, Eq, Structural)]
pub struct Herb {
    pub kind: HerbKind,
    pub potency: u8,
    pub quantity: u32,
    pub identified: bool,
}

/// Kinds of herbs.
#[derive(Clone, Copy, Debug, PartialEq, Eq, Structural)]
pub enum HerbKind {
    Sungrass,
    Moonleaf,
    Nightshade,
    SpiritMoss,
    Dragonthorn,
    Glowcap,
}

pub open spec fn spec_herb_potency(kind: HerbKind) -> u8 {
    match kind {
        HerbKind::Sungrass => 2,
        HerbKind::Moonleaf => 3,
        HerbKind::Nightshade => 4,
        HerbKind::SpiritMoss => 1,
        HerbKind::Dragonthorn => 5,
        HerbKind::Glowcap => 2,
    }
}

pub open spec fn spec_herb_base_name(kind: HerbKind) -> Seq<char> {
    match kind {
        HerbKind::Sungrass => "日光草"@,
        HerbKind::Moonleaf => "月影叶"@,
        HerbKind::Nightshade => "夜影花"@,
        HerbKind::SpiritMoss => "灵魂苔"@,
        HerbKind::Dragonthorn => "龙棘草"@,
        HerbKind::Glowcap => "萤帽菌"@,
    }
}

pub open spec fn spec_herb_base_value(kind: HerbKind) -> nat {
    match kind {
        HerbKind::Sungrass => 35,
        HerbKind::Moonleaf => 45,
        HerbKind::Nightshade => 120,
        HerbKind::SpiritMoss => 80,
        HerbKind::Dragonthorn => 200,
        HerbKind::Glowcap => 60,
    }
}

pub open spec fn spec_herb_stack_limit(kind: HerbKind) -> u32 {
    match kind {
        HerbKind::Dragonthorn => 6,
        HerbKind::Nightshade => 8,
        HerbKind::SpiritMoss => 10,
        _ => 16,
    }
}

/// Position of the kind in its declaration (the index bincode writes).
pub open spec fn spec_herb_kind_index(kind: HerbKind) -> u32 {
    match kind {
        HerbKind::Sungrass => 0,
        HerbKind::Moonleaf => 1,
        HerbKind::Nightshade => 2,
        HerbKind::SpiritMoss => 3,
        HerbKind::Dragonthorn => 4,
        HerbKind::Glowcap => 5,
    }
}

pub open spec fn spec_new_herb(kind: HerbKind) -> Herb {
    Herb { kind: kind, potency: spec_herb_potency(kind), quantity: 1, identified: false }
}

/// The kind at a position of the declaration.
pub open spec fn spec_herb_kind_at(i: int) -> HerbKind {
    if i == 0 {
        HerbKind::Sungrass
    } else if i == 1 {
        HerbKind::Moonleaf
    } else if i == 2 {
        HerbKind::Nightshade
    } else if i == 3 {
        HerbKind::SpiritMoss
    } else if i == 4 {
        HerbKind::Dragonthorn
    } else {
        HerbKind::Glowcap
    }
}

/// The herb made of the values drawn: the position of its kind, whether it
/// comes identified, whether it comes in a bunch, and the size of the bunch.
pub open spec fn herb_from_rolls(i: int, identified: bool, bunch: bool, count: u32) -> Herb {
    Herb {
        identified: identified,
        quantity: if bunch {
            count
        } else {
            1
        },
        ..spec_new_herb(spec_herb_kind_at(i))
    }
}

impl Herb {
    pub open spec fn spec_name(self) -> Seq<char> {
        if self.quantity > 1 {
            spec_herb_base_name(self.kind) + " ×"@ + decimal(self.quantity as nat)
        } else {
            spec_herb_base_name(self.kind)
        }
    }

    /// Value: base value times 1.2 when identified or 0.8 when not, times the
    /// quantity, rounded down.
    pub open spec fn spec_value(self) -> nat {
        let b = spec_herb_base_value(self.kind);
        if self.identified {
            b * 6 * (self.quantity as nat) / 5
        } else {
            b * 4 * (self.quantity as nat) / 5
        }
    }

    pub open spec fn spec_rarity(self) -> ItemRarity {
        match self.kind {
            HerbKind::SpiritMoss => ItemRarity::Rare,
            HerbKind::Nightshade => ItemRarity::Epic,
            HerbKind::Dragonthorn => ItemRarity::Legendary,
            _ => ItemRarity::Common,
        }
    }

    pub open spec fn spec_stacking_bytes(self) -> Seq<u8> {
        key_bytes_u32(spec_herb_kind_index(self.kind)) + key_bytes_u8(self.potency) + key_bytes_bool(
            self.identified,
        )
    }

    pub fn new(kind: HerbKind) -> (h: Self)
        ensures
            h == spec_new_herb(kind),
    {
        let potency = match kind {
            HerbKind::Sungrass => 2,
            HerbKind::Moonleaf => 3,
            HerbKind::Nightshade => 4,
            HerbKind::SpiritMoss => 1,
            HerbKind::Dragonthorn => 5,
            HerbKind::Glowcap => 2,
        };
        Self { kind, potency, quantity: 1, identified: false }
    }

    /// The herb made of the values drawn: the position of its kind, whether
    /// it comes identified, whether it comes in a bunch, and the size of the
    /// bunch.
    pub fn from_rolls(i: usize, identified: bool, bunch: bool, count: u32) -> (h: Self)
        ensures
            h == herb_from_rolls(i as int, identified, bunch, count),
    {
        let kind = if i == 0 {
            HerbKind::Sungrass
        } else if i == 1 {
            HerbKind::Moonleaf
        } else if i == 2 {
            HerbKind::Nightshade
        } else if i == 3 {
            HerbKind::SpiritMoss
        } else if i == 4 {
            HerbKind::Dragonthorn
        } else {
            HerbKind::Glowcap
        };
        let mut herb = Self::new(kind);
        if identified {
            herb.identified = true;
        }
        if bunch {
            herb.quantity = count;
        }
        herb
    }

    /// A random herb: random kind, identified with probability 35%, and in a
    /// bunch of 2 to 4 with probability 20%.
    pub fn random_new() -> (h: Self)
        ensures
            h.potency == spec_herb_potency(h.kind),
            1 <= h.quantity <= 4,
            exists|i: int, identified: bool, bunch: bool, count: u32|
                0 <= i < 6 && (bunch ==> 2 <= count <= 4) && h == #[trigger] herb_from_rolls(i, identified, bunch, count),
    {
        let i = roll_index(6);
        let identified = roll_ratio(7, 20);
        let bunch = roll_ratio(1, 5);
        let count = if bunch {
            roll_range(2, 4)
        } else {
            1
        };
        Self::from_rolls(i, identified, bunch, count)
    }

    /// Name, with the count for a bundle.
    pub fn name(&self) -> (s: String)
        ensures
            s@ == self.spec_name(),
    {
        let base = herb_base_name(self.kind);
        let mut s = String::from_str(base);
        if self.quantity > 1 {
            s.append(" ×");
            push_decimal(&mut s, self.quantity as u64);
        }
        s
    }

    pub fn rarity_level(&self) -> (r: ItemRarity)
        ensures
            r == self.spec_rarity(),
    {
        match self.kind {
            HerbKind::Sungrass | HerbKind::Moonleaf | HerbKind::Glowcap => ItemRarity::Common,
            HerbKind::SpiritMoss => ItemRarity::Rare,
            HerbKind::Nightshade => ItemRarity::Epic,
            HerbKind::Dragonthorn => ItemRarity::Legendary,
        }
    }

    /// Value of the bundle. The quantity stays below 2^15, where the `f32`
    /// arithmetic still rounds to the exact value stated here.
    pub fn value(&self) -> (v: u32)
        requires
            self.quantity < 0x8000,
        ensures
            v == self.spec_value(),
    {
        let base: u64 = match self.kind {
            HerbKind::Sungrass => 35,
            HerbKind::Moonleaf => 45,
            HerbKind::Nightshade => 120,
            HerbKind::SpiritMoss => 80,
            HerbKind::Dragonthorn => 200,
            HerbKind::Glowcap => 60,
        };
        let q = self.quantity as u64;
        let factor: u64 = if self.identified { 6 } else { 4 };
        assert(base * factor * q <= 200 * 6 * 0x8000) by (nonlinear_arith)
            requires
                base <= 200,
                factor <= 6,
                q < 0x8000,
        ;
        (base * factor * q / 5) as u32
    }

    pub fn to_potion_effect(&self) -> (s: &'static str)
        ensures
            s@ == match self.kind {
                HerbKind::Sungrass => "治疗药剂基底"@,
                HerbKind::Moonleaf => "隐匿药剂催化"@,
                HerbKind::Nightshade => "毒素增强剂"@,
                HerbKind::SpiritMoss => "精神恢复剂"@,
                HerbKind::Dragonthorn => "武器涂抹剂"@,
                HerbKind::Glowcap => "夜视药剂"@,
            },
    {
        match self.kind {
            HerbKind::Sungrass => "治疗药剂基底",
            HerbKind::Moonleaf => "隐匿药剂催化",
            HerbKind::Nightshade => "毒素增强剂",
            HerbKind::SpiritMoss => "精神恢复剂",
            HerbKind::Dragonthorn => "武器涂抹剂",
            HerbKind::Glowcap => "夜视药剂",
        }
    }

    pub fn stackable(&self) -> (r: bool)
        ensures
            r,
    {
        true
    }

    pub fn stack_limit(&self) -> (n: u32)
        ensures
            n == spec_herb_stack_limit(self.kind),
    {
        match self.kind {
            HerbKind::Dragonthorn => 6,
            HerbKind::Nightshade => 8,
            HerbKind::SpiritMoss => 10,
            HerbKind::Sungrass | HerbKind::Moonleaf | HerbKind::Glowcap => 16,
        }
    }

    /// What decides whether two herbs stack.
    fn stacking_key(&self) -> (k: (HerbKind, u8, bool))
        ensures
            k == (self.kind, self.potency, self.identified),
    {
        (self.kind, self.potency, self.identified)
    }
}

/// Base name of a kind.
pub fn herb_base_name(kind: HerbKind) -> (s: &'static str)
    ensures
        s@ == spec_herb_base_name(kind),
{
    match kind {
        HerbKind::Sungrass => "日光草",
        HerbKind::Moonleaf => "月影叶",
        HerbKind::Nightshade => "夜影花",
        HerbKind::SpiritMoss => "灵魂苔",
        HerbKind::Dragonthorn => "龙棘草",
        HerbKind::Glowcap => "萤帽菌",
    }
}

/// Declaration index of a kind.
pub fn herb_kind_index(kind: HerbKind) -> (i: u32)
    ensures
        i == spec_herb_kind_index(kind),
{
    match kind {
        HerbKind::Sungrass => 0,
        HerbKind::Moonleaf => 1,
        HerbKind::Nightshade => 2,
        HerbKind::SpiritMoss => 3,
        HerbKind::Dragonthorn => 4,
        HerbKind::Glowcap => 5,
    }
}

impl Default for Herb {
    fn default() -> (h: Self)
        ensures
            h == spec_new_herb(HerbKind::Sungrass),
    {
        Self::new(HerbKind::Sungrass)
    }
}

impl ItemTrait for Herb {
    /// The SeaHash of the bincode encoding of (kind, potency, identified).
    fn stacking_id(&self) -> (h: u64)
        ensures
            h == sea_hash(self.spec_stacking_bytes()),
    {
        let key = self.stacking_key();
        let mut bytes = encode_key_u32(herb_kind_index(key.0));
        push_key_part(&mut bytes, encode_key_u8(key.1));
        push_key_part(&mut bytes, encode_key_bool(key.2));
        sea_hash_bytes(bytes.as_slice())
    }

    fn is_stackable(&self) -> (r: bool)
        ensures
            r,
    {
        self.stackable()
    }

    fn max_stack(&self) -> (n: u32)
        ensures
            n == spec_herb_stack_limit(self.kind),
    {
        self.stack_limit()
    }

    fn display_name(&self) -> (s: String)
        ensures
            s@ == self.spec_name(),
    {
        self.name()
    }

    fn category(&self) -> (c: ItemCategory)
        ensures
            c == ItemCategory::Herb,
    {
        ItemCategory::Herb
    }

    fn sort_value(&self) -> (v: u32)
        ensures
            v == match self.kind {
                HerbKind::Dragonthorn => 130u32,
                HerbKind::Nightshade => 120u32,
                HerbKind::SpiritMoss => 90u32,
                HerbKind::Glowcap => 80u32,
                HerbKind::Moonleaf => 70u32,
                HerbKind::Sungrass => 60u32,
            },
    {
        match self.kind {
            HerbKind::Dragonthorn => 130,
            HerbKind::Nightshade => 120,
            HerbKind::SpiritMoss => 90,
            HerbKind::Glowcap => 80,
            HerbKind::Moonleaf => 70,
            HerbKind::Sungrass => 60,
        }
    }
}

} // verus!

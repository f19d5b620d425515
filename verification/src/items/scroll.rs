//! Scrolls: ten kinds, each with an exotic variant.

use vstd::prelude::*;
use vstd::string::*;

use crate::dice::{roll_index, roll_ratio};
use crate::items::{
    encode_key_bool, encode_key_u32, key_bytes_bool, key_bytes_u32, push_key_part, sea_hash,
    sea_hash_bytes, ItemCategory, ItemRarity, ItemTrait,
};
use vstd::std_specs::convert::FromSpecImpl;

verus! {

/// A scroll.
#[derive(Clone, Copy, Debug, PartialEq, Eq, Structural)]
pub struct Scroll {
    pub kind: ScrollKind,
    /// Whether it was identified.
    pub identified: bool,
    /// Whether it is the exotic variant.
    pub exotic: bool,
}

/// The ten kinds of scrolls.
#[derive(Clone, Copy, Debug, PartialEq, Eq, Structural)]
pub enum ScrollKind {
    Upgrade,
    RemoveCurse,
    Identify,
    MagicMapping,
    MirrorImage,
    Teleportation,
    Lullaby,
    Rage,
    Recharging,
    Transmutation,
}

pub open spec fn spec_scroll_kind_name(kind: ScrollKind, exotic: bool) -> Seq<char> {
    match kind {
        ScrollKind::Upgrade => if exotic {
            "附魔卷轴"@
        } else {
            "强化卷轴"@
        },
        ScrollKind::RemoveCurse => if exotic {
            "圣洁卷轴"@
        } else {
            "祛咒卷轴"@
        },
        ScrollKind::Identify => if exotic {
            "预见卷轴"@
        } else {
            "鉴定卷轴"@
        },
        ScrollKind::MagicMapping => if exotic {
            "探知卷轴"@
        } else {
            "地图卷轴"@
        },
        ScrollKind::MirrorImage => if exotic {
            "复生卷轴"@
        } else {
            "镜像卷轴"@
        },
        ScrollKind::Teleportation => if exotic {
            "回归卷轴"@
        } else {
            "传送卷轴"@
        },
        ScrollKind::Lullaby => if exotic {
            "魅惑卷轴"@
        } else {
            "催眠卷轴"@
        },
        ScrollKind::Rage => if exotic {
            "决斗卷轴"@
        } else {
            "狂暴卷轴"@
        },
        ScrollKind::Recharging => if exotic {
            "魔能卷轴"@
        } else {
            "充能卷轴"@
        },
        ScrollKind::Transmutation => if exotic {
            "蜕变卷轴"@
        } else {
            "变形卷轴"@
        },
    }
}

pub open spec fn spec_scroll_base_value(kind: ScrollKind) -> nat {
    match kind {
        ScrollKind::Upgrade => 400,
        ScrollKind::RemoveCurse => 350,
        ScrollKind::Identify => 300,
        ScrollKind::MagicMapping => 200,
        ScrollKind::MirrorImage => 200,
        ScrollKind::Teleportation => 180,
        ScrollKind::Lullaby => 150,
        ScrollKind::Rage => 120,
        ScrollKind::Recharging => 250,
        ScrollKind::Transmutation => 300,
    }
}

pub open spec fn spec_scroll_base_rarity(kind: ScrollKind) -> ItemRarity {
    match kind {
        ScrollKind::Upgrade => ItemRarity::Legendary,
        ScrollKind::RemoveCurse => ItemRarity::Epic,
        ScrollKind::Identify => ItemRarity::Rare,
        ScrollKind::MagicMapping => ItemRarity::Rare,
        ScrollKind::MirrorImage => ItemRarity::Rare,
        ScrollKind::Teleportation => ItemRarity::Rare,
        ScrollKind::Lullaby => ItemRarity::Common,
        ScrollKind::Rage => ItemRarity::Common,
        ScrollKind::Recharging => ItemRarity::Rare,
        ScrollKind::Transmutation => ItemRarity::Epic,
    }
}

/// Declaration index of a kind (the index bincode writes).
pub open spec fn spec_scroll_kind_index(kind: ScrollKind) -> u32 {
    match kind {
        ScrollKind::Upgrade => 0,
        ScrollKind::RemoveCurse => 1,
        ScrollKind::Identify => 2,
        ScrollKind::MagicMapping => 3,
        ScrollKind::MirrorImage => 4,
        ScrollKind::Teleportation => 5,
        ScrollKind::Lullaby => 6,
        ScrollKind::Rage => 7,
        ScrollKind::Recharging => 8,
        ScrollKind::Transmutation => 9,
    }
}

/// One rarity tier up (legendary stays legendary).
pub open spec fn spec_rarity_up(r: ItemRarity) -> ItemRarity {
    match r {
        ItemRarity::Common => ItemRarity::Rare,
        ItemRarity::Rare => ItemRarity::Epic,
        _ => ItemRarity::Legendary,
    }
}

/// The kind at a position of the declaration.
pub open spec fn spec_scroll_kind_at(i: int) -> ScrollKind {
    if i == 0 {
        ScrollKind::Upgrade
    } else if i == 1 {
        ScrollKind::RemoveCurse
    } else if i == 2 {
        ScrollKind::Identify
    } else if i == 3 {
        ScrollKind::MagicMapping
    } else if i == 4 {
        ScrollKind::MirrorImage
    } else if i == 5 {
        ScrollKind::Teleportation
    } else if i == 6 {
        ScrollKind::Lullaby
    } else if i == 7 {
        ScrollKind::Rage
    } else if i == 8 {
        ScrollKind::Recharging
    } else {
        ScrollKind::Transmutation
    }
}

/// The scroll made of the values drawn: the position of its kind and
/// whether it is exotic.
pub open spec fn scroll_from_rolls(i: int, exotic: bool) -> Scroll {
    Scroll { kind: spec_scroll_kind_at(i), identified: false, exotic: exotic }
}

impl Scroll {
    pub open spec fn spec_name(self) -> Seq<char> {
        if !self.identified {
            if self.exotic {
                "未鉴定的异变卷轴"@
            } else {
                "未鉴定的卷轴"@
            }
        } else {
            spec_scroll_kind_name(self.kind, self.exotic)
        }
    }

    /// Value: base value, 60% of it (rounded down) when unidentified, then
    /// half as much again (rounded down) when exotic.
    pub open spec fn spec_value(self) -> nat {
        let b = spec_scroll_base_value(self.kind);
        let v = if !self.identified {
            b * 3 / 5
        } else {
            b
        };
        if self.exotic {
            v * 3 / 2
        } else {
            v
        }
    }

    pub open spec fn spec_rarity(self) -> ItemRarity {
        if self.exotic {
            spec_rarity_up(spec_scroll_base_rarity(self.kind))
        } else {
            spec_scroll_base_rarity(self.kind)
        }
    }

    pub open spec fn spec_stacking_bytes(self) -> Seq<u8> {
        key_bytes_u32(spec_scroll_kind_index(self.kind)) + key_bytes_bool(self.identified)
            + key_bytes_bool(self.exotic)
    }

    /// A new unidentified scroll.
    pub fn new(kind: ScrollKind) -> (s: Self)
        ensures
            s == (Scroll { kind: kind, identified: false, exotic: false }),
    {
        Self { kind, identified: false, exotic: false }
    }

    /// A new unidentified exotic scroll.
    pub fn new_exotic(kind: ScrollKind) -> (s: Self)
        ensures
            s == (Scroll { kind: kind, identified: false, exotic: true }),
    {
        Self { kind, identified: false, exotic: true }
    }

    /// The scroll made of the values drawn: the position of its kind and
    /// whether it is exotic.
    pub fn from_rolls(i: usize, exotic: bool) -> (s: Self)
        ensures
            s == scroll_from_rolls(i as int, exotic),
    {
        let kind = if i == 0 {
            ScrollKind::Upgrade
        } else if i == 1 {
            ScrollKind::RemoveCurse
        } else if i == 2 {
            ScrollKind::Identify
        } else if i == 3 {
            ScrollKind::MagicMapping
        } else if i == 4 {
            ScrollKind::MirrorImage
        } else if i == 5 {
            ScrollKind::Teleportation
        } else if i == 6 {
            ScrollKind::Lullaby
        } else if i == 7 {
            ScrollKind::Rage
        } else if i == 8 {
            ScrollKind::Recharging
        } else {
            ScrollKind::Transmutation
        };
        if exotic {
            Scroll::new_exotic(kind)
        } else {
            Scroll::new(kind)
        }
    }

    /// A random unidentified scroll: random kind, exotic with probability 10%.
    pub fn random_new() -> (s: Self)
        ensures
            !s.identified,
            exists|i: int, exotic: bool| 0 <= i < 10 && s == #[trigger] scroll_from_rolls(i, exotic),
    {
        let i = roll_index(10);
        let exotic = roll_ratio(1, 10);
        Self::from_rolls(i, exotic)
    }

    /// Value of the scroll.
    pub fn value(&self) -> (v: u32)
        ensures
            v == self.spec_value(),
    {
        let base_value: u32 = match self.kind {
            ScrollKind::Upgrade => 400,
            ScrollKind::RemoveCurse => 350,
            ScrollKind::Identify => 300,
            ScrollKind::MagicMapping => 200,
            ScrollKind::MirrorImage => 200,
            ScrollKind::Teleportation => 180,
            ScrollKind::Lullaby => 150,
            ScrollKind::Rage => 120,
            ScrollKind::Recharging => 250,
            ScrollKind::Transmutation => 300,
        };
        let mut value = if !self.identified {
            base_value * 3 / 5
        } else {
            base_value
        };
        if self.exotic {
            value = value * 3 / 2;
        }
        value
    }

    /// Name: hidden until identified.
    pub fn name(&self) -> (s: String)
        ensures
            s@ == self.spec_name(),
    {
        if !self.identified {
            return if self.exotic {
                String::from_str("未鉴定的异变卷轴")
            } else {
                String::from_str("未鉴定的卷轴")
            };
        }
        match self.kind {
            ScrollKind::Upgrade => if self.exotic {
                String::from_str("附魔卷轴")
            } else {
                String::from_str("强化卷轴")
            },
            ScrollKind::RemoveCurse => if self.exotic {
                String::from_str("圣洁卷轴")
            } else {
                String::from_str("祛咒卷轴")
            },
            ScrollKind::Identify => if self.exotic {
                String::from_str("预见卷轴")
            } else {
                String::from_str("鉴定卷轴")
            },
            ScrollKind::MagicMapping => if self.exotic {
                String::from_str("探知卷轴")
            } else {
                String::from_str("地图卷轴")
            },
            ScrollKind::MirrorImage => if self.exotic {
                String::from_str("复生卷轴")
            } else {
                String::from_str("镜像卷轴")
            },
            ScrollKind::Teleportation => if self.exotic {
                String::from_str("回归卷轴")
            } else {
                String::from_str("传送卷轴")
            },
            ScrollKind::Lullaby => if self.exotic {
                String::from_str("魅惑卷轴")
            } else {
                String::from_str("催眠卷轴")
            },
            ScrollKind::Rage => if self.exotic {
                String::from_str("决斗卷轴")
            } else {
                String::from_str("狂暴卷轴")
            },
            ScrollKind::Recharging => if self.exotic {
                String::from_str("魔能卷轴")
            } else {
                String::from_str("充能卷轴")
            },
            ScrollKind::Transmutation => if self.exotic {
                String::from_str("蜕变卷轴")
            } else {
                String::from_str("变形卷轴")
            },
        }
    }

    /// Identify the scroll.
    pub fn identify(&mut self)
        ensures
            *final(self) == (Scroll { identified: true, ..*old(self) }),
    {
        self.identified = true;
    }

    /// Rarity: the kind's, one tier up for an exotic scroll.
    pub fn rarity_level(&self) -> (r: ItemRarity)
        ensures
            r == self.spec_rarity(),
    {
        let base = match self.kind {
            ScrollKind::Upgrade => ItemRarity::Legendary,
            ScrollKind::RemoveCurse => ItemRarity::Epic,
            ScrollKind::Identify => ItemRarity::Rare,
            ScrollKind::MagicMapping => ItemRarity::Rare,
            ScrollKind::MirrorImage => ItemRarity::Rare,
            ScrollKind::Teleportation => ItemRarity::Rare,
            ScrollKind::Lullaby => ItemRarity::Common,
            ScrollKind::Rage => ItemRarity::Common,
            ScrollKind::Recharging => ItemRarity::Rare,
            ScrollKind::Transmutation => ItemRarity::Epic,
        };
        if self.exotic {
            match base {
                ItemRarity::Common => ItemRarity::Rare,
                ItemRarity::Rare => ItemRarity::Epic,
                ItemRarity::Epic => ItemRarity::Legendary,
                ItemRarity::Legendary => ItemRarity::Legendary,
            }
        } else {
            base
        }
    }
}

/// Declaration index of a kind.
pub fn scroll_kind_index(kind: ScrollKind) -> (i: u32)
    ensures
        i == spec_scroll_kind_index(kind),
{
    match kind {
        ScrollKind::Upgrade => 0,
        ScrollKind::RemoveCurse => 1,
        ScrollKind::Identify => 2,
        ScrollKind::MagicMapping => 3,
        ScrollKind::MirrorImage => 4,
        ScrollKind::Teleportation => 5,
        ScrollKind::Lullaby => 6,
        ScrollKind::Rage => 7,
        ScrollKind::Recharging => 8,
        ScrollKind::Transmutation => 9,
    }
}

impl Default for Scroll {
    fn default() -> (s: Self)
        ensures
            s == (Scroll { kind: ScrollKind::Identify, identified: false, exotic: false }),
    {
        Scroll { kind: ScrollKind::Identify, identified: false, exotic: false }
    }
}

impl From<ScrollKind> for Scroll {
    fn from(kind: ScrollKind) -> (s: Self) {
        Scroll::new(kind)
    }
}

impl FromSpecImpl<ScrollKind> for Scroll {
    open spec fn obeys_from_spec() -> bool {
        true
    }

    open spec fn from_spec(kind: ScrollKind) -> Scroll {
        Scroll { kind: kind, identified: false, exotic: false }
    }
}

impl ItemTrait for Scroll {
    /// The SeaHash of the bincode encoding of (kind, identified, exotic).
    fn stacking_id(&self) -> (h: u64)
        ensures
            h == sea_hash(self.spec_stacking_bytes()),
    {
        let mut bytes = encode_key_u32(scroll_kind_index(self.kind));
        push_key_part(&mut bytes, encode_key_bool(self.identified));
        push_key_part(&mut bytes, encode_key_bool(self.exotic));
        sea_hash_bytes(bytes.as_slice())
    }

    fn is_stackable(&self) -> (r: bool)
        ensures
            r,
    {
        true
    }

    fn max_stack(&self) -> (n: u32)
        ensures
            n == u32::MAX,
    {
        u32::MAX
    }

    fn display_name(&self) -> (s: String)
        ensures
            s@ == self.spec_name(),
    {
        self.name()
    }

    fn category(&self) -> (c: ItemCategory)
        ensures
            c == ItemCategory::Scroll,
    {
        ItemCategory::Scroll
    }

    fn sort_value(&self) -> (v: u32)
        ensures
            v == match self.kind {
                ScrollKind::Upgrade => 100u32,
                ScrollKind::RemoveCurse => 95u32,
                ScrollKind::Identify => 90u32,
                ScrollKind::MagicMapping => 75u32,
                ScrollKind::MirrorImage => 70u32,
                ScrollKind::Teleportation => 65u32,
                ScrollKind::Lullaby => 60u32,
                ScrollKind::Rage => 55u32,
                ScrollKind::Recharging => 80u32,
                ScrollKind::Transmutation => 85u32,
            },
    {
        match self.kind {
            ScrollKind::Upgrade => 100,
            ScrollKind::RemoveCurse => 95,
            ScrollKind::Identify => 90,
            ScrollKind::MagicMapping => 75,
            ScrollKind::MirrorImage => 70,
            ScrollKind::Teleportation => 65,
            ScrollKind::Lullaby => 60,
            ScrollKind::Rage => 55,
            ScrollKind::Recharging => 80,
            ScrollKind::Transmutation => 85,
        }
    }
}

} // verus!

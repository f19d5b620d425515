//! Magic stones: single-use counterparts of the ten scrolls.

use vstd::prelude::*;
use vstd::string::*;

use crate::dice::roll_index;
use crate::items::{
    encode_key_bool, encode_key_u32, key_bytes_bool, key_bytes_u32, push_key_part, sea_hash,
    sea_hash_bytes, ItemCategory, ItemTrait,
};
use vstd::std_specs::convert::FromSpecImpl;

pub mod stone;

verus! {

/// A magic stone.
#[derive(Clone, Copy, Debug, PartialEq, Eq, Structural)]
pub struct Stone {
    pub kind: StoneKind,
    /// Whether it was used (every stone works once).
    pub used: bool,
}

/// The ten kinds of stones.
#[derive(Clone, Copy, Debug, PartialEq, Eq, Structural)]
pub enum StoneKind {
    Upgrade,
    RemoveCurse,
    Identify,
    MagicMapping,
    MirrorImage,
    Teleportation,
    Lullaby,
    Rage,
    Recharging,
    Transmutation,
}

pub open spec fn spec_stone_name(kind: StoneKind) -> Seq<char> {
    match kind {
        StoneKind::Upgrade => "强化之石"@,
        StoneKind::RemoveCurse => "祛咒之石"@,
        StoneKind::Identify => "鉴定之石"@,
        StoneKind::MagicMapping => "地图之石"@,
        StoneKind::MirrorImage => "镜像之石"@,
        StoneKind::Teleportation => "传送之石"@,
        StoneKind::Lullaby => "催眠之石"@,
        StoneKind::Rage => "狂暴之石"@,
        StoneKind::Recharging => "充能之石"@,
        StoneKind::Transmutation => "变形之石"@,
    }
}

pub open spec fn spec_stone_effect(kind: StoneKind) -> Seq<char> {
    match kind {
        StoneKind::Upgrade => "临时强化一件装备（持续30回合）"@,
        StoneKind::RemoveCurse => "解除装备诅咒（范围效果）"@,
        StoneKind::Identify => "鉴定背包内所有物品"@,
        StoneKind::MagicMapping => "显示当前楼层完整地图"@,
        StoneKind::MirrorImage => "创造2个分身协助战斗"@,
        StoneKind::Teleportation => "随机传送到本层某处"@,
        StoneKind::Lullaby => "使周围敌人陷入沉睡"@,
        StoneKind::Rage => "激怒所有敌人互相攻击"@,
        StoneKind::Recharging => "立即恢复所有魔杖能量"@,
        StoneKind::Transmutation => "随机改变一个物品的类型"@,
    }
}

pub open spec fn spec_stone_base_value(kind: StoneKind) -> nat {
    match kind {
        StoneKind::Upgrade => 240,
        StoneKind::RemoveCurse => 210,
        StoneKind::Identify => 180,
        StoneKind::MagicMapping => 120,
        StoneKind::MirrorImage => 120,
        StoneKind::Teleportation => 110,
        StoneKind::Lullaby => 90,
        StoneKind::Rage => 70,
        StoneKind::Recharging => 150,
        StoneKind::Transmutation => 180,
    }
}

/// Declaration index of a kind (the index bincode writes).
pub open spec fn spec_stone_kind_index(kind: StoneKind) -> u32 {
    match kind {
        StoneKind::Upgrade => 0,
        StoneKind::RemoveCurse => 1,
        StoneKind::Identify => 2,
        StoneKind::MagicMapping => 3,
        StoneKind::MirrorImage => 4,
        StoneKind::Teleportation => 5,
        StoneKind::Lullaby => 6,
        StoneKind::Rage => 7,
        StoneKind::Recharging => 8,
        StoneKind::Transmutation => 9,
    }
}

/// The kind at a position of the declaration.
pub open spec fn spec_stone_kind_at(i: int) -> StoneKind {
    if i == 0 {
        StoneKind::Upgrade
    } else if i == 1 {
        StoneKind::RemoveCurse
    } else if i == 2 {
        StoneKind::Identify
    } else if i == 3 {
        StoneKind::MagicMapping
    } else if i == 4 {
        StoneKind::MirrorImage
    } else if i == 5 {
        StoneKind::Teleportation
    } else if i == 6 {
        StoneKind::Lullaby
    } else if i == 7 {
        StoneKind::Rage
    } else if i == 8 {
        StoneKind::Recharging
    } else {
        StoneKind::Transmutation
    }
}

/// The stone made of the position of its kind drawn.
pub open spec fn stone_from_roll(i: int) -> Stone {
    Stone { kind: spec_stone_kind_at(i), used: false }
}

impl Stone {
    /// Value: the base value, a tenth of it (rounded down) once used.
    pub open spec fn spec_value(self) -> nat {
        if self.used {
            spec_stone_base_value(self.kind) / 10
        } else {
            spec_stone_base_value(self.kind)
        }
    }

    pub open spec fn spec_stacking_bytes(self) -> Seq<u8> {
        key_bytes_u32(spec_stone_kind_index(self.kind)) + key_bytes_bool(self.used)
    }

    /// A new, unused stone.
    pub fn new(kind: StoneKind) -> (s: Self)
        ensures
            s == (Stone { kind: kind, used: false }),
    {
        Self { kind, used: false }
    }

    /// Value of the stone.
    pub fn value(&self) -> (v: u32)
        ensures
            v == self.spec_value(),
    {
        let base_value: u32 = match self.kind {
            StoneKind::Upgrade => 240,
            StoneKind::RemoveCurse => 210,
            StoneKind::Identify => 180,
            StoneKind::MagicMapping => 120,
            StoneKind::MirrorImage => 120,
            StoneKind::Teleportation => 110,
            StoneKind::Lullaby => 90,
            StoneKind::Rage => 70,
            StoneKind::Recharging => 150,
            StoneKind::Transmutation => 180,
        };
        if self.used {
            base_value / 10
        } else {
            base_value
        }
    }

    /// The stone made of the position of its kind drawn.
    pub fn from_roll(i: usize) -> (s: Self)
        ensures
            s == stone_from_roll(i as int),
    {
        let kind = if i == 0 {
            StoneKind::Upgrade
        } else if i == 1 {
            StoneKind::RemoveCurse
        } else if i == 2 {
            StoneKind::Identify
        } else if i == 3 {
            StoneKind::MagicMapping
        } else if i == 4 {
            StoneKind::MirrorImage
        } else if i == 5 {
            StoneKind::Teleportation
        } else if i == 6 {
            StoneKind::Lullaby
        } else if i == 7 {
            StoneKind::Rage
        } else if i == 8 {
            StoneKind::Recharging
        } else {
            StoneKind::Transmutation
        };
        Stone::new(kind)
    }

    /// A random unused stone of any kind.
    pub fn random_new() -> (s: Self)
        ensures
            !s.used,
            exists|i: int| 0 <= i < 10 && s == #[trigger] stone_from_roll(i),
    {
        let i = roll_index(10);
        Self::from_roll(i)
    }

    /// Name of the stone.
    pub fn name(&self) -> (s: String)
        ensures
            s@ == spec_stone_name(self.kind),
    {
        match self.kind {
            StoneKind::Upgrade => String::from_str("强化之石"),
            StoneKind::RemoveCurse => String::from_str("祛咒之石"),
            StoneKind::Identify => String::from_str("鉴定之石"),
            StoneKind::MagicMapping => String::from_str("地图之石"),
            StoneKind::MirrorImage => String::from_str("镜像之石"),
            StoneKind::Teleportation => String::from_str("传送之石"),
            StoneKind::Lullaby => String::from_str("催眠之石"),
            StoneKind::Rage => String::from_str("狂暴之石"),
            StoneKind::Recharging => String::from_str("充能之石"),
            StoneKind::Transmutation => String::from_str("变形之石"),
        }
    }

    /// Use the stone: the first use describes the effect and spends the
    /// stone; later uses do nothing.
    pub fn use_effect(&mut self) -> (r: Option<String>)
        ensures
            final(self).kind == old(self).kind,
            final(self).used,
            old(self).used ==> r is None,
            !old(self).used ==> r is Some && r.unwrap()@ == spec_stone_effect(old(self).kind),
    {
        if self.used {
            return None;
        }
        self.used = true;
        Some(
            match self.kind {
            StoneKind::Upgrade => String::from_str("临时强化一件装备（持续30回合）"),
            StoneKind::RemoveCurse => String::from_str("解除装备诅咒（范围效果）"),
            StoneKind::Identify => String::from_str("鉴定背包内所有物品"),
            StoneKind::MagicMapping => String::from_str("显示当前楼层完整地图"),
            StoneKind::MirrorImage => String::from_str("创造2个分身协助战斗"),
            StoneKind::Teleportation => String::from_str("随机传送到本层某处"),
            StoneKind::Lullaby => String::from_str("使周围敌人陷入沉睡"),
            StoneKind::Rage => String::from_str("激怒所有敌人互相攻击"),
            StoneKind::Recharging => String::from_str("立即恢复所有魔杖能量"),
            StoneKind::Transmutation => String::from_str("随机改变一个物品的类型"),
            },
        )
    }

    /// Whether the stone was used.
    pub fn is_depleted(&self) -> (r: bool)
        ensures
            r == self.used,
    {
        self.used
    }
}

/// Declaration index of a kind.
pub fn stone_kind_index(kind: StoneKind) -> (i: u32)
    ensures
        i == spec_stone_kind_index(kind),
{
    match kind {
        StoneKind::Upgrade => 0,
        StoneKind::RemoveCurse => 1,
        StoneKind::Identify => 2,
        StoneKind::MagicMapping => 3,
        StoneKind::MirrorImage => 4,
        StoneKind::Teleportation => 5,
        StoneKind::Lullaby => 6,
        StoneKind::Rage => 7,
        StoneKind::Recharging => 8,
        StoneKind::Transmutation => 9,
    }
}

impl Default for Stone {
    fn default() -> (s: Self)
        ensures
            s == (Stone { kind: StoneKind::Identify, used: false }),
    {
        Stone { kind: StoneKind::Identify, used: false }
    }
}

impl From<StoneKind> for Stone {
    fn from(kind: StoneKind) -> (s: Self) {
        Stone::new(kind)
    }
}

impl FromSpecImpl<StoneKind> for Stone {
    open spec fn obeys_from_spec() -> bool {
        true
    }

    open spec fn from_spec(kind: StoneKind) -> Stone {
        Stone { kind: kind, used: false }
    }
}

impl ItemTrait for Stone {
    /// The SeaHash of the bincode encoding of (kind, used).
    fn stacking_id(&self) -> (h: u64)
        ensures
            h == sea_hash(self.spec_stacking_bytes()),
    {
        let mut bytes = encode_key_u32(stone_kind_index(self.kind));
        push_key_part(&mut bytes, encode_key_bool(self.used));
        sea_hash_bytes(bytes.as_slice())
    }

    fn is_stackable(&self) -> (r: bool)
        ensures
            r,
    {
        true
    }

    /// Unused stones stack up to 20, used ones up to 50.
    fn max_stack(&self) -> (n: u32)
        ensures
            n == if self.used {
                50u32
            } else {
                20u32
            },
    {
        if !self.used {
            20
        } else {
            50
        }
    }

    fn display_name(&self) -> (s: String)
        ensures
            s@ == spec_stone_name(self.kind),
    {
        self.name()
    }

    fn category(&self) -> (c: ItemCategory)
        ensures
            c == ItemCategory::Stone,
    {
        ItemCategory::Stone
    }

    fn sort_value(&self) -> (v: u32)
        ensures
            v == 30,
    {
        30
    }
}

} // verus!

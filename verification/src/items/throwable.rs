//! Throwing weapons: darts, shuriken, javelins, chakrams, bombs, boomerangs.

use vstd::prelude::*;
use vstd::string::*;

use crate::dice::{roll_index, roll_range};
use crate::items::{
    encode_key_u32, encode_key_u8, key_bytes_u32, key_bytes_u8, push_key_part, sea_hash,
    sea_hash_bytes, ItemCategory, ItemRarity, ItemTrait,
};
use crate::text::{decimal, push_decimal};

verus! {

/// A throwing weapon.
#[derive(Clone, Copy, Debug, PartialEq, Eq)]
pub struct Throwable {
    pub kind: ThrowableKind,
    /// Damage range (min, max).
    pub damage: (u32, u32),
    pub range: u8,
    pub quantity: u32,
    pub identified: bool,
    pub base_value: u32,
}

/// The six kinds of throwing weapons.
#[derive(Clone, Copy, Debug, PartialEq, Eq, Structural)]
pub enum ThrowableKind {
    Dart,
    Shuriken,
    Javelin,
    Chakram,
    Bomb,
    Boomerang,
}

pub open spec fn spec_new_throwable(kind: ThrowableKind) -> Throwable {
    let (damage, range, quantity, base_value) = match kind {
        ThrowableKind::Dart => ((2u32, 4u32), 4u8, 6u32, 20u32),
        ThrowableKind::Shuriken => ((3, 6), 4, 5, 35),
        ThrowableKind::Javelin => ((5, 10), 5, 3, 75),
        ThrowableKind::Chakram => ((4, 9), 5, 1, 120),
        ThrowableKind::Bomb => ((8, 14), 3, 2, 160),
        ThrowableKind::Boomerang => ((3, 8), 6, 1, 180),
    };
    Throwable {
        kind: kind,
        damage: damage,
        range: range,
        quantity: quantity,
        identified: true,
        base_value: base_value,
    }
}

pub open spec fn spec_throwable_stackable(kind: ThrowableKind) -> bool {
    kind == ThrowableKind::Dart || kind == ThrowableKind::Shuriken || kind == ThrowableKind::Javelin
        || kind == ThrowableKind::Bomb
}

pub open spec fn spec_throwable_stack_limit(kind: ThrowableKind) -> u32 {
    match kind {
        ThrowableKind::Dart => 24,
        ThrowableKind::Shuriken => 18,
        ThrowableKind::Javelin => 12,
        ThrowableKind::Bomb => 6,
        _ => 1,
    }
}

pub open spec fn spec_throwable_base_name(kind: ThrowableKind) -> Seq<char> {
    match kind {
        ThrowableKind::Dart => "飞镖"@,
        ThrowableKind::Shuriken => "手里剑"@,
        ThrowableKind::Javelin => "标枪"@,
        ThrowableKind::Chakram => "回旋刃"@,
        ThrowableKind::Bomb => "震撼炸弹"@,
        ThrowableKind::Boomerang => "回力镖"@,
    }
}

/// Declaration index of a kind (the index bincode writes).
pub open spec fn spec_throwable_kind_index(kind: ThrowableKind) -> u32 {
    match kind {
        ThrowableKind::Dart => 0,
        ThrowableKind::Shuriken => 1,
        ThrowableKind::Javelin => 2,
        ThrowableKind::Chakram => 3,
        ThrowableKind::Bomb => 4,
        ThrowableKind::Boomerang => 5,
    }
}

/// The kind at a position of the declaration.
pub open spec fn spec_throwable_kind_at(i: int) -> ThrowableKind {
    if i == 0 {
        ThrowableKind::Dart
    } else if i == 1 {
        ThrowableKind::Shuriken
    } else if i == 2 {
        ThrowableKind::Javelin
    } else if i == 3 {
        ThrowableKind::Chakram
    } else if i == 4 {
        ThrowableKind::Bomb
    } else {
        ThrowableKind::Boomerang
    }
}

/// A kind that comes in stacks of more than one.
pub open spec fn spec_throwable_comes_stacked(kind: ThrowableKind) -> bool {
    spec_throwable_stackable(kind) && spec_throwable_stack_limit(kind) > 1
}

/// The throwing weapon made of the values drawn: the position of its kind
/// and, for a kind that comes in stacks, the size of the stack.
pub open spec fn throwable_from_rolls(i: int, count: u32) -> Throwable {
    let kind = spec_throwable_kind_at(i);
    if spec_throwable_comes_stacked(kind) {
        Throwable { quantity: count, ..spec_new_throwable(kind) }
    } else {
        spec_new_throwable(kind)
    }
}

impl Throwable {
    pub open spec fn spec_name(self) -> Seq<char> {
        if spec_throwable_stackable(self.kind) && self.quantity > 1 {
            spec_throwable_base_name(self.kind) + " ×"@ + decimal(self.quantity as nat)
        } else {
            spec_throwable_base_name(self.kind)
        }
    }

    /// Value: base value times quantity for stackable kinds, base value otherwise.
    pub open spec fn spec_value(self) -> int {
        if spec_throwable_stackable(self.kind) {
            self.base_value * self.quantity
        } else {
            self.base_value as int
        }
    }

    pub open spec fn spec_stacking_bytes(self) -> Seq<u8> {
        key_bytes_u32(spec_throwable_kind_index(self.kind)) + key_bytes_u32(0) + key_bytes_u8(self.range)
    }

    pub fn new(kind: ThrowableKind) -> (t: Self)
        ensures
            t == spec_new_throwable(kind),
    {
        let (damage, range, quantity, base_value) = match kind {
            ThrowableKind::Dart => ((2, 4), 4, 6, 20),
            ThrowableKind::Shuriken => ((3, 6), 4, 5, 35),
            ThrowableKind::Javelin => ((5, 10), 5, 3, 75),
            ThrowableKind::Chakram => ((4, 9), 5, 1, 120),
            ThrowableKind::Bomb => ((8, 14), 3, 2, 160),
            ThrowableKind::Boomerang => ((3, 8), 6, 1, 180),
        };
        Self { kind, damage, range, quantity, identified: true, base_value }
    }

    /// The throwing weapon made of the values drawn: the position of its
    /// kind and, for a kind that comes in stacks, the size of the stack.
    pub fn from_rolls(i: usize, count: u32) -> (t: Self)
        ensures
            t == throwable_from_rolls(i as int, count),
    {
        let kind = if i == 0 {
            ThrowableKind::Dart
        } else if i == 1 {
            ThrowableKind::Shuriken
        } else if i == 2 {
            ThrowableKind::Javelin
        } else if i == 3 {
            ThrowableKind::Chakram
        } else if i == 4 {
            ThrowableKind::Bomb
        } else {
            ThrowableKind::Boomerang
        };
        let mut item = Self::new(kind);
        if item.stackable() && item.stack_limit() > 1 {
            item.quantity = count;
        }
        item
    }

    /// A random throwing weapon: random kind, in a stack of 1 up to its
    /// limit (at most 6) when it stacks.
    pub fn random_new() -> (t: Self)
        ensures
            t == (Throwable { quantity: t.quantity, ..spec_new_throwable(t.kind) }),
            spec_throwable_stackable(t.kind) ==> 1 <= t.quantity <= 6,
            !spec_throwable_stackable(t.kind) ==> t.quantity == spec_new_throwable(t.kind).quantity,
            exists|i: int, count: u32|
                0 <= i < 6 && 1 <= count <= 6 && count <= spec_throwable_stack_limit(spec_throwable_kind_at(i))
                    && t == #[trigger] throwable_from_rolls(i, count),
    {
        let i = roll_index(6);
        let probe = Self::from_rolls(i, 1);
        let count = if probe.stackable() && probe.stack_limit() > 1 {
            let max = probe.stack_limit();
            let top = if max < 6 {
                max
            } else {
                6
            };
            roll_range(1, top)
        } else {
            1
        };
        Self::from_rolls(i, count)
    }

    /// Name, with the count for a stack of a stackable kind.
    pub fn name(&self) -> (s: String)
        ensures
            s@ == self.spec_name(),
    {
        let mut s = String::from_str(throwable_base_name(self.kind));
        if self.stackable() && self.quantity > 1 {
            s.append(" ×");
            push_decimal(&mut s, self.quantity as u64);
        }
        s
    }

    pub fn rarity_level(&self) -> (r: ItemRarity)
        ensures
            r == match self.kind {
                ThrowableKind::Dart | ThrowableKind::Shuriken => ItemRarity::Common,
                ThrowableKind::Javelin | ThrowableKind::Boomerang => ItemRarity::Rare,
                ThrowableKind::Chakram => ItemRarity::Epic,
                ThrowableKind::Bomb => ItemRarity::Legendary,
            },
    {
        match self.kind {
            ThrowableKind::Dart | ThrowableKind::Shuriken => ItemRarity::Common,
            ThrowableKind::Javelin | ThrowableKind::Boomerang => ItemRarity::Rare,
            ThrowableKind::Chakram => ItemRarity::Epic,
            ThrowableKind::Bomb => ItemRarity::Legendary,
        }
    }

    /// Value of the stack (the product must fit in a `u32`).
    pub fn value(&self) -> (v: u32)
        requires
            self.spec_value() <= u32::MAX,
        ensures
            v == self.spec_value(),
    {
        if self.stackable() {
            self.base_value * self.quantity
        } else {
            self.base_value
        }
    }

    pub fn stackable(&self) -> (r: bool)
        ensures
            r == spec_throwable_stackable(self.kind),
    {
        match self.kind {
            ThrowableKind::Dart | ThrowableKind::Shuriken | ThrowableKind::Javelin | ThrowableKind::Bomb => true,
            _ => false,
        }
    }

    pub fn stack_limit(&self) -> (n: u32)
        ensures
            n == spec_throwable_stack_limit(self.kind),
    {
        match self.kind {
            ThrowableKind::Dart => 24,
            ThrowableKind::Shuriken => 18,
            ThrowableKind::Javelin => 12,
            ThrowableKind::Bomb => 6,
            ThrowableKind::Chakram | ThrowableKind::Boomerang => 1,
        }
    }

    /// What decides whether two throwing weapons stack.
    fn stacking_key(&self) -> (k: (ThrowableKind, u32, u8))
        ensures
            k == (self.kind, 0u32, self.range),
    {
        (self.kind, 0, self.range)
    }
}

/// Base name of a kind.
pub fn throwable_base_name(kind: ThrowableKind) -> (s: &'static str)
    ensures
        s@ == spec_throwable_base_name(kind),
{
    match kind {
        ThrowableKind::Dart => "飞镖",
        ThrowableKind::Shuriken => "手里剑",
        ThrowableKind::Javelin => "标枪",
        ThrowableKind::Chakram => "回旋刃",
        ThrowableKind::Bomb => "震撼炸弹",
        ThrowableKind::Boomerang => "回力镖",
    }
}

/// Declaration index of a kind.
pub fn throwable_kind_index(kind: ThrowableKind) -> (i: u32)
    ensures
        i == spec_throwable_kind_index(kind),
{
    match kind {
        ThrowableKind::Dart => 0,
        ThrowableKind::Shuriken => 1,
        ThrowableKind::Javelin => 2,
        ThrowableKind::Chakram => 3,
        ThrowableKind::Bomb => 4,
        ThrowableKind::Boomerang => 5,
    }
}

impl Default for Throwable {
    fn default() -> (t: Self)
        ensures
            t == spec_new_throwable(ThrowableKind::Dart),
    {
        Self::new(ThrowableKind::Dart)
    }
}

impl ItemTrait for Throwable {
    /// The SeaHash of the bincode encoding of (kind, 0u32, range).
    fn stacking_id(&self) -> (h: u64)
        ensures
            h == sea_hash(self.spec_stacking_bytes()),
    {
        let key = self.stacking_key();
        let mut bytes = encode_key_u32(throwable_kind_index(key.0));
        push_key_part(&mut bytes, encode_key_u32(key.1));
        push_key_part(&mut bytes, encode_key_u8(key.2));
        sea_hash_bytes(bytes.as_slice())
    }

    fn is_stackable(&self) -> (r: bool)
        ensures
            r == spec_throwable_stackable(self.kind),
    {
        self.stackable()
    }

    fn max_stack(&self) -> (n: u32)
        ensures
            n == spec_throwable_stack_limit(self.kind),
    {
        self.stack_limit()
    }

    fn display_name(&self) -> (s: String)
        ensures
            s@ == self.spec_name(),
    {
        self.name()
    }

    fn category(&self) -> (c: ItemCategory)
        ensures
            c == ItemCategory::Throwable,
    {
        ItemCategory::Throwable
    }

    fn sort_value(&self) -> (v: u32)
        ensures
            v == match self.kind {
                ThrowableKind::Bomb => 140u32,
                ThrowableKind::Chakram => 120u32,
                ThrowableKind::Boomerang => 110u32,
                ThrowableKind::Javelin => 100u32,
                ThrowableKind::Shuriken => 80u32,
                ThrowableKind::Dart => 60u32,
            },
    {
        match self.kind {
            ThrowableKind::Bomb => 140,
            ThrowableKind::Chakram => 120,
            ThrowableKind::Boomerang => 110,
            ThrowableKind::Javelin => 100,
            ThrowableKind::Shuriken => 80,
            ThrowableKind::Dart => 60,
        }
    }
}

} // verus!

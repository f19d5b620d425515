//! Miscellaneous items: gold, keys, bombs, honeypots, torches.

use vstd::prelude::*;
use vstd::string::*;

use crate::dice::{roll_index, roll_range};
use crate::text::{decimal, push_decimal};

pub mod misc;

verus! {

/// Kinds of miscellaneous items.
#[derive(Clone, Copy, Debug, PartialEq, Eq, Structural)]
pub enum MiscKind {
    /// Gold coins, carrying the amount.
    Gold(u32),
    Key,
    Bomb,
    Honeypot,
    Torch,
    Other,
}

/// A miscellaneous item.
#[derive(Clone, Copy, Debug, PartialEq, Eq, Structural)]
pub struct MiscItem {
    pub kind: MiscKind,
    /// Stack size.
    pub quantity: u32,
    /// Base price.
    price: u32,
}

pub open spec fn spec_misc_price(kind: MiscKind) -> u32 {
    match kind {
        MiscKind::Gold(g) => g,
        MiscKind::Key => 30,
        MiscKind::Bomb => 100,
        MiscKind::Honeypot => 60,
        MiscKind::Torch => 50,
        MiscKind::Other => 10,
    }
}

pub open spec fn spec_misc_base_name(kind: MiscKind) -> Seq<char> {
    match kind {
        MiscKind::Gold(_) => "金币"@,
        MiscKind::Key => "钥匙"@,
        MiscKind::Bomb => "炸弹"@,
        MiscKind::Torch => "火把"@,
        MiscKind::Honeypot => "蜂巢罐"@,
        MiscKind::Other => "神秘碎片"@,
    }
}

/// The kind at a position of the kinds drawn from (gold is never drawn).
pub open spec fn spec_misc_kind_at(i: int) -> MiscKind {
    if i == 0 {
        MiscKind::Key
    } else if i == 1 {
        MiscKind::Bomb
    } else if i == 2 {
        MiscKind::Honeypot
    } else if i == 3 {
        MiscKind::Torch
    } else {
        MiscKind::Other
    }
}

/// A kind that comes in a count of more than one.
pub open spec fn spec_misc_counted(kind: MiscKind) -> bool {
    kind == MiscKind::Bomb || kind == MiscKind::Honeypot || kind == MiscKind::Torch
}

/// `m` is the item made of the values drawn: the position of its kind and,
/// for a counted kind, the count.
pub open spec fn misc_from_rolls(m: MiscItem, i: int, count: u32) -> bool {
    let kind = spec_misc_kind_at(i);
    &&& m.spec_kind() == kind
    &&& m.spec_price() == spec_misc_price(kind)
    &&& m.spec_quantity() == if spec_misc_counted(kind) {
        count
    } else {
        1
    }
}

impl MiscItem {
    /// The base price.
    pub closed spec fn spec_price(self) -> u32 {
        self.price
    }

    /// The kind.
    pub closed spec fn spec_kind(self) -> MiscKind {
        self.kind
    }

    /// The stack size.
    pub closed spec fn spec_quantity(self) -> u32 {
        self.quantity
    }

    pub open spec fn spec_name(self) -> Seq<char> {
        if self.spec_quantity() > 1 {
            decimal(self.spec_quantity() as nat) + "x "@ + spec_misc_base_name(self.spec_kind())
        } else {
            spec_misc_base_name(self.spec_kind())
        }
    }

    /// Create a single item of the given kind.
    pub fn new(kind: MiscKind) -> (m: Self)
        ensures
            m.spec_kind() == kind,
            m.spec_quantity() == 1,
            m.spec_price() == spec_misc_price(kind),
    {
        let price = match kind {
            MiscKind::Gold(g) => g,
            MiscKind::Key => 30,
            MiscKind::Bomb => 100,
            MiscKind::Honeypot => 60,
            MiscKind::Torch => 50,
            MiscKind::Other => 10,
        };
        MiscItem { kind, quantity: 1, price }
    }

    /// The item made of the values drawn: the position of its kind and, for
    /// a counted kind, the count.
    pub fn from_rolls(i: usize, count: u32) -> (m: Self)
        ensures
            misc_from_rolls(m, i as int, count),
    {
        let kind = if i == 0 {
            MiscKind::Key
        } else if i == 1 {
            MiscKind::Bomb
        } else if i == 2 {
            MiscKind::Honeypot
        } else if i == 3 {
            MiscKind::Torch
        } else {
            MiscKind::Other
        };
        let mut item = MiscItem::new(kind);
        match item.kind {
            MiscKind::Bomb | MiscKind::Honeypot | MiscKind::Torch => {
                item.quantity = count;
            },
            _ => {},
        }
        item
    }

    /// A random item other than gold; bombs, honeypots and torches come 1 to
    /// 3 at a time.
    pub fn random_new() -> (m: Self)
        ensures
            !(m.spec_kind() is Gold),
            m.spec_price() == spec_misc_price(m.spec_kind()),
            (m.spec_kind() == MiscKind::Bomb || m.spec_kind() == MiscKind::Honeypot || m.spec_kind() == MiscKind::Torch)
                ==> 1 <= m.spec_quantity() <= 3,
            !(m.spec_kind() == MiscKind::Bomb || m.spec_kind() == MiscKind::Honeypot || m.spec_kind() == MiscKind::Torch)
                ==> m.spec_quantity() == 1,
            exists|i: int, count: u32| 0 <= i < 5 && 1 <= count <= 3 && #[trigger] misc_from_rolls(m, i, count),
    {
        let i = roll_index(5);
        let count = if i >= 1 && i <= 3 {
            roll_range(1, 3)
        } else {
            1
        };
        Self::from_rolls(i, count)
    }

    pub fn value(&self) -> (v: u32)
        ensures
            v == self.spec_price(),
    {
        self.price
    }

    /// Set the stack size.
    pub fn with_quantity(self, quantity: u32) -> (m: Self)
        ensures
            m.spec_kind() == self.spec_kind(),
            m.spec_quantity() == quantity,
            m.spec_price() == self.spec_price(),
    {
        let mut s = self;
        s.quantity = quantity;
        s
    }

    /// Bombs and honeypots can be thrown.
    pub fn is_throwable(&self) -> (r: bool)
        ensures
            r == (self.spec_kind() == MiscKind::Bomb || self.spec_kind() == MiscKind::Honeypot),
    {
        match self.kind {
            MiscKind::Bomb | MiscKind::Honeypot => true,
            _ => false,
        }
    }

    pub fn base_name(&self) -> (s: &str)
        ensures
            s@ == spec_misc_base_name(self.spec_kind()),
    {
        match self.kind {
            MiscKind::Gold(_) => "金币",
            MiscKind::Key => "钥匙",
            MiscKind::Bomb => "炸弹",
            MiscKind::Torch => "火把",
            MiscKind::Honeypot => "蜂巢罐",
            MiscKind::Other => "神秘碎片",
        }
    }

    /// Name, prefixed by the count for a stack ("3x 火把").
    pub fn name(&self) -> (s: String)
        ensures
            s@ == self.spec_name(),
    {
        if self.quantity > 1 {
            let mut s = crate::text::decimal_string(self.quantity as u64);
            s.append("x ");
            s.append(self.base_name());
            s
        } else {
            String::from_str(self.base_name())
        }
    }
}

impl Default for MiscItem {
    fn default() -> (m: Self)
        ensures
            m.spec_kind() == MiscKind::Gold(1),
            m.spec_quantity() == 1,
            m.spec_price() == 1,
    {
        MiscItem { kind: MiscKind::Gold(1), quantity: 1, price: 1 }
    }
}

} // verus!

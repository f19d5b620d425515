//! Miscellaneous items with free-form names.

use vstd::prelude::*;
use vstd::string::*;

use crate::text::decimal;

verus! {

/// Kinds of miscellaneous items.
#[derive(Clone, Debug, PartialEq, Eq)]
pub enum MiscType {
    Gold,
    Key,
    Bomb,
    MysteryMeat,
    Honeypot,
    FrozenCarpaccio,
    /// Anything else, with its name.
    Other(String),
}

/// A miscellaneous item.
#[derive(Clone, Debug, PartialEq, Eq)]
pub struct MiscItem {
    pub item_type: MiscType,
    pub quantity: u32,
    pub price: u32,
}

pub open spec fn spec_misc_type_price(t: MiscType) -> u32 {
    match t {
        MiscType::Gold => 1,
        MiscType::Key => 30,
        MiscType::Bomb => 100,
        MiscType::MysteryMeat => 20,
        MiscType::Honeypot => 60,
        MiscType::FrozenCarpaccio => 30,
        MiscType::Other(_) => 10,
    }
}

pub open spec fn spec_misc_type_name(t: MiscType) -> Seq<char> {
    match t {
        MiscType::Gold => "金币"@,
        MiscType::Key => "钥匙"@,
        MiscType::Bomb => "炸弹"@,
        MiscType::MysteryMeat => "神秘肉"@,
        MiscType::Honeypot => "蜂巢罐"@,
        MiscType::FrozenCarpaccio => "冰冻肉"@,
        MiscType::Other(name) => name@,
    }
}

impl MiscItem {
    pub fn new(item_type: MiscType) -> (m: Self)
        ensures
            m.item_type == item_type,
            m.quantity == 1,
            m.price == spec_misc_type_price(item_type),
    {
        let price = match item_type {
            MiscType::Gold => 1,
            MiscType::Key => 30,
            MiscType::Bomb => 100,
            MiscType::MysteryMeat => 20,
            MiscType::Honeypot => 60,
            MiscType::FrozenCarpaccio => 30,
            MiscType::Other(_) => 10,
        };
        MiscItem { item_type, quantity: 1, price }
    }

    /// Set the stack size.
    pub fn with_quantity(self, quantity: u32) -> (m: Self)
        ensures
            m == (MiscItem { quantity: quantity, ..self }),
    {
        let mut s = self;
        s.quantity = quantity;
        s
    }

    /// Bombs and honeypots can be thrown.
    pub fn is_throwable(&self) -> (r: bool)
        ensures
            r == (self.item_type is Bomb || self.item_type is Honeypot),
    {
        match self.item_type {
            MiscType::Bomb | MiscType::Honeypot => true,
            _ => false,
        }
    }

    /// Mystery meat and frozen carpaccio can be eaten.
    pub fn is_edible(&self) -> (r: bool)
        ensures
            r == (self.item_type is MysteryMeat || self.item_type is FrozenCarpaccio),
    {
        match self.item_type {
            MiscType::MysteryMeat | MiscType::FrozenCarpaccio => true,
            _ => false,
        }
    }

    pub fn base_name(&self) -> (s: &str)
        ensures
            s@ == spec_misc_type_name(self.item_type),
    {
        match &self.item_type {
            MiscType::Gold => "金币",
            MiscType::Key => "钥匙",
            MiscType::Bomb => "炸弹",
            MiscType::MysteryMeat => "神秘肉",
            MiscType::Honeypot => "蜂巢罐",
            MiscType::FrozenCarpaccio => "冰冻肉",
            MiscType::Other(name) => name.as_str(),
        }
    }

    /// Name, prefixed by the count for a stack.
    pub fn full_name(&self) -> (s: String)
        ensures
            s@ == if self.quantity > 1 {
                decimal(self.quantity as nat) + "x "@ + spec_misc_type_name(self.item_type)
            } else {
                spec_misc_type_name(self.item_type)
            },
    {
        if self.quantity > 1 {
            let mut s = crate::text::decimal_string(self.quantity as u64);
            s.append("x ");
            s.append(self.base_name());
            s
        } else {
            String::from_str(self.base_name())
        }
    }
}

} // verus!

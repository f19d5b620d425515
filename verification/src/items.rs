//! Items: their kinds, values, names, stacking and colors.

use vstd::prelude::*;

use std::hash::Hasher;

pub mod armor;
pub mod food;
pub mod herb;
pub mod misc;
pub mod potion;
pub mod ring;
pub mod scroll;
pub mod seed;
pub mod stone;
pub mod throwable;
pub mod wand;
pub mod weapon;

verus! {

/// Item categories, used to sort an inventory.
#[derive(Clone, Copy, Debug, PartialEq, Eq, Structural)]
pub enum ItemCategory {
    Weapon,
    Armor,
    Potion,
    Scroll,
    Wand,
    Ring,
    Seed,
    Stone,
    Food,
    Misc,
    Herb,
    Throwable,
}

/// Rarity tiers.
#[derive(Clone, Copy, Debug, PartialEq, Eq, Structural)]
pub enum ItemRarity {
    Common,
    Rare,
    Epic,
    Legendary,
}

/// Terminal colors in which items are drawn.
#[derive(Clone, Copy, Debug, PartialEq, Eq, Structural)]
pub enum DisplayColor {
    White,
    Gray,
    Red,
    LightRed,
    Green,
    LightGreen,
    Yellow,
    LightYellow,
    Blue,
    LightBlue,
    Magenta,
    LightMagenta,
    Cyan,
    LightCyan,
    Black,
    DarkGray,
    Rgb(u8, u8, u8),
}

/// Behaviour shared by every kind of item.
pub trait ItemTrait {
    /// Whether several of these share one inventory slot.
    fn is_stackable(&self) -> bool;

    /// Largest stack.
    fn max_stack(&self) -> u32;

    /// Name shown in the interface.
    fn display_name(&self) -> String;

    /// Category used to sort the inventory.
    fn category(&self) -> ItemCategory;

    /// Sort weight (larger sorts first).
    fn sort_value(&self) -> u32;

    /// Items with equal stacking ids stack together.
    fn stacking_id(&self) -> u64;
}

/// The bytes bincode writes for a `u32` in the item key encoding (legacy
/// configuration with variable-length integers, little endian): the value
/// itself up to 250; else 251 and the value as two bytes up to 65535; else
/// 252 and the value as four bytes.
pub open spec fn key_bytes_u32(v: u32) -> Seq<u8> {
    if v <= 250 {
        seq![v as u8]
    } else if v <= 0xffff {
        seq![251u8, (v % 256) as u8, (v / 256) as u8]
    } else {
        seq![
            252u8,
            (v % 256) as u8,
            ((v / 256) % 256) as u8,
            ((v / 0x1_0000) % 256) as u8,
            (v / 0x100_0000) as u8,
        ]
    }
}

/// The zigzag form of an `i32`: non-negative values doubled, negative ones
/// sent to the odd numbers (-1 to 1, -2 to 3, ...).
pub open spec fn zigzag(v: i32) -> u32 {
    if v < 0 {
        (2 * (-(v as int) - 1) + 1) as u32
    } else {
        (2 * (v as int)) as u32
    }
}

/// The bytes bincode writes for an `i32` in the item key encoding: its
/// zigzag form, written as a `u32`.
pub open spec fn key_bytes_i32(v: i32) -> Seq<u8> {
    key_bytes_u32(zigzag(v))
}

/// The bytes bincode writes for a `u8`: the byte itself.
pub open spec fn key_bytes_u8(v: u8) -> Seq<u8> {
    seq![v]
}

/// The bytes bincode writes for a `bool`: one byte, 1 or 0.
pub open spec fn key_bytes_bool(v: bool) -> Seq<u8> {
    seq![if v { 1u8 } else { 0u8 }]
}

/// The SeaHash digest of a byte string.
pub uninterp spec fn sea_hash(bytes: Seq<u8>) -> u64;

/// `bincode::serde::encode_to_vec` of a `u32` with
/// `bincode::config::legacy().with_variable_int_encoding()`: bincode's
/// `varint_encode_u32`, as `key_bytes_u32` states. Writing into a vector
/// cannot fail for an integer, so the result is unwrapped.
#[verifier::external_body]
pub(crate) fn encode_key_u32(v: u32) -> (r: Vec<u8>)
    ensures
        r@ == key_bytes_u32(v),
{
    bincode::serde::encode_to_vec(v, bincode::config::legacy().with_variable_int_encoding()).unwrap()
}

/// `bincode::serde::encode_to_vec` of an `i32`, configured as above.
#[verifier::external_body]
pub(crate) fn encode_key_i32(v: i32) -> (r: Vec<u8>)
    ensures
        r@ == key_bytes_i32(v),
{
    bincode::serde::encode_to_vec(v, bincode::config::legacy().with_variable_int_encoding()).unwrap()
}

/// `bincode::serde::encode_to_vec` of a `u8`, configured as above.
#[verifier::external_body]
pub(crate) fn encode_key_u8(v: u8) -> (r: Vec<u8>)
    ensures
        r@ == key_bytes_u8(v),
{
    bincode::serde::encode_to_vec(v, bincode::config::legacy().with_variable_int_encoding()).unwrap()
}

/// `bincode::serde::encode_to_vec` of a `bool`, configured as above.
#[verifier::external_body]
pub(crate) fn encode_key_bool(v: bool) -> (r: Vec<u8>)
    ensures
        r@ == key_bytes_bool(v),
{
    bincode::serde::encode_to_vec(v, bincode::config::legacy().with_variable_int_encoding()).unwrap()
}

/// The digest of `seahash::SeaHasher` after writing `bytes` into a fresh
/// hasher. The contract names the digest: it depends on the bytes alone.
#[verifier::external_body]
pub(crate) fn sea_hash_bytes(bytes: &[u8]) -> (h: u64)
    ensures
        h == sea_hash(bytes@),
{
    let mut hasher = seahash::SeaHasher::new();
    hasher.write(bytes);
    hasher.finish()
}

/// Appends `part` to a key under construction.
pub fn push_key_part(key: &mut Vec<u8>, part: Vec<u8>)
    ensures
        final(key)@ == old(key)@ + part@,
{
    let mut p = part;
    key.append(&mut p);
}

} // verus!

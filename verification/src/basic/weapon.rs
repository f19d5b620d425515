//! Vocabulary of the basic weapon: its enchantments, modification
//! directions and melee weapon types.

use vstd::prelude::*;

verus! {

/// Enchantments of the basic weapon; the last two are curses.
#[derive(Clone, Copy, Debug, PartialEq, Eq, Structural)]
pub enum WeaponEnhance {
    Burning,
    Stunning,
    Vampiric,
    Lucky,
    Cursed,
    Fragile,
}

/// Directions in which the basic weapon can be modified.
#[derive(Clone, Copy, Debug, PartialEq, Eq, Structural)]
pub enum WeaponMod {
    Damage,
    Speed,
    Balanced,
}

/// Melee weapon types.
#[derive(Clone, Copy, Debug, PartialEq, Eq, Structural)]
pub enum WeaponType {
    Sword,
    Dagger,
    Greataxe,
    Spear,
}

} // verus!

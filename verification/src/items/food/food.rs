//! The plain food model: portions without contamination.

use vstd::prelude::*;

verus! {

/// A food item.
#[derive(Clone, Copy, Debug, PartialEq, Eq, Structural)]
pub struct Food {
    pub kind: FoodKind,
    /// Satiety restored.
    pub energy: u32,
    /// Number of portions.
    pub quantity: u8,
    /// Whether it was cooked (meaningful for mystery meat).
    pub cooked: bool,
}

/// Kinds of food.
#[derive(Clone, Copy, Debug, PartialEq, Eq, Structural)]
pub enum FoodKind {
    Ration,
    Pasty,
    MysteryMeat,
    FrozenCarpaccio,
}

impl Food {
    /// Satiety gained from one portion: half for raw mystery meat, +50 for
    /// frozen carpaccio.
    pub open spec fn spec_eat_energy(self) -> int {
        match self.kind {
            FoodKind::MysteryMeat => if !self.cooked {
                (self.energy / 2) as int
            } else {
                self.energy as int
            },
            FoodKind::FrozenCarpaccio => self.energy + 50,
            _ => self.energy as int,
        }
    }

    /// Create a new food item.
    pub fn new(kind: FoodKind) -> (f: Self)
        ensures
            f.kind == kind,
            f.quantity == 1,
            !f.cooked,
            f.energy == match kind {
                FoodKind::Ration => 350u32,
                FoodKind::Pasty => 450u32,
                FoodKind::MysteryMeat => 100u32,
                FoodKind::FrozenCarpaccio => 200u32,
            },
    {
        let (energy, quantity) = match kind {
            FoodKind::Ration => (350, 1),
            FoodKind::Pasty => (450, 1),
            FoodKind::MysteryMeat => (100, 1),
            FoodKind::FrozenCarpaccio => (200, 1),
        };
        Food { kind, energy, quantity, cooked: false }
    }

    /// Eat one portion; returns the satiety gained.
    pub fn eat(&mut self) -> (gained: u32)
        requires
            old(self).spec_eat_energy() <= u32::MAX,
        ensures
            if old(self).quantity == 0 {
                gained == 0 && *final(self) == *old(self)
            } else {
                &&& gained == old(self).spec_eat_energy()
                &&& *final(self) == (Food { quantity: (old(self).quantity - 1) as u8, ..*old(self) })
            },
    {
        if self.quantity == 0 {
            return 0;
        }
        self.quantity = self.quantity - 1;
        let mut actual_energy = self.energy;
        match self.kind {
            FoodKind::MysteryMeat => {
                if !self.cooked {
                    actual_energy = actual_energy / 2;
                }
            },
            FoodKind::FrozenCarpaccio => {
                actual_energy = actual_energy + 50;
            },
            _ => {},
        }
        actual_energy
    }

    /// Cook mystery meat.
    pub fn cook(&mut self) -> (cooked: bool)
        ensures
            cooked == (old(self).kind == FoodKind::MysteryMeat),
            cooked ==> *final(self) == (Food { cooked: true, energy: 150, ..*old(self) }),
            !cooked ==> *final(self) == *old(self),
    {
        if let FoodKind::MysteryMeat = self.kind {
            self.cooked = true;
            self.energy = 150;
            true
        } else {
            false
        }
    }

    /// Freeze mystery meat into frozen carpaccio.
    pub fn freeze(&mut self) -> (frozen: bool)
        ensures
            frozen == (old(self).kind == FoodKind::MysteryMeat),
            frozen ==> *final(self) == (Food { kind: FoodKind::FrozenCarpaccio, energy: 200, ..*old(self) }),
            !frozen ==> *final(self) == *old(self),
    {
        if let FoodKind::MysteryMeat = self.kind {
            self.kind = FoodKind::FrozenCarpaccio;
            self.energy = 200;
            true
        } else {
            false
        }
    }
}

} // verus!

//! Food: rations, pasties and mystery meat.

use vstd::prelude::*;
use vstd::string::*;

use crate::dice::{roll_index, roll_ratio};
use crate::items::DisplayColor;

pub mod food;

verus! {

/// A food item.
#[derive(Clone, Copy, Debug, PartialEq, Eq, Structural)]
pub struct Food {
    pub kind: FoodKind,
    /// Satiety restored.
    pub energy: u32,
    /// Number of portions.
    pub quantity: u8,
    /// Whether it was cooked (meaningful for mystery meat).
    pub cooked: bool,
    /// Whether it is contaminated (weaker).
    pub contaminated: bool,
}

/// Kinds of food.
#[derive(Clone, Copy, Debug, PartialEq, Eq, Structural)]
pub enum FoodKind {
    Ration,
    Pasty,
    MysteryMeat,
    FrozenCarpaccio,
}

pub open spec fn spec_new_food(kind: FoodKind) -> Food {
    let (energy, quantity) = match kind {
        FoodKind::Ration => (350u32, 1u8),
        FoodKind::Pasty => (450u32, 3u8),
        FoodKind::MysteryMeat => (100u32, 1u8),
        FoodKind::FrozenCarpaccio => (200u32, 1u8),
    };
    Food { kind: kind, energy: energy, quantity: quantity, cooked: false, contaminated: false }
}

/// The kind at a position of the declaration.
pub open spec fn spec_food_kind_at(i: int) -> FoodKind {
    if i == 0 {
        FoodKind::Ration
    } else if i == 1 {
        FoodKind::Pasty
    } else if i == 2 {
        FoodKind::MysteryMeat
    } else {
        FoodKind::FrozenCarpaccio
    }
}

/// The food made of the values drawn: the position of its kind, whether a
/// mystery meat comes cooked, and whether it is contaminated.
pub open spec fn food_from_rolls(i: int, cooked: bool, contaminated: bool) -> Food {
    let kind = spec_food_kind_at(i);
    let f = spec_new_food(kind);
    let f2 = if kind == FoodKind::MysteryMeat && cooked {
        Food { cooked: true, energy: 150, ..f }
    } else {
        f
    };
    Food { contaminated: contaminated, ..f2 }
}

impl Food {
    pub open spec fn spec_name(self) -> Seq<char> {
        match self.kind {
            FoodKind::Ration => "干粮"@,
            FoodKind::Pasty => "肉馅饼"@,
            FoodKind::MysteryMeat => if self.cooked {
                "熟肉"@
            } else {
                "生肉"@
            },
            FoodKind::FrozenCarpaccio => "冰冻肉片"@,
        }
    }

    /// Base value of one portion.
    pub open spec fn spec_base_value(self) -> nat {
        match self.kind {
            FoodKind::Ration => 50,
            FoodKind::Pasty => 100,
            FoodKind::MysteryMeat => if self.cooked {
                80
            } else {
                30
            },
            FoodKind::FrozenCarpaccio => 120,
        }
    }

    /// Value: base value per portion (60% of it, rounded down, when
    /// contaminated) times the number of portions.
    pub open spec fn spec_value(self) -> nat {
        let b = self.spec_base_value();
        let per = if self.contaminated {
            b * 3 / 5
        } else {
            b
        };
        per * (self.quantity as nat)
    }

    /// Satiety gained from one portion: 70% (rounded down) when contaminated,
    /// then halved for raw mystery meat or +50 for frozen carpaccio.
    pub open spec fn spec_eat_energy(self) -> int {
        let e = if self.contaminated {
            self.energy * 7 / 10
        } else {
            self.energy as int
        };
        match self.kind {
            FoodKind::MysteryMeat => if !self.cooked {
                e / 2
            } else {
                e
            },
            FoodKind::FrozenCarpaccio => e + 50,
            _ => e,
        }
    }

    pub open spec fn spec_color(self) -> DisplayColor {
        if self.contaminated {
            DisplayColor::Green
        } else {
            match self.kind {
                FoodKind::Ration => DisplayColor::Rgb(210, 180, 140),
                FoodKind::Pasty => DisplayColor::LightRed,
                FoodKind::MysteryMeat => if self.cooked {
                    DisplayColor::Rgb(139, 69, 19)
                } else {
                    DisplayColor::Red
                },
                FoodKind::FrozenCarpaccio => DisplayColor::LightBlue,
            }
        }
    }

    /// Create a new food item.
    pub fn new(kind: FoodKind) -> (f: Self)
        ensures
            f == spec_new_food(kind),
    {
        let (energy, quantity) = match kind {
            FoodKind::Ration => (350, 1),
            FoodKind::Pasty => (450, 3),
            FoodKind::MysteryMeat => (100, 1),
            FoodKind::FrozenCarpaccio => (200, 1),
        };
        Food { kind, energy, quantity, cooked: false, contaminated: false }
    }

    /// Name shown in the interface.
    pub fn name(&self) -> (s: String)
        ensures
            s@ == self.spec_name(),
    {
        match self.kind {
            FoodKind::Ration => String::from_str("干粮"),
            FoodKind::Pasty => String::from_str("肉馅饼"),
            FoodKind::MysteryMeat => if self.cooked {
                String::from_str("熟肉")
            } else {
                String::from_str("生肉")
            },
            FoodKind::FrozenCarpaccio => String::from_str("冰冻肉片"),
        }
    }

    /// The food made of the values drawn: the position of its kind, whether
    /// a mystery meat comes cooked, and whether it is contaminated.
    pub fn from_rolls(i: usize, cooked: bool, contaminated: bool) -> (f: Self)
        ensures
            f == food_from_rolls(i as int, cooked, contaminated),
    {
        let kind = if i == 0 {
            FoodKind::Ration
        } else if i == 1 {
            FoodKind::Pasty
        } else if i == 2 {
            FoodKind::MysteryMeat
        } else {
            FoodKind::FrozenCarpaccio
        };
        let mut food = Food::new(kind);
        if cooked {
            food.cook();
        }
        food.contaminated = contaminated;
        food
    }

    /// A random food: random kind; a mystery meat comes cooked with
    /// probability 30%; any food is contaminated with probability 10%.
    pub fn random_new() -> (f: Self)
        ensures
            f == (Food {
                cooked: f.cooked,
                energy: f.energy,
                contaminated: f.contaminated,
                ..spec_new_food(f.kind)
            }),
            f.cooked ==> f.kind == FoodKind::MysteryMeat && f.energy == 150,
            !f.cooked ==> f.energy == spec_new_food(f.kind).energy,
            exists|i: int, cooked: bool, contaminated: bool|
                0 <= i < 4 && f == #[trigger] food_from_rolls(i, cooked, contaminated),
    {
        let i = roll_index(4);
        let cooked = if i == 2 {
            roll_ratio(3, 10)
        } else {
            false
        };
        let contaminated = roll_ratio(1, 10);
        Self::from_rolls(i, cooked, contaminated)
    }

    /// Value of the item.
    pub fn value(&self) -> (v: usize)
        ensures
            v == self.spec_value(),
    {
        let base_value: usize = match self.kind {
            FoodKind::Ration => 50,
            FoodKind::Pasty => 100,
            FoodKind::MysteryMeat => if self.cooked {
                80
            } else {
                30
            },
            FoodKind::FrozenCarpaccio => 120,
        };
        let value = if self.contaminated {
            base_value * 3 / 5
        } else {
            base_value
        };
        let q = self.quantity as usize;
        assert(value * q <= 120 * 255) by (nonlinear_arith)
            requires
                value <= 120,
                q <= 255,
        ;
        value * q
    }

    /// Color; contamination shows first.
    pub fn color(&self) -> (c: DisplayColor)
        ensures
            c == self.spec_color(),
    {
        if self.contaminated {
            return DisplayColor::Green;
        }
        match self.kind {
            FoodKind::Ration => DisplayColor::Rgb(210, 180, 140),
            FoodKind::Pasty => DisplayColor::LightRed,
            FoodKind::MysteryMeat => if self.cooked {
                DisplayColor::Rgb(139, 69, 19)
            } else {
                DisplayColor::Red
            },
            FoodKind::FrozenCarpaccio => DisplayColor::LightBlue,
        }
    }

    /// Split one portion off a pasty that has more than one.
    pub fn divide(&mut self) -> (piece: Option<Food>)
        ensures
            if old(self).kind == FoodKind::Pasty && old(self).quantity > 1 {
                &&& *final(self) == (Food { quantity: (old(self).quantity - 1) as u8, ..*old(self) })
                &&& piece == Some(Food {
                    kind: FoodKind::Pasty,
                    energy: old(self).energy / 3,
                    quantity: 1,
                    cooked: false,
                    contaminated: old(self).contaminated,
                })
            } else {
                &&& *final(self) == *old(self)
                &&& piece is None
            },
    {
        if let FoodKind::Pasty = self.kind {
            if self.quantity > 1 {
                self.quantity = self.quantity - 1;
                Some(Food {
                    kind: FoodKind::Pasty,
                    energy: self.energy / 3,
                    quantity: 1,
                    cooked: false,
                    contaminated: self.contaminated,
                })
            } else {
                None
            }
        } else {
            None
        }
    }

    /// Eat a portion; returns the satiety gained, which depends on the kind,
    /// cooking and contamination, not on how many portions are left (a piece
    /// of meat cooked after being eaten raw still feeds as cooked meat). The
    /// count of portions goes down by one, stopping at zero.
    /// A contaminated portion's energy must stay below 2^22, where the `f32`
    /// scaling by 0.7 still rounds to the exact 70% used here; frozen
    /// carpaccio's bonus must not overflow.
    pub fn eat(&mut self) -> (gained: u32)
        requires
            old(self).contaminated ==> old(self).energy < 0x400000,
            old(self).spec_eat_energy() <= u32::MAX,
        ensures
            gained == old(self).spec_eat_energy(),
            *final(self) == (Food {
                quantity: if old(self).quantity == 0 { 0u8 } else { (old(self).quantity - 1) as u8 },
                ..*old(self)
            }),
    {
        self.quantity = self.quantity.saturating_sub(1);
        let mut actual_energy = self.energy;
        if self.contaminated {
            actual_energy = actual_energy * 7 / 10;
        }
        match self.kind {
            FoodKind::MysteryMeat => {
                if !self.cooked {
                    actual_energy = actual_energy / 2;
                }
            },
            FoodKind::FrozenCarpaccio => {
                actual_energy = actual_energy + 50;
            },
            _ => {},
        }
        actual_energy
    }

    /// Cook mystery meat.
    pub fn cook(&mut self) -> (cooked: bool)
        ensures
            cooked == (old(self).kind == FoodKind::MysteryMeat),
            cooked ==> *final(self) == (Food { cooked: true, energy: 150, ..*old(self) }),
            !cooked ==> *final(self) == *old(self),
    {
        if let FoodKind::MysteryMeat = self.kind {
            self.cooked = true;
            self.energy = 150;
            true
        } else {
            false
        }
    }

    /// Freeze mystery meat into frozen carpaccio.
    pub fn freeze(&mut self) -> (frozen: bool)
        ensures
            frozen == (old(self).kind == FoodKind::MysteryMeat),
            frozen ==> *final(self) == (Food { kind: FoodKind::FrozenCarpaccio, energy: 200, ..*old(self) }),
            !frozen ==> *final(self) == *old(self),
    {
        if let FoodKind::MysteryMeat = self.kind {
            self.kind = FoodKind::FrozenCarpaccio;
            self.energy = 200;
            true
        } else {
            false
        }
    }
}

impl Default for Food {
    fn default() -> (f: Self)
        ensures
            f == spec_new_food(FoodKind::Ration),
    {
        Food { kind: FoodKind::Ration, energy: 350, quantity: 1, cooked: false, contaminated: false }
    }
}

} // verus!

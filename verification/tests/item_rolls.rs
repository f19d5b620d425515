use pixel_dungeon::items::armor::{Armor, ArmorGlyph};
use pixel_dungeon::items::food::{Food, FoodKind};
use pixel_dungeon::items::herb::{Herb, HerbKind};
use pixel_dungeon::items::misc::{MiscItem, MiscKind};
use pixel_dungeon::items::potion::potion::{Potion, PotionKind};
use pixel_dungeon::items::potion::{Potion as FlaskPotion, PotionColor, PotionKind as FlaskKind};
use pixel_dungeon::items::ring::{Ring, RingKind};
use pixel_dungeon::items::scroll::{Scroll, ScrollKind};
use pixel_dungeon::items::seed::{Seed, SeedKind};
use pixel_dungeon::items::stone::{Stone, StoneKind};
use pixel_dungeon::items::throwable::{Throwable, ThrowableKind};

#[test]
fn ring_from_rolls_and_its_value() {
    let r = Ring::from_rolls(7, 2, false);
    assert_eq!(r.kind, RingKind::Might);
    assert_eq!(r.level, 2);
    assert!(!r.cursed && !r.identified);
    assert_eq!(r.base_value, 1500);
    assert_eq!(r.value(), 2100);
    let c = Ring::from_rolls(9, 14, true);
    assert_eq!(c.kind, RingKind::Wealth);
    assert_eq!(c.level, 10);
    assert!(c.cursed);
    assert_eq!(c.value(), 3000);
    let big = Ring { base_value: 1_000_000, level: 5, ..Ring::from_rolls(0, 0, false) };
    assert_eq!(big.value(), 2_000_000);
}

#[test]
fn seed_stone_and_scroll_from_rolls() {
    let s = Seed::from_roll(2);
    assert_eq!(s.kind, SeedKind::Firebloom);
    assert_eq!(s.turns_to_grow, 12);
    let st = Stone::from_roll(9);
    assert_eq!(st.kind, StoneKind::Transmutation);
    assert!(!st.used);
    let sc = Scroll::from_rolls(3, true);
    assert_eq!(sc.kind, ScrollKind::MagicMapping);
    assert!(sc.exotic && !sc.identified);
    assert!(!Scroll::from_rolls(3, false).exotic);
}

#[test]
fn herb_and_food_from_rolls() {
    let h = Herb::from_rolls(4, true, true, 3);
    assert_eq!(h.kind, HerbKind::Dragonthorn);
    assert!(h.identified);
    assert_eq!(h.quantity, 3);
    let single = Herb::from_rolls(0, false, false, 9);
    assert_eq!(single.kind, HerbKind::Sungrass);
    assert_eq!(single.quantity, 1);
    assert!(!single.identified);

    let meat = Food::from_rolls(2, true, false);
    assert_eq!(meat.kind, FoodKind::MysteryMeat);
    assert!(meat.cooked && !meat.contaminated);
    assert_eq!(meat.energy, 150);
    let ration = Food::from_rolls(0, true, true);
    assert_eq!(ration.kind, FoodKind::Ration);
    assert!(!ration.cooked && ration.contaminated);
    assert_eq!(ration.energy, 350);
}

#[test]
fn throwable_armor_and_misc_from_rolls() {
    let darts = Throwable::from_rolls(0, 5);
    assert_eq!(darts.kind, ThrowableKind::Dart);
    assert_eq!(darts.quantity, 5);
    let chakram = Throwable::from_rolls(3, 5);
    assert_eq!(chakram.kind, ThrowableKind::Chakram);
    assert_eq!(chakram.quantity, 1);

    let a = Armor::from_rolls(3, true, 4, true);
    assert_eq!(a.tier, 3);
    assert_eq!(a.glyph, Some(ArmorGlyph::Flow));
    assert!(a.cursed && !a.cursed_known);
    let plain = Armor::from_rolls(2, false, 7, false);
    assert_eq!(plain.glyph, None);
    assert!(!plain.cursed);

    let bombs = MiscItem::from_rolls(1, 3);
    assert_eq!(bombs.kind, MiscKind::Bomb);
    assert_eq!(bombs.quantity, 3);
    assert_eq!(bombs.value(), 100);
    let key = MiscItem::from_rolls(0, 3);
    assert_eq!(key.kind, MiscKind::Key);
    assert_eq!(key.quantity, 1);
}

#[test]
fn potions_from_rolls() {
    let p = Potion::from_byte(25);
    assert_eq!(p.kind, PotionKind::Experience);
    assert!(!p.identified && !p.alchemy);
    assert_eq!(Potion::from_byte(11).kind, PotionKind::Haste);
    let f = FlaskPotion::from_roll(0);
    assert_eq!(f.kind, FlaskKind::Healing);
    assert!(!f.identified);
    assert_eq!(f.color, PotionColor::assign_random_color(&FlaskKind::Healing));
}

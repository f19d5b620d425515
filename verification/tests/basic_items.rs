use pixel_dungeon::basic::armor::{Armor, ArmorGlyph, GlyphEffect};
use pixel_dungeon::basic::ring::{Ring, RingKind};
use pixel_dungeon::items::armor::{Armor as ItemArmor, ArmorGlyph as ItemGlyph};

#[test]
fn test_armor_creation() {
    let leather = Armor::new(2, 0);
    assert_eq!(leather.name, "皮甲");
    assert_eq!(leather.effective_defense(), 5);
    assert!(!leather.cursed);
}

#[test]
fn test_upgrade_armor() {
    let mut plate = Armor::new(5, 0);
    plate.upgrade();
    assert_eq!(plate.level, 1);
    assert_eq!(plate.effective_defense(), 15);
}

#[test]
fn test_cursed_armor() {
    let mut cursed = Armor::new(3, -2);
    assert!(cursed.cursed);
    assert_eq!(cursed.effective_defense(), 6);

    cursed.upgrade();
    assert_eq!(cursed.level, -1);
    assert!(cursed.cursed);

    cursed.upgrade();
    assert_eq!(cursed.level, 0);
    assert!(!cursed.cursed);
}

#[test]
fn test_glyphs() {
    let mut armor = Armor::new(4, 3);
    armor.inscribe(ArmorGlyph::Thorns);

    if let Some(effect) = armor.trigger_glyph() {
        match effect {
            GlyphEffect::ReflectDamage(dmg) => assert_eq!(dmg, 2),
            _ => panic!("Wrong glyph effect"),
        }
    }
}

#[test]
fn test_ring_level_clamping() {
    let ring = Ring::new(RingKind::Might, 15);
    assert_eq!(ring.level, 10);
}

#[test]
fn evasion_penalty_floors_at_zero() {
    let mut cloth = ItemArmor::new(1);
    cloth.upgrade_level = 3;
    assert_eq!(cloth.evasion_penalty(), 0);
    let mut leather = ItemArmor::new(2);
    leather.upgrade_level = 9;
    assert_eq!(leather.evasion_penalty(), 0);
    let mut plate = ItemArmor::new(5);
    assert_eq!(plate.evasion_penalty(), 4);
    plate.upgrade_level = 3;
    assert_eq!(plate.evasion_penalty(), 3);
    plate.cursed = true;
    assert_eq!(plate.evasion_penalty(), 5);
    plate.glyph = Some(ItemGlyph::Flow);
    assert_eq!(plate.evasion_penalty(), 0);
}

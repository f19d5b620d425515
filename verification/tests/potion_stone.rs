use pixel_dungeon::items::herb::{Herb, HerbKind};
use pixel_dungeon::items::ItemTrait;
use seahash::SeaHasher;
use std::hash::Hasher;
use pixel_dungeon::items::potion::potion::{Color, Potion, PotionKind};
use pixel_dungeon::items::potion::{kind_at, Potion as FlaskPotion, PotionColor};
use pixel_dungeon::items::stone::{Stone, StoneKind};

#[test]
fn test_alchemy_potion() {
    let potion = Potion::new_alchemy(PotionKind::Strength);
    assert!(potion.identified);
    assert!(potion.alchemy);
    assert_eq!(potion.name(), "力量药水");
}

#[test]
fn test_potion_kind_properties() {
    let kind = PotionKind::Healing;
    assert_eq!(kind.name(), "治疗药水");
    assert_eq!(kind.effect(), "恢复大量生命值");
    assert_eq!(kind.color(), Color::Crimson);
}

#[test]
fn test_potion_creation() {
    let mut potion = Potion::new_random();
    assert!(!potion.identified);
    assert!(!potion.alchemy);

    potion.identify();
    assert!(potion.identified);
}

#[test]
fn test_stone_creation() {
    let stone = Stone::new(StoneKind::Upgrade);
    assert_eq!(stone.name(), "强化之石");
    assert!(!stone.used);
}

#[test]
fn test_use_effect() {
    let mut stone = Stone::new(StoneKind::MagicMapping);
    assert!(stone.use_effect().is_some());
    assert!(stone.used);
    assert!(stone.use_effect().is_none());
}

#[test]
fn test_stone_values() {
    let upgrade = Stone::new(StoneKind::Upgrade);
    assert_eq!(upgrade.value(), 240);

    let rage = Stone::new(StoneKind::Rage);
    assert_eq!(rage.value(), 70);

    let mut identify = Stone::new(StoneKind::Identify);
    identify.use_effect();
    assert_eq!(identify.value(), 18);

    let mapping = Stone::new(StoneKind::MagicMapping);
    assert_eq!(mapping.value(), 120);

    let mut trans = Stone::new(StoneKind::Transmutation);
    trans.use_effect();
    assert_eq!(trans.value(), 18);
}

#[test]
fn every_kind_has_a_flask_of_its_own() {
    let colors: Vec<PotionColor> = (0..12).map(|i| PotionColor::assign_random_color(&kind_at(i))).collect();
    for i in 0..12 {
        for j in 0..12 {
            if i != j {
                assert_ne!(colors[i], colors[j]);
            }
        }
        assert_eq!(PotionColor::assign_random_color(&kind_at(i)), colors[i]);
    }
    for _ in 0..20 {
        let p = FlaskPotion::new_random();
        assert!(!p.identified);
        assert_eq!(p.color, PotionColor::assign_random_color(&p.kind));
    }
}

#[test]
fn herb_stacking_id_hashes_its_key_bytes() {
    let mut herb = Herb::new(HerbKind::Nightshade);
    herb.potency = 7;
    herb.identified = true;
    // Kind index 2 (one varint byte), the potency byte, then `true` as 1.
    let mut hasher = SeaHasher::new();
    hasher.write(&[2u8, 7, 1]);
    assert_eq!(herb.stacking_id(), hasher.finish());
    let other = Herb { potency: 8, ..herb };
    assert_ne!(other.stacking_id(), herb.stacking_id());
}

use pixel_dungeon::items::food::{Food, FoodKind};
use pixel_dungeon::items::DisplayColor;

#[test]
fn test_food_colors() {
    let ration = Food::new(FoodKind::Ration);
    assert_eq!(ration.color(), DisplayColor::Rgb(210, 180, 140));

    let mut contaminated_pasty = Food::new(FoodKind::Pasty);
    contaminated_pasty.contaminated = true;
    assert_eq!(contaminated_pasty.color(), DisplayColor::Green);
}

#[test]
fn test_priority_of_contamination() {
    let mut cooked_meat = Food::new(FoodKind::MysteryMeat);
    cooked_meat.cook();
    assert_eq!(cooked_meat.color(), DisplayColor::Rgb(139, 69, 19));

    cooked_meat.contaminated = true;
    assert_eq!(cooked_meat.color(), DisplayColor::Green);
}

#[test]
fn test_food_values() {
    let ration = Food::new(FoodKind::Ration);
    assert_eq!(ration.value(), 50);

    let mut pasty = Food::new(FoodKind::Pasty);
    pasty.quantity = 3;
    assert_eq!(pasty.value(), 300);

    let mut cooked_meat = Food::new(FoodKind::MysteryMeat);
    cooked_meat.cook();
    assert_eq!(cooked_meat.value(), 80);

    let mut frozen = Food::new(FoodKind::MysteryMeat);
    frozen.freeze();
    assert_eq!(frozen.value(), 120);

    let mut contaminated = Food::new(FoodKind::Ration);
    contaminated.contaminated = true;
    assert_eq!(contaminated.value(), 30);
}

#[test]
fn test_food_basics() {
    let mut ration = Food::new(FoodKind::Ration);
    assert_eq!(ration.eat(), 350);
    assert_eq!(ration.quantity, 0);
}

#[test]
fn test_pasty_division() {
    let mut pasty = Food::new(FoodKind::Pasty);
    assert_eq!(pasty.quantity, 3);

    let piece = pasty.divide().unwrap();
    assert_eq!(pasty.quantity, 2);
    assert_eq!(piece.quantity, 1);
}

#[test]
fn test_mystery_meat() {
    let mut raw_meat = Food::new(FoodKind::MysteryMeat);
    assert_eq!(raw_meat.eat(), 50); // 生吃效果减半

    raw_meat.cook();
    assert_eq!(raw_meat.eat(), 150);
}

#[test]
fn eating_counts_portions_down_to_zero() {
    let mut pasty = Food::new(FoodKind::Pasty);
    assert_eq!(pasty.eat(), 450);
    assert_eq!(pasty.quantity, 2);
    pasty.eat();
    pasty.eat();
    assert_eq!(pasty.quantity, 0);
    assert_eq!(pasty.eat(), 450);
    assert_eq!(pasty.quantity, 0);
}

#[test]
fn test_contamination() {
    let mut food = Food::new(FoodKind::Ration);
    food.contaminated = true;
    assert_eq!(food.eat(), (350 as f32 * 0.7) as u32);
}

#[test]
fn contaminated_value_matches_float_rule() {
    for kind in [FoodKind::Ration, FoodKind::Pasty, FoodKind::MysteryMeat, FoodKind::FrozenCarpaccio] {
        for cooked in [false, true] {
            for quantity in 0u8..=5 {
                let mut food = Food::new(kind);
                if cooked {
                    food.cook();
                }
                food.quantity = quantity;
                let clean = food.value();
                food.contaminated = true;
                let base = if quantity == 0 { 0 } else { clean / quantity as usize };
                let expected = (base as f32 * 0.6) as usize * quantity as usize;
                assert_eq!(food.value(), expected);
            }
        }
    }
}

#[test]
fn contaminated_portion_matches_float_rule() {
    for energy in [0u32, 1, 7, 100, 350, 451, 65535, 1_000_000, 4_194_303] {
        let mut food = Food::new(FoodKind::Ration);
        food.energy = energy;
        food.contaminated = true;
        assert_eq!(food.eat(), (energy as f32 * 0.7) as u32);
    }
}

#[test]
fn only_pasty_divides() {
    let mut ration = Food::new(FoodKind::Ration);
    assert!(ration.divide().is_none());
    let mut pasty = Food::new(FoodKind::Pasty);
    let piece = pasty.divide().unwrap();
    assert_eq!(piece.energy, 150);
    pasty.divide().unwrap();
    assert!(pasty.divide().is_none());
    assert_eq!(pasty.quantity, 1);
}

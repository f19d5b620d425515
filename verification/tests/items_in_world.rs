use pixel_dungeon::ecs::{EntityId, Faction, GameClockState, GameConfig, GameState, GameStatus, InputBuffer, PlayerAction, Resources};
use pixel_dungeon::render::{format_messages, time_since, Clock, GameClock, GameOverRenderer, InventoryRenderer};
use pixel_dungeon::systems::inventory::InventorySystem;
use pixel_dungeon::world::{
    Actor, ConsumableEffect, EcsItem, GameWorld, Inventory, ItemSlot, ItemType, Position, StatType, Stats,
    WorldEntity,
};

fn resources(pending: Vec<PlayerAction>) -> Resources {
    Resources {
        input_buffer: InputBuffer { pending_actions: pending, completed_actions: Vec::new() },
        game_state: GameState {
            game_state: GameStatus::Running,
            message_log: Vec::new(),
            depth: 0,
            selected_class: None,
            frame_count: 0,
        },
        clock: GameClockState { turn_count: 0 },
        config: GameConfig { max_depth: 5 },
    }
}

fn item(name: &str, item_type: ItemType) -> EcsItem {
    EcsItem { name: name.to_string(), item_type, value: 5, identified: true, quantity: 1, level: 0, cursed: false, charges: None }
}

fn slot(it: EcsItem) -> ItemSlot {
    ItemSlot { item: Some(it), quantity: 1 }
}

fn hero(items: Vec<ItemSlot>, max_slots: usize) -> WorldEntity {
    WorldEntity {
        id: EntityId(1),
        is_player: true,
        position: Some(Position { x: 7, y: 7, z: 0 }),
        tile: None,
        actor: Some(Actor { name: "Hero".to_string(), faction: Faction::Player }),
        stats: Some(Stats { hp: 5, max_hp: 20, attack: 5, defense: 2, accuracy: 70, evasion: 10, level: 1, experience: 0 }),
        energy: None,
        hunger: None,
        inventory: Some(Inventory { items, max_slots }),
        item: None,
        ai: None,
        effects: None,
    }
}

fn floor_item(id: u64, x: i32, y: i32, it: EcsItem) -> WorldEntity {
    WorldEntity {
        id: EntityId(id),
        is_player: false,
        position: Some(Position { x, y, z: 0 }),
        tile: None,
        actor: None,
        stats: None,
        energy: None,
        hunger: None,
        inventory: None,
        item: Some(it),
        ai: None,
        effects: None,
    }
}

fn healing(amount: u32) -> ItemType {
    ItemType::Consumable { effect: ConsumableEffect::Healing { amount } }
}

#[test]
fn healing_potion_heals_up_to_max() {
    let mut w = GameWorld { entities: vec![hero(vec![slot(item("Red Potion", healing(30)))], 10)], next_id: 50 };
    let mut r = resources(vec![PlayerAction::UseItem(0)]);
    InventorySystem.run(&mut w, &mut r);
    let p = &w.entities[0];
    assert_eq!(p.stats.unwrap().hp, 20);
    assert!(p.inventory.as_ref().unwrap().items.is_empty());
    assert_eq!(r.game_state.message_log, vec!["You drink a Red Potion, healing 30 HP.".to_string()]);
    assert!(r.input_buffer.pending_actions.is_empty());
}

#[test]
fn buffs_and_damage() {
    let buff = ItemType::Consumable { effect: ConsumableEffect::Buff { stat: StatType::Attack, value: -2, duration: 5 } };
    let dmg = ItemType::Consumable { effect: ConsumableEffect::Damage { amount: 9 } };
    let mut w = GameWorld { entities: vec![hero(vec![slot(item("Grey Potion", buff)), slot(item("Bad Potion", dmg))], 10)], next_id: 50 };
    let mut r = resources(vec![PlayerAction::UseItem(0), PlayerAction::UseItem(0)]);
    InventorySystem.run(&mut w, &mut r);
    let st = w.entities[0].stats.unwrap();
    assert_eq!(st.attack, 3);
    assert_eq!(st.hp, 0);
    assert_eq!(
        r.game_state.message_log,
        vec!["You feel stronger (-2)!".to_string(), "You drink a Bad Potion, taking 9 damage!".to_string()]
    );
}

#[test]
fn unusable_and_missing_slots() {
    let sword = item("Sword", ItemType::Weapon { damage: 4 });
    let mut w = GameWorld { entities: vec![hero(vec![slot(sword), ItemSlot { item: None, quantity: 0 }], 10)], next_id: 50 };
    let mut r = resources(vec![PlayerAction::UseItem(0), PlayerAction::UseItem(1), PlayerAction::UseItem(5), PlayerAction::Wait]);
    InventorySystem.run(&mut w, &mut r);
    assert_eq!(w.entities[0].inventory.as_ref().unwrap().items.len(), 2);
    assert_eq!(
        r.game_state.message_log,
        vec!["Cannot use this item.".to_string(), "No item in this slot.".to_string(), "Invalid inventory slot.".to_string()]
    );
    assert_eq!(r.input_buffer.pending_actions, vec![PlayerAction::UseItem(5), PlayerAction::Wait]);
}

#[test]
fn teleport_lands_in_the_room() {
    let tp = ItemType::Consumable { effect: ConsumableEffect::Teleport };
    for _ in 0..20 {
        let mut w = GameWorld { entities: vec![hero(vec![slot(item("Blue Scroll", tp))], 10)], next_id: 50 };
        let mut r = resources(vec![PlayerAction::UseItem(0)]);
        InventorySystem.run(&mut w, &mut r);
        let pos = w.entities[0].position.unwrap();
        assert!(5 <= pos.x && pos.x < 20 && 5 <= pos.y && pos.y < 20 && pos.z == 0);
        assert_eq!(r.game_state.message_log, vec!["You teleport randomly!".to_string()]);
    }
}

#[test]
fn dropped_item_is_picked_up_again() {
    let mut w = GameWorld { entities: vec![hero(vec![slot(item("Gem", ItemType::Quest))], 10)], next_id: 50 };
    let mut r = resources(vec![PlayerAction::DropItem(0)]);
    InventorySystem.run(&mut w, &mut r);
    assert_eq!(w.entities.len(), 1);
    assert_eq!(w.next_id, 51);
    let inv = w.entities[0].inventory.as_ref().unwrap();
    assert_eq!(inv.items.len(), 1);
    assert_eq!(inv.items[0].item.as_ref().unwrap().name, "Gem");
    assert_eq!(r.game_state.message_log, vec!["You dropped Gem.".to_string(), "You picked up Gem.".to_string()]);
}

#[test]
fn pickup_respects_room() {
    let mut w = GameWorld {
        entities: vec![
            floor_item(2, 7, 7, item("A", ItemType::Key)),
            hero(vec![], 1),
            floor_item(3, 7, 7, item("B", ItemType::Key)),
            floor_item(4, 1, 1, item("C", ItemType::Key)),
        ],
        next_id: 50,
    };
    let mut r = resources(vec![]);
    InventorySystem.run(&mut w, &mut r);
    assert_eq!(w.entities.len(), 3);
    assert_eq!(w.entities[0].id, EntityId(1));
    assert_eq!(w.entities[0].inventory.as_ref().unwrap().items[0].item.as_ref().unwrap().name, "A");
    assert_eq!(r.game_state.message_log, vec!["You picked up A.".to_string()]);
    let mut r = resources(vec![]);
    InventorySystem.run(&mut w, &mut r);
    assert_eq!(r.game_state.message_log, vec!["Your inventory is full!".to_string()]);
    assert_eq!(w.entities.len(), 3);
}

#[test]
fn message_line_and_last_message() {
    let logs: Vec<String> = vec!["a".to_string(), "b".to_string(), "c".to_string(), "d".to_string()];
    assert_eq!(format_messages(&logs), "b | c | d");
    assert_eq!(format_messages(&vec!["only".to_string()]), "only");
    assert_eq!(format_messages(&Vec::new()), "Welcome to Pixel Dungeon!");
    let mut r = resources(vec![]);
    let screen = GameOverRenderer::new();
    assert_eq!(screen.get_last_message(&r), "没有什么特别的事情发生");
    r.game_state.message_log = logs;
    assert_eq!(screen.get_last_message(&r), "d");
    assert_eq!(screen.calculate_playtime(&r), 15);
}

#[test]
fn item_descriptions() {
    let ui = InventoryRenderer::new();
    let potion = item("Red Potion", healing(12));
    assert_eq!(ui.get_item_description(&potion, None), "💚 恢复 12 点生命值");
    assert_eq!(ui.get_item_icon(&potion), "🧪");
    let text = "A red brew".to_string();
    assert_eq!(ui.get_item_description(&potion, Some(&text)), "Red Potion — A red brew");
    let empty = String::new();
    assert_eq!(ui.get_item_description(&potion, Some(&empty)), "💚 恢复 12 点生命值");
    let buff = item("x", ItemType::Consumable { effect: ConsumableEffect::Buff { stat: StatType::Hp, value: -3, duration: 4 } });
    assert_eq!(ui.get_item_description(&buff, None), "✨ -3点HP上限，持续4回合");
    let ring = item("r", ItemType::Ring { defense_bonus: 2, crit_percent: 15 });
    assert_eq!(ui.get_item_description(&ring, None), "💍 防御+2 暴击+15%");
    let wand = item("w", ItemType::Wand { charges: 1, max_charges: 3 });
    assert_eq!(ui.get_item_description(&wand, None), "🔮 充能: 1/3");
    let dart = item("d", ItemType::Throwable { min_damage: 1, max_damage: 4, range: 6 });
    assert_eq!(ui.get_item_description(&dart, None), "🎯 伤害: 1-4 (射程:6)");
    assert_eq!(ui.get_item_icon(&dart), "🎯");
}

#[test]
fn game_clock_keeps_its_step_and_measures_elapsed_time() {
    let clock = GameClock::new(16);
    assert_eq!(clock.tick_rate(), 16);
    let now = clock.now();
    assert!(now >= clock.start_time_ms);
    // A moment in the future has not passed yet.
    assert_eq!(clock.elapsed(now + 1_000_000), 0);
    assert!(clock.elapsed(0) >= now);
}

#[test]
fn every_player_picks_up_what_lies_under_it() {
    let mut second = hero(vec![], 5);
    second.id = EntityId(9);
    second.position = Some(Position { x: 1, y: 1, z: 0 });
    let mut full = hero(vec![], 0);
    full.id = EntityId(8);
    let mut w = GameWorld {
        entities: vec![
            hero(vec![], 5),
            floor_item(2, 7, 7, item("A", ItemType::Key)),
            second,
            floor_item(3, 1, 1, item("B", ItemType::Key)),
            full,
        ],
        next_id: 50,
    };
    let mut r = resources(vec![]);
    InventorySystem.run(&mut w, &mut r);
    assert_eq!(w.entities.len(), 3);
    assert_eq!(w.entities[0].inventory.as_ref().unwrap().items[0].item.as_ref().unwrap().name, "A");
    assert_eq!(w.entities[1].id, EntityId(9));
    assert_eq!(w.entities[1].inventory.as_ref().unwrap().items[0].item.as_ref().unwrap().name, "B");
    assert_eq!(w.entities[2].id, EntityId(8));
    assert_eq!(
        r.game_state.message_log,
        vec!["Your inventory is full!".to_string(), "You picked up A.".to_string(), "You picked up B.".to_string()]
    );
}

#[test]
fn two_players_on_one_cell_both_take_the_item() {
    let mut second = hero(vec![], 5);
    second.id = EntityId(9);
    let mut w = GameWorld {
        entities: vec![hero(vec![], 5), second, floor_item(2, 7, 7, item("A", ItemType::Key))],
        next_id: 50,
    };
    let mut r = resources(vec![]);
    InventorySystem.run(&mut w, &mut r);
    assert_eq!(w.entities.len(), 2);
    assert_eq!(w.entities[0].inventory.as_ref().unwrap().items.len(), 1);
    assert_eq!(w.entities[1].inventory.as_ref().unwrap().items.len(), 1);
    assert_eq!(r.game_state.message_log, vec!["You picked up A.".to_string(), "You picked up A.".to_string()]);
}

#[test]
fn only_the_first_player_uses_items() {
    let mut second = hero(vec![slot(item("Blue Potion", healing(5)))], 10);
    second.id = EntityId(9);
    second.position = Some(Position { x: 2, y: 2, z: 0 });
    let mut w = GameWorld {
        entities: vec![hero(vec![slot(item("Red Potion", healing(3)))], 10), second],
        next_id: 50,
    };
    let mut r = resources(vec![PlayerAction::UseItem(0)]);
    InventorySystem.run(&mut w, &mut r);
    assert_eq!(w.entities[0].stats.unwrap().hp, 8);
    assert!(w.entities[0].inventory.as_ref().unwrap().items.is_empty());
    assert_eq!(w.entities[1].stats.unwrap().hp, 5);
    assert_eq!(w.entities[1].inventory.as_ref().unwrap().items.len(), 1);
}

#[test]
fn time_since_measures_from_an_earlier_reading() {
    assert_eq!(time_since(1_000, 400), 600);
    assert_eq!(time_since(400, 400), 0);
    assert_eq!(time_since(400, 1_000), 0);
}

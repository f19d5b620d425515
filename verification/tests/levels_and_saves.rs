use pixel_dungeon::ecs::{EntityId, Faction, GameClockState, GameConfig, GameState, GameStatus, InputBuffer, Resources};
use pixel_dungeon::save::{
    default_player_energy, default_version, AutoSave, SaveData, SaveError, SaveSystem, TurnPhase, TurnStateData,
    SAVE_VERSION,
};
use pixel_dungeon::systems::dungeon::DungeonSystem;
use pixel_dungeon::world::{GameWorld, Position, TerrainType, Tile, WorldEntity};

fn resources(max_depth: usize) -> Resources {
    Resources {
        input_buffer: InputBuffer { pending_actions: Vec::new(), completed_actions: Vec::new() },
        game_state: GameState { game_state: GameStatus::Running, message_log: Vec::new(), depth: 0, selected_class: None, frame_count: 0 },
        clock: GameClockState { turn_count: 0 },
        config: GameConfig { max_depth },
    }
}

fn old_tile(id: u64, z: i32) -> WorldEntity {
    WorldEntity {
        id: EntityId(id),
        is_player: false,
        position: Some(Position { x: 0, y: 0, z }),
        tile: Some(Tile { terrain_type: TerrainType::Water, is_passable: false, blocks_sight: false, has_items: false, has_monster: false }),
        actor: None,
        stats: None,
        energy: None,
        hunger: None,
        inventory: None,
        item: None,
        ai: None,
        effects: None,
    }
}

#[test]
fn basic_level_layout() {
    let mut w = GameWorld { entities: vec![old_tile(1, 1), old_tile(2, 0)], next_id: 10 };
    let r = resources(5);
    let mut sys = DungeonSystem;
    sys.generate_level(&mut w, &r, 1);
    assert_eq!(w.entities.len(), 1 + 400 + 4);
    assert_eq!(w.entities[0].id, EntityId(2));
    assert_eq!(w.next_id, 414);
    let corner = &w.entities[1];
    assert_eq!(corner.position, Some(Position { x: 5, y: 5, z: 1 }));
    assert_eq!(corner.tile.unwrap().terrain_type, TerrainType::Wall);
    let inside = &w.entities[1 + 21];
    assert_eq!(inside.position, Some(Position { x: 6, y: 6, z: 1 }));
    assert!(inside.tile.unwrap().is_passable);
    assert_eq!(w.entities[401].tile.unwrap().terrain_type, TerrainType::StairsUp);
    assert_eq!(w.entities[401].position, Some(Position { x: 9, y: 9, z: 1 }));
    assert_eq!(w.entities[402].tile.unwrap().terrain_type, TerrainType::StairsDown);
    let goblin = &w.entities[403];
    assert_eq!(goblin.actor.as_ref().unwrap().name, "Goblin 1");
    assert_eq!(goblin.actor.as_ref().unwrap().faction, Faction::Enemy);
    let st = goblin.stats.unwrap();
    assert_eq!((st.hp, st.attack, st.defense, st.experience), (30, 7, 3, 15));
    let potion = w.entities[404].item.as_ref().unwrap();
    assert_eq!(potion.name, "Health Potion");
    assert_eq!(potion.value, 10);
}

#[test]
fn top_and_bottom_levels() {
    let mut w = GameWorld { entities: vec![], next_id: 0 };
    DungeonSystem.generate_level(&mut w, &resources(5), 0);
    assert_eq!(w.entities.len(), 401);
    assert_eq!(w.entities[400].tile.unwrap().terrain_type, TerrainType::StairsDown);
    let mut w = GameWorld { entities: vec![], next_id: 0 };
    DungeonSystem.generate_level(&mut w, &resources(5), 4);
    assert_eq!(w.entities.len(), 403);
    assert_eq!(w.entities[400].tile.unwrap().terrain_type, TerrainType::StairsUp);
}

fn save(version: u32, depth: usize, max_hp: u32, turns: u32, clock: u32) -> SaveData {
    SaveData {
        version,
        dungeon_depth: depth,
        hero_max_hp: max_hp,
        hero_turns: turns,
        game_seed: 4242,
        turn_state: TurnStateData::default(),
        clock_turn_count: clock,
        player_energy: default_player_energy(),
        player_hunger_last_turn: 0,
        entities: Vec::new(),
    }
}

#[test]
fn migration_of_first_version_saves() {
    let mut d = save(default_version(), 3, 20, 77, 0);
    d.migrate();
    assert_eq!(d.version, SAVE_VERSION);
    assert_eq!(d.clock_turn_count, 77);
    d.migrate();
    assert_eq!(d.clock_turn_count, 77);

    let mut d = save(1, 3, 20, 77, 5);
    d.migrate();
    assert_eq!((d.version, d.clock_turn_count), (2, 5));

    let mut d = save(7, 3, 20, 77, 0);
    d.migrate();
    assert_eq!((d.version, d.clock_turn_count), (7, 0));
}

#[test]
fn validation() {
    assert_eq!(save(2, 1, 1, 0, 0).validate(), Ok(()));
    assert_eq!(save(2, 0, 1, 0, 0).validate(), Err(SaveError::InvalidDungeonDepth));
    assert_eq!(save(2, 1, 0, 0, 0).validate(), Err(SaveError::InvalidHeroHp));
    assert_eq!(save(2, 0, 0, 0, 0).validate(), Err(SaveError::InvalidDungeonDepth));
    assert_eq!(SaveError::InvalidHeroHp.message(), "Invalid hero HP");
}

#[test]
fn slots_and_paths() {
    let sys = SaveSystem::new("saves".to_string(), 3);
    assert_eq!(sys.max_slots(), 3);
    assert_eq!(sys.save_dir(), "saves");
    assert_eq!(sys.save_path(2), Some("saves/save_2.sav".to_string()));
    assert_eq!(sys.save_path(3), None);
    assert_eq!(sys.check_slot(3), Err(SaveError::InvalidSlot));
    assert_eq!(sys.check_slot(0), Ok(()));
    assert!(sys.has_save(1, true));
    assert!(!sys.has_save(5, true));
    assert!(!sys.has_save(1, false));
    let sys = SaveSystem::new("saves/".to_string(), 12);
    assert_eq!(sys.save_path(11), Some("saves/save_11.sav".to_string()));
    let sys = SaveSystem::new(String::new(), 1);
    assert_eq!(sys.save_path(0), Some("save_0.sav".to_string()));
    assert_eq!(SaveSystem::slot_file_name(42), "save_42.sav");
}

#[test]
fn auto_save_schedule() {
    let mut auto = AutoSave::new(SaveSystem::new("s".to_string(), 3), 1000);
    assert_eq!(auto.is_due(5), Ok(true));
    auto.mark_saved(5);
    assert_eq!(auto.last_save_time(), Some(5));
    assert_eq!(auto.is_due(5), Ok(false));
    assert_eq!(auto.is_due(1004), Ok(false));
    assert_eq!(auto.is_due(1005), Ok(true));
    assert_eq!(auto.is_due(4), Err(SaveError::ClockWentBackwards));
    auto.set_save_interval(0);
    assert_eq!(auto.save_interval(), 0);
    assert_eq!(auto.is_due(5), Ok(true));
}

#[test]
fn turn_state_defaults() {
    let t = TurnStateData::default();
    assert_eq!(t.current_phase, TurnPhase::PlayerTurn);
    assert!(!t.player_action_taken);
    assert_eq!(TurnPhase::default(), TurnPhase::PlayerTurn);
}

#[test]
fn entity_store_gives_back_what_was_saved() {
    let mut store = pixel_dungeon::store::EntityStore::new();
    let empty = store.load();
    assert!(empty.entities.is_empty());
    assert_eq!(empty.next_id, 1);
    let mut world = pixel_dungeon::world::GameWorld { entities: Vec::new(), next_id: 1 };
    DungeonSystem.generate_level(&mut world, &resources(3), 0);
    let ids: Vec<u64> = world.entities.iter().map(|e| e.id.0).collect();
    let next = world.next_id;
    store.save(world.clone());
    let back = store.load();
    assert_eq!(back.entities.iter().map(|e| e.id.0).collect::<Vec<_>>(), ids);
    assert_eq!(back.next_id, next);
    // Saving again replaces the stored entities.
    let mut smaller = back.clone();
    smaller.entities.truncate(2);
    store.save(smaller);
    let again = store.load();
    assert_eq!(again.entities.len(), 2);
    assert_eq!(again.entities[1].id.0, ids[1]);
}

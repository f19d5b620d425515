use pixel_dungeon::ecs::{
    Direction, Energy, EntityId, Faction, GameClockState, GameConfig, GameOverReason, GameState,
    GameStatus, InputBuffer, PlayerAction, Resources,
};
use pixel_dungeon::events::GameEvent;
use pixel_dungeon::systems::dungeon::DungeonSystem;
use pixel_dungeon::systems::hunger::HungerSystem;
use pixel_dungeon::systems::movement::MovementSystem;
use pixel_dungeon::systems::{EcsWorld, EnergySystem, RenderingSystem, SystemResult, TimeSystem};
use pixel_dungeon::world::{
    can_move_to, find_player_entity, Actor, GameWorld, Hunger, Position, Stats, TerrainType, Tile,
    WorldEntity,
};

fn resources() -> Resources {
    Resources {
        input_buffer: InputBuffer { pending_actions: Vec::new(), completed_actions: Vec::new() },
        game_state: GameState {
            game_state: GameStatus::Running,
            message_log: Vec::new(),
            depth: 0,
            selected_class: None,
            frame_count: 0,
        },
        clock: GameClockState { turn_count: 0 },
        config: GameConfig { max_depth: 5 },
    }
}

fn bare(id: u64) -> WorldEntity {
    WorldEntity {
        id: EntityId(id),
        is_player: false,
        position: None,
        tile: None,
        actor: None,
        stats: None,
        energy: None,
        hunger: None,
        inventory: None,
        item: None,
        ai: None,
        effects: None,
    }
}

fn tile(id: u64, x: i32, y: i32, z: i32, terrain: TerrainType, passable: bool) -> WorldEntity {
    let mut e = bare(id);
    e.position = Some(Position { x, y, z });
    e.tile = Some(Tile { terrain_type: terrain, is_passable: passable, blocks_sight: !passable, has_items: false, has_monster: false });
    e
}

fn stats(hp: u32) -> Stats {
    Stats { hp, max_hp: 20, attack: 5, defense: 2, accuracy: 70, evasion: 10, level: 1, experience: 0 }
}

fn player(id: u64, x: i32, y: i32, z: i32) -> WorldEntity {
    let mut e = bare(id);
    e.is_player = true;
    e.position = Some(Position { x, y, z });
    e.actor = Some(Actor { name: "Hero".to_string(), faction: Faction::Player });
    e.stats = Some(stats(20));
    e
}

fn world(entities: Vec<WorldEntity>) -> GameWorld {
    GameWorld { entities, next_id: 100 }
}

#[test]
fn descend_on_stairs() {
    let mut w = world(vec![tile(1, 3, 3, 0, TerrainType::StairsDown, true), player(2, 3, 3, 0)]);
    let mut r = resources();
    r.input_buffer.pending_actions = vec![PlayerAction::Descend, PlayerAction::Wait];
    let mut sys = DungeonSystem;
    assert!(matches!(sys.run(&mut w, &mut r), SystemResult::Continue));
    assert_eq!(w.entities[1].position, Some(Position { x: 10, y: 10, z: 1 }));
    assert_eq!(r.game_state.depth, 1);
    assert_eq!(r.game_state.message_log, vec!["You descend to the next level...".to_string()]);
    assert_eq!(r.input_buffer.pending_actions, vec![PlayerAction::Wait]);
}

#[test]
fn descend_off_stairs_is_handed_back() {
    let mut w = world(vec![tile(1, 3, 3, 0, TerrainType::Floor, true), player(2, 3, 3, 0)]);
    let mut r = resources();
    r.input_buffer.pending_actions = vec![PlayerAction::Descend];
    DungeonSystem.run(&mut w, &mut r);
    assert_eq!(w.entities[1].position, Some(Position { x: 3, y: 3, z: 0 }));
    assert_eq!(r.game_state.message_log, vec!["You need to stand on stairs to descend.".to_string()]);
    assert_eq!(r.input_buffer.pending_actions, vec![PlayerAction::Descend]);
}

#[test]
fn ascend_logs_twice_without_events_and_once_with_them() {
    let mut w = world(vec![tile(1, 4, 4, 2, TerrainType::StairsUp, true), player(2, 4, 4, 2)]);
    let mut r = resources();
    r.input_buffer.pending_actions = vec![PlayerAction::Ascend];
    DungeonSystem.run(&mut w, &mut r);
    assert_eq!(r.game_state.depth, 1);
    assert_eq!(
        r.game_state.message_log,
        vec!["You ascend to the previous level...".to_string(), "You ascend to the previous level...".to_string()]
    );
    assert_eq!(w.entities[1].position, Some(Position { x: 10, y: 10, z: 1 }));

    let mut r2 = resources();
    r2.input_buffer.pending_actions = vec![PlayerAction::Ascend];
    let mut ecs = EcsWorld {
        world: world(vec![tile(1, 4, 4, 2, TerrainType::StairsUp, true), player(2, 4, 4, 2)]),
        resources: r2,
        events: Vec::new(),
    };
    DungeonSystem::run_with_events(&mut ecs);
    assert_eq!(ecs.resources.game_state.message_log, vec!["You ascend to the previous level...".to_string()]);
    assert!(matches!(ecs.events[0], GameEvent::LevelChanged { old_level: 2, new_level: 1 }));
}

#[test]
fn no_way_up_from_the_top() {
    let mut w = world(vec![tile(1, 4, 4, 0, TerrainType::StairsUp, true), player(2, 4, 4, 0)]);
    let mut r = resources();
    r.input_buffer.pending_actions = vec![PlayerAction::Ascend];
    DungeonSystem.run(&mut w, &mut r);
    assert_eq!(r.game_state.message_log, vec!["You can't go up from here.".to_string()]);
    assert!(r.input_buffer.pending_actions.is_empty());
}

#[test]
fn message_log_keeps_ten() {
    let mut w = world(vec![tile(1, 3, 3, 0, TerrainType::Floor, true), player(2, 3, 3, 0)]);
    let mut r = resources();
    r.input_buffer.pending_actions = vec![PlayerAction::Descend; 12];
    DungeonSystem.run(&mut w, &mut r);
    assert_eq!(r.game_state.message_log.len(), 10);
    assert_eq!(r.input_buffer.pending_actions.len(), 12);
}

#[test]
fn hunger_ticks_every_twenty_turns() {
    let mut p = player(1, 0, 0, 0);
    p.hunger = Some(Hunger { satiety: 6, last_hunger_turn: 0 });
    let mut w = world(vec![p]);
    let mut r = resources();
    r.clock.turn_count = 19;
    HungerSystem.run(&mut w, &mut r);
    assert_eq!(w.entities[0].hunger.unwrap().satiety, 6);
    r.clock.turn_count = 40;
    HungerSystem.run(&mut w, &mut r);
    assert_eq!(w.entities[0].hunger.unwrap(), Hunger { satiety: 5, last_hunger_turn: 40 });
    assert_eq!(r.game_state.message_log, vec!["你感到饥饿...".to_string()]);
}

#[test]
fn starving_player_dies() {
    let mut p = player(1, 0, 0, 0);
    p.hunger = Some(Hunger { satiety: 1, last_hunger_turn: 0 });
    p.stats = Some(stats(1));
    let mut w = world(vec![p]);
    let mut r = resources();
    r.clock.turn_count = 20;
    let result = HungerSystem.run(&mut w, &mut r);
    assert!(matches!(result, SystemResult::Stop));
    assert_eq!(w.entities[0].stats.unwrap().hp, 0);
    assert!(matches!(r.game_state.game_state, GameStatus::GameOver { reason: GameOverReason::Died("死亡") }));
    assert_eq!(r.game_state.message_log, vec!["你正在饿死！".to_string(), "你死于饥饿...".to_string()]);
}

#[test]
fn hunger_events() {
    let mut p = player(1, 0, 0, 0);
    p.hunger = Some(Hunger { satiety: 1, last_hunger_turn: 0 });
    p.stats = Some(stats(3));
    let mut r = resources();
    r.clock.turn_count = 25;
    let mut ecs = EcsWorld { world: world(vec![p]), resources: r, events: Vec::new() };
    let result = HungerSystem::run_with_events(&mut ecs);
    assert!(matches!(result, SystemResult::Continue));
    assert_eq!(ecs.events.len(), 3);
    assert!(matches!(ecs.events[0], GameEvent::HungerChanged { old_satiety: 1, new_satiety: 0, .. }));
    assert!(matches!(ecs.events[1], GameEvent::PlayerStarving { .. }));
    assert!(matches!(ecs.events[2], GameEvent::StarvationDamage { damage: 1, .. }));
    assert_eq!(ecs.world.entities[0].stats.unwrap().hp, 2);
}

#[test]
fn movement_into_floor_and_wall() {
    let mut w = world(vec![
        tile(1, 5, 4, 0, TerrainType::Floor, true),
        tile(2, 6, 5, 0, TerrainType::Wall, false),
        player(3, 5, 5, 0),
    ]);
    let mut r = resources();
    r.input_buffer.pending_actions = vec![
        PlayerAction::Move(Direction::East),
        PlayerAction::Move(Direction::North),
        PlayerAction::Wait,
    ];
    MovementSystem.run(&mut w, &mut r);
    assert_eq!(w.entities[2].position, Some(Position { x: 5, y: 4, z: 0 }));
    assert_eq!(r.input_buffer.completed_actions, vec![PlayerAction::Move(Direction::North)]);
    assert_eq!(r.input_buffer.pending_actions, vec![PlayerAction::Move(Direction::East), PlayerAction::Wait]);
}

#[test]
fn first_tile_decides_passability() {
    let w = world(vec![
        tile(1, 1, 1, 0, TerrainType::Wall, false),
        tile(2, 1, 1, 0, TerrainType::Floor, true),
    ]);
    assert!(!can_move_to(&w, Position { x: 1, y: 1, z: 0 }));
    assert!(!can_move_to(&w, Position { x: 9, y: 9, z: 0 }));
    assert_eq!(find_player_entity(&w), None);
}

#[test]
fn time_and_energy() {
    let mut e = bare(1);
    e.energy = Some(Energy { current: 95, max: 100, regeneration_rate: 0 });
    let mut f = bare(2);
    f.energy = Some(Energy { current: 95, max: 100, regeneration_rate: 10 });
    let mut w = world(vec![e, f]);
    let mut r = resources();
    r.clock.turn_count = u32::MAX;
    TimeSystem.run(&mut w, &mut r);
    assert_eq!(r.clock.turn_count, u32::MAX);
    assert_eq!(w.entities[0].energy.unwrap().current, 96);
    assert_eq!(w.entities[1].energy.unwrap().current, 100);
    w.entities[1].energy = Some(Energy { current: 3, max: 70, regeneration_rate: 10 });
    EnergySystem.run(&mut w, &mut r);
    assert_eq!(w.entities[1].energy.unwrap().current, 70);
    assert!(EnergySystem.is_energy_system());
}

#[test]
fn frame_counter_wraps() {
    let mut w = world(vec![]);
    let mut r = resources();
    r.game_state.frame_count = u64::MAX;
    RenderingSystem.run(&mut w, &mut r);
    assert_eq!(r.game_state.frame_count, 0);
    RenderingSystem.run(&mut w, &mut r);
    assert_eq!(r.game_state.frame_count, 1);
}

#[test]
fn starving_creature_loses_a_hit_point_every_turn() {
    let mut p = player(1, 0, 0, 0);
    p.hunger = Some(Hunger { satiety: 0, last_hunger_turn: 20 });
    p.stats = Some(stats(5));
    let mut r = resources();
    r.clock.turn_count = 21;
    let mut ecs = EcsWorld { world: world(vec![p]), resources: r, events: Vec::new() };
    // No loss of satiety is due, but the creature is starving.
    assert!(matches!(HungerSystem::run_with_events(&mut ecs), SystemResult::Continue));
    assert_eq!(ecs.world.entities[0].stats.unwrap().hp, 4);
    assert_eq!(ecs.world.entities[0].hunger.unwrap(), Hunger { satiety: 0, last_hunger_turn: 20 });
    assert_eq!(ecs.events.len(), 2);
    assert!(matches!(ecs.events[0], GameEvent::PlayerStarving { .. }));
    assert!(matches!(ecs.events[1], GameEvent::StarvationDamage { damage: 1, .. }));
    ecs.resources.clock.turn_count = 22;
    HungerSystem::run_with_events(&mut ecs);
    assert_eq!(ecs.world.entities[0].stats.unwrap().hp, 3);

    // The message-log variant does the same.
    let mut p = player(1, 0, 0, 0);
    p.hunger = Some(Hunger { satiety: 0, last_hunger_turn: 20 });
    p.stats = Some(stats(5));
    let mut w = world(vec![p]);
    let mut r = resources();
    r.clock.turn_count = 21;
    HungerSystem.run(&mut w, &mut r);
    assert_eq!(w.entities[0].stats.unwrap().hp, 4);
    assert_eq!(r.game_state.message_log, vec!["你正在饿死！".to_string()]);
}

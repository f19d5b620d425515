use pixel_dungeon::ecs::{Direction, Energy, EntityId, Faction, GameClockState, GameConfig, GameOverReason, GameState, GameStatus, InputBuffer, PlayerAction, Resources};
use pixel_dungeon::events::{GameEvent, LogLevel};
use pixel_dungeon::systems::ai::{AIActionIntent, AIIntentType, AISystem};
use pixel_dungeon::systems::combat::{AttackPlan, CombatOutcome, CombatRecord, CombatSystem};
use pixel_dungeon::systems::effects::{EffectPhase, EffectSystem};
use pixel_dungeon::systems::fov::FOVSystem;
use pixel_dungeon::systems::{EcsWorld, SystemResult};
use pixel_dungeon::world::{
    AIState, AIType, Actor, Ai, EffectType, GameWorld, Position, Stats, StatusEffect, StatusEffects, TerrainType, Tile,
    WorldEntity,
};

fn resources() -> Resources {
    Resources {
        input_buffer: InputBuffer { pending_actions: Vec::new(), completed_actions: Vec::new() },
        game_state: GameState {
            game_state: GameStatus::Running,
            message_log: Vec::new(),
            depth: 0,
            selected_class: None,
            frame_count: 0,
        },
        clock: GameClockState { turn_count: 1 },
        config: GameConfig { max_depth: 3 },
    }
}

fn bare(id: u64) -> WorldEntity {
    WorldEntity {
        id: EntityId(id),
        is_player: false,
        position: None,
        tile: None,
        actor: None,
        stats: None,
        energy: None,
        hunger: None,
        inventory: None,
        item: None,
        ai: None,
        effects: None,
    }
}

fn floor(id: u64, x: i32, y: i32, passable: bool) -> WorldEntity {
    let mut e = bare(id);
    e.position = Some(Position { x, y, z: 0 });
    e.tile = Some(Tile { terrain_type: if passable { TerrainType::Floor } else { TerrainType::Wall }, is_passable: passable, blocks_sight: !passable, has_items: false, has_monster: false });
    e
}

fn stats(hp: u32) -> Stats {
    Stats { hp, max_hp: 30, attack: 5, defense: 2, accuracy: 70, evasion: 10, level: 1, experience: 0 }
}

fn goblin(id: u64, x: i32, y: i32) -> WorldEntity {
    let mut e = bare(id);
    e.position = Some(Position { x, y, z: 0 });
    e.actor = Some(Actor { name: "Goblin".to_string(), faction: Faction::Enemy });
    e.stats = Some(stats(30));
    e.energy = Some(Energy { current: 100, max: 100, regeneration_rate: 1 });
    e.ai = Some(Ai { ai_type: AIType::Aggressive, state: AIState::Idle, target: None });
    e
}

fn intent(id: u64, t: AIIntentType, target: Option<EntityId>) -> AIActionIntent {
    AIActionIntent { entity: EntityId(id), intent_type: t, target_entity: target, target_position: None, reason: String::new() }
}

#[test]
fn directions_and_steps() {
    assert_eq!(AISystem::signum_to_direction(1, -1), Direction::NorthEast);
    assert_eq!(AISystem::signum_to_direction(0, 0), Direction::North);
    assert_eq!(AISystem::signum_to_direction(-1, 1), Direction::SouthWest);
    assert_eq!(AISystem::direction_to_offset(Direction::West), (-1, 0));
    for d in [Direction::North, Direction::South, Direction::East, Direction::West, Direction::NorthEast, Direction::NorthWest, Direction::SouthEast, Direction::SouthWest] {
        let (dx, dy) = AISystem::direction_to_offset(d);
        assert_eq!(AISystem::signum_to_direction(dx, dy), d);
    }
}

#[test]
fn moving_and_waiting_cost_energy() {
    let mut w = GameWorld { entities: vec![floor(1, 6, 5, true), goblin(2, 5, 5)], next_id: 10 };
    let mut events = Vec::new();
    AISystem::execute_intent(&mut w, &intent(2, AIIntentType::Move(Direction::East), None), &mut events);
    assert_eq!(w.entities[1].position, Some(Position { x: 6, y: 5, z: 0 }));
    assert_eq!(w.entities[1].energy.unwrap().current, 0);
    assert!(matches!(events[0], GameEvent::EntityMoved { from_x: 5, from_y: 5, to_x: 6, to_y: 5, .. }));

    let mut w = GameWorld { entities: vec![floor(1, 6, 5, false), goblin(2, 5, 5)], next_id: 10 };
    let mut events = Vec::new();
    AISystem::execute_intent(&mut w, &intent(2, AIIntentType::Move(Direction::East), None), &mut events);
    assert_eq!(w.entities[1].position, Some(Position { x: 5, y: 5, z: 0 }));
    assert_eq!(w.entities[1].energy.unwrap().current, 0);
    assert!(events.is_empty());

    AISystem::execute_intent(&mut w, &intent(2, AIIntentType::Wait, None), &mut events);
    assert_eq!(w.entities[1].energy.unwrap().current, 0);
    w.entities[1].energy = Some(Energy { current: 80, max: 100, regeneration_rate: 1 });
    AISystem::execute_intent(&mut w, &intent(2, AIIntentType::Wait, None), &mut events);
    assert_eq!(w.entities[1].energy.unwrap().current, 30);
    AISystem::execute_intent(&mut w, &intent(2, AIIntentType::Attack(EntityId(9)), None), &mut events);
    match &events[0] {
        GameEvent::LogMessage { message, level } => {
            assert_eq!(message, "AI entity 2 attacks");
            assert_eq!(*level, LogLevel::Info);
        }
        _ => panic!("expected a log message"),
    }
}

#[test]
fn attack_of_a_missing_entity_is_still_announced() {
    let mut w = GameWorld { entities: vec![goblin(2, 5, 5)], next_id: 10 };
    let mut events = Vec::new();
    AISystem::execute_intent(&mut w, &intent(7, AIIntentType::Attack(EntityId(2)), None), &mut events);
    assert_eq!(events.len(), 1);
    match &events[0] {
        GameEvent::LogMessage { message, .. } => assert_eq!(message, "AI entity 7 attacks"),
        _ => panic!("expected a log message"),
    }
    assert_eq!(w.entities[0].energy, goblin(2, 5, 5).energy);
}

#[test]
fn patrol_steps_toward_its_point() {
    let mut w = GameWorld { entities: vec![floor(1, 4, 4, true), goblin(2, 5, 5)], next_id: 10 };
    let mut events = Vec::new();
    AISystem::execute_intent(&mut w, &intent(2, AIIntentType::Patrol(Position { x: 0, y: 0, z: 0 }), None), &mut events);
    assert_eq!(w.entities[1].position, Some(Position { x: 4, y: 4, z: 0 }));
}

#[test]
fn ai_state_follows_intent() {
    let mut w = GameWorld { entities: vec![goblin(2, 5, 5)], next_id: 10 };
    let mut events = Vec::new();
    AISystem::update_ai_state(&mut w, &intent(2, AIIntentType::Move(Direction::North), Some(EntityId(1))), &mut events);
    let ai = w.entities[0].ai.as_ref().unwrap();
    assert_eq!(ai.state, AIState::Chasing);
    assert_eq!(ai.target, Some(EntityId(1)));
    assert!(matches!(events[0], GameEvent::AITargetChanged { old_target: None, new_target: Some(EntityId(1)), .. }));
    AISystem::update_ai_state(&mut w, &intent(2, AIIntentType::Attack(EntityId(1)), Some(EntityId(1))), &mut events);
    assert_eq!(w.entities[0].ai.as_ref().unwrap().state, AIState::Attacking);
    assert_eq!(events.len(), 1);
}

#[test]
fn patrol_intent_picks_nearest_point() {
    let path = vec![Position { x: 10, y: 10, z: 0 }, Position { x: 3, y: -4, z: 0 }, Position { x: 4, y: -3, z: 0 }];
    let it = AISystem::generate_patrol_intent(EntityId(2), Position { x: 0, y: 0, z: 0 }, &path);
    assert_eq!(it.intent_type, AIIntentType::Patrol(Position { x: 3, y: -4, z: 0 }));
    assert_eq!(it.reason, "Patrolling to (3, -4)");
    let it = AISystem::generate_patrol_intent(EntityId(2), Position { x: 3, y: -4, z: 0 }, &path);
    assert_eq!(it.intent_type, AIIntentType::Wait);
    assert_eq!(it.reason, "At patrol point");
    let it = AISystem::generate_patrol_intent(EntityId(2), Position { x: 0, y: 0, z: 0 }, &Vec::new());
    assert_eq!(it.reason, "Empty patrol path");
    assert_eq!(AISystem::passive_intent(EntityId(3)).reason, "Passive AI waiting");
}

fn burning(hp: u32, damage: u32, turns: u32) -> WorldEntity {
    let mut e = goblin(2, 1, 1);
    e.stats = Some(stats(hp));
    e.effects = Some(StatusEffects { effects: vec![StatusEffect { effect_type: EffectType::Burning, turns, damage }], last_tick_turn: 0 });
    e
}

#[test]
fn effects_tick_and_expire() {
    let mut w = GameWorld { entities: vec![burning(10, 3, 2)], next_id: 10 };
    let mut r = resources();
    let mut sys = EffectSystem::new();
    assert_eq!(sys.phase, EffectPhase::EndOfTurn);
    sys.run(&mut w, &mut r);
    assert_eq!(w.entities[0].stats.unwrap().hp, 7);
    assert_eq!(w.entities[0].effects.as_ref().unwrap().effects[0].turns, 1);
    sys.run(&mut w, &mut r);
    assert_eq!(w.entities[0].stats.unwrap().hp, 7);
    r.clock.turn_count = 2;
    sys.run(&mut w, &mut r);
    assert_eq!(w.entities[0].stats.unwrap().hp, 4);
    assert!(w.entities[0].effects.as_ref().unwrap().effects.is_empty());
    assert_eq!(r.game_state.message_log, vec!["Goblin的Burning效果已消失".to_string()]);
}

#[test]
fn deadly_effects_remove_the_creature() {
    let mut ecs = EcsWorld { world: GameWorld { entities: vec![burning(2, 5, 3)], next_id: 10 }, resources: resources(), events: Vec::new() };
    let r = EffectSystem::run_with_events(&mut ecs, EffectPhase::EndOfTurn);
    assert!(matches!(r, SystemResult::Continue));
    assert!(ecs.world.entities.is_empty());
    assert_eq!(ecs.events.len(), 3);
    assert!(matches!(ecs.events[0], GameEvent::StatusEffectTicked { damage: 5, remaining_turns: 3, .. }));
    match &ecs.events[1] {
        GameEvent::EntityDied { entity_name, .. } => assert_eq!(entity_name, "Goblin"),
        _ => panic!("expected a death"),
    }
    let mut ecs = EcsWorld { world: GameWorld { entities: vec![burning(2, 5, 3)], next_id: 10 }, resources: resources(), events: Vec::new() };
    EffectSystem::run_with_events(&mut ecs, EffectPhase::StartOfTurn);
    assert_eq!(ecs.world.entities[0].stats.unwrap().hp, 2);
    assert_eq!(ecs.world.entities[0].effects.as_ref().unwrap().last_tick_turn, 1);
    assert!(ecs.events.is_empty());
}

#[test]
fn combat_target_and_outcome() {
    let mut hero = bare(1);
    hero.is_player = true;
    hero.position = Some(Position { x: 5, y: 5, z: 0 });
    hero.actor = Some(Actor { name: "Hero".to_string(), faction: Faction::Player });
    hero.stats = Some(stats(20));
    hero.energy = Some(Energy { current: 150, max: 200, regeneration_rate: 1 });
    let w = GameWorld { entities: vec![hero, goblin(2, 5, 4), goblin(3, 6, 5)], next_id: 10 };
    assert_eq!(CombatSystem::attack_target(&w, 0, Direction::North), Some(1));
    assert_eq!(CombatSystem::attack_target(&w, 0, Direction::East), Some(2));
    assert_eq!(CombatSystem::attack_target(&w, 0, Direction::South), None);

    let mut ecs = EcsWorld { world: w, resources: resources(), events: Vec::new() };
    let outcome = CombatOutcome {
        attacker_hp: 0,
        defender_hp: 0,
        records: vec![CombatRecord::CombatStarted { attacker: EntityId(1), defender: EntityId(2) }, CombatRecord::Ambush],
        logs: vec!["hit".to_string()],
    };
    CombatSystem::apply_outcome(&mut ecs, 0, 1, &outcome, &"Hero".to_string(), &"Goblin".to_string());
    assert_eq!(ecs.world.entities.len(), 2);
    assert_eq!(ecs.world.entities[0].stats.unwrap().hp, 0);
    assert_eq!(ecs.world.entities[0].energy.unwrap().current, 50);
    assert_eq!(ecs.events.len(), 4);
    match &ecs.events[1] {
        GameEvent::LogMessage { message, .. } => assert_eq!(message, "伏击！Hero -> Goblin"),
        _ => panic!("expected the ambush line"),
    }
    match &ecs.events[3] {
        GameEvent::GameOver { reason } => assert_eq!(reason, "你被击败了！"),
        _ => panic!("expected a game over"),
    }
}

#[test]
fn end_of_game_checks() {
    let mut dead = bare(1);
    dead.actor = Some(Actor { name: "Hero".to_string(), faction: Faction::Player });
    dead.stats = Some(stats(0));
    let w = GameWorld { entities: vec![dead], next_id: 10 };
    let mut r = resources();
    assert!(matches!(FOVSystem::check_game_end(&w, &mut r), SystemResult::Stop));
    assert!(matches!(r.game_state.game_state, GameStatus::GameOver { reason: GameOverReason::Died("死亡") }));
    assert_eq!(r.game_state.message_log, vec!["You have died... Game Over!".to_string()]);

    let mut hero = bare(1);
    hero.actor = Some(Actor { name: "Hero".to_string(), faction: Faction::Player });
    hero.position = Some(Position { x: 1, y: 1, z: 3 });
    let w = GameWorld { entities: vec![hero], next_id: 10 };
    let mut r = resources();
    assert!(matches!(FOVSystem::check_game_end(&w, &mut r), SystemResult::Continue));
    r.game_state.depth = 3;
    assert!(matches!(FOVSystem::check_game_end(&w, &mut r), SystemResult::Stop));
    assert!(matches!(r.game_state.game_state, GameStatus::Victory));

    let w = GameWorld { entities: vec![floor(1, 2, 2, false)], next_id: 10 };
    assert!(FOVSystem::is_blocked(&Position { x: 2, y: 2, z: 0 }, &w));
    assert!(!FOVSystem::is_blocked(&Position { x: 3, y: 2, z: 0 }, &w));
}

#[test]
fn attack_plans() {
    let mut hero = bare(1);
    hero.is_player = true;
    hero.position = Some(Position { x: 5, y: 5, z: 0 });
    hero.stats = Some(stats(20));
    let w = GameWorld { entities: vec![hero, goblin(2, 5, 4), floor(3, 5, 6, true), floor(4, 5, 7, false)], next_id: 10 };
    let mut ecs = EcsWorld { world: w, resources: resources(), events: Vec::new() };

    // Not an attack: handed back, nothing published.
    assert!(matches!(CombatSystem::plan_attack(&mut ecs, PlayerAction::Wait, None), AttackPlan::Return(PlayerAction::Wait)));
    assert!(ecs.events.is_empty());

    // An enemy in the attacked cell: a fight; a player without an actor fights as "Player".
    match CombatSystem::plan_attack(&mut ecs, PlayerAction::Attack(Direction::North), None) {
        AttackPlan::Fight(req) => {
            assert_eq!(req.attacker, 0);
            assert_eq!(req.defender, 1);
            assert_eq!(req.attacker_name, "Player");
            assert_eq!(req.defender_name, "Goblin");
            assert_eq!(req.attacker_stats.hp, 20);
            assert_eq!(req.defender_stats.hp, 30);
            assert_eq!(req.attacker_id, EntityId(1));
            assert_eq!(req.defender_id, EntityId(2));
            assert_eq!(req.attacker_pos, Position { x: 5, y: 5, z: 0 });
            assert_eq!(req.defender_pos, Position { x: 5, y: 4, z: 0 });
            assert_eq!(req.blocked, vec![(5, 7)]);
            assert_eq!(req.view_range, 8);
        }
        _ => panic!("expected a fight"),
    }
    match CombatSystem::plan_attack(&mut ecs, PlayerAction::Attack(Direction::North), Some(5)) {
        AttackPlan::Fight(req) => assert_eq!(req.view_range, 5),
        _ => panic!("expected a fight"),
    }
    assert!(ecs.events.is_empty());

    // No enemy there: reported and handed back.
    assert!(matches!(
        CombatSystem::plan_attack(&mut ecs, PlayerAction::Attack(Direction::South), None),
        AttackPlan::Return(PlayerAction::Attack(Direction::South))
    ));
    assert_eq!(ecs.events.len(), 1);
    match &ecs.events[0] {
        GameEvent::LogMessage { message, level } => {
            assert_eq!(message, "该位置没有敌人！");
            assert_eq!(*level, LogLevel::Info);
        }
        _ => panic!("expected the no-enemy line"),
    }

    // A player without statistics: the attack is used up.
    ecs.world.entities[0].stats = None;
    assert!(matches!(CombatSystem::plan_attack(&mut ecs, PlayerAction::Attack(Direction::North), None), AttackPlan::Drop));
    assert_eq!(ecs.events.len(), 1);
}

#[test]
fn impairing_effects() {
    let mut e = bare(1);
    assert!(!AISystem::is_impaired(&e));
    e.effects = Some(StatusEffects { effects: vec![StatusEffect { effect_type: EffectType::Burning, turns: 2, damage: 1 }], last_tick_turn: 0 });
    assert!(!AISystem::is_impaired(&e));
    for t in [EffectType::Paralysis, EffectType::Frost, EffectType::Rooted] {
        e.effects = Some(StatusEffects {
            effects: vec![
                StatusEffect { effect_type: EffectType::Poison, turns: 2, damage: 1 },
                StatusEffect { effect_type: t, turns: 1, damage: 0 },
            ],
            last_tick_turn: 0,
        });
        assert!(AISystem::is_impaired(&e));
    }
}

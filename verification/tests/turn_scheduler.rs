use pixel_dungeon::ecs::{
    Direction, Energy, EntityId, Faction, GameClockState, GameConfig, GameState, GameStatus, InputBuffer,
    PlayerAction, PlayerProgress, Resources,
};
use pixel_dungeon::turn_system::energy_costs;
use pixel_dungeon::turn_system::intent_order::compare_intents;
use pixel_dungeon::turn_system::{
    AIIntent, Action, ActionIntent, TurnEntity, TurnMeta, TurnPhase, TurnSystem, TurnWorld,
};

fn empty_resources() -> Resources {
    Resources {
        input_buffer: InputBuffer { pending_actions: Vec::new(), completed_actions: Vec::new() },
        game_state: GameState {
            game_state: GameStatus::Running,
            message_log: Vec::new(),
            depth: 0,
            selected_class: None,
            frame_count: 0,
        },
        clock: GameClockState { turn_count: 0 },
        config: GameConfig { max_depth: 26 },
    }
}

fn player(id: u64, current: u32, regen: u32) -> TurnEntity {
    TurnEntity {
        id: EntityId(id),
        actor: Some(Faction::Player),
        has_ai: false,
        energy: Some(Energy { current, max: 100, regeneration_rate: regen }),
        progress: Some(PlayerProgress::default()),
    }
}

fn energy_only(id: u64, current: u32, regen: u32) -> TurnEntity {
    TurnEntity {
        id: EntityId(id),
        actor: None,
        has_ai: false,
        energy: Some(Energy { current, max: 100, regeneration_rate: regen }),
        progress: None,
    }
}

#[test]
fn test_energy_cost_lookup() {
    assert_eq!(energy_costs::player_action_cost(&PlayerAction::Move(Direction::North)), 100);
    assert_eq!(energy_costs::player_action_cost(&PlayerAction::Wait), 50);
    assert_eq!(energy_costs::player_action_cost(&PlayerAction::Quit), 0);
    assert_eq!(energy_costs::ai_action_cost(&AIIntent::Attack), 100);
    assert_eq!(energy_costs::ai_action_cost(&AIIntent::Wait), 50);
}

#[test]
fn test_turn_meta_advancement() {
    let mut meta = TurnMeta::new();
    assert_eq!(meta.global_turn, 0);
    assert_eq!(meta.sub_turn, 0);

    meta.advance_sub_turn();
    assert_eq!(meta.sub_turn, 1);

    meta.advance_global_turn();
    assert_eq!(meta.global_turn, 1);
    assert_eq!(meta.sub_turn, 0);
}

#[test]
fn test_action_intent_ordering() {
    let intent1 = ActionIntent::new(EntityId(1), Action::AI(AIIntent::Move), 100);
    let intent2 = ActionIntent::new(EntityId(2), Action::AI(AIIntent::Attack), 200);
    assert!(intent2 > intent1);
    assert_eq!(compare_intents(&intent2, &intent1), std::cmp::Ordering::Greater);
}

#[test]
fn test_turn_system_initialization() {
    let system = TurnSystem::new();
    assert!(system.is_player_turn());
    assert!(!system.is_ai_turn());
    assert_eq!(system.meta.global_turn, 0);
    assert_eq!(system.meta.phase, TurnPhase::Input);
}

#[test]
fn test_energy_consumption() {
    let mut world = TurnWorld { entities: vec![player(1, 100, 1)] };
    let mut system = TurnSystem::new();
    let action = PlayerAction::Move(Direction::North);
    system.consume_player_energy(&mut world, &action).unwrap();
    assert_eq!(world.entities[0].energy.unwrap().current, 0);
    assert!(system.player_action_taken());
}

#[test]
fn test_energy_regeneration() {
    let mut world = TurnWorld { entities: vec![energy_only(1, 50, 10)] };
    let mut system = TurnSystem::new();
    system.regenerate_energy(&mut world);
    assert_eq!(world.entities[0].energy.unwrap().current, 60);
}

#[test]
fn test_turn_order_by_energy() {
    let world = TurnWorld {
        entities: vec![energy_only(1, 50, 1), energy_only(2, 100, 1), energy_only(3, 75, 1)],
    };
    let system = TurnSystem::new();
    let order = system.get_turn_order(&world);
    assert_eq!(order.len(), 3);
    assert_eq!(order[0].1, 100);
    assert_eq!(order[1].1, 75);
    assert_eq!(order[2].1, 50);
}

#[test]
fn test_player_progress_advancement() {
    let mut world = TurnWorld {
        entities: vec![TurnEntity {
            id: EntityId(1),
            actor: Some(Faction::Player),
            has_ai: false,
            energy: None,
            progress: Some(PlayerProgress::default()),
        }],
    };
    let mut system = TurnSystem::new();
    assert_eq!(world.entities[0].progress.unwrap().turns, 0);
    system.advance_player_progress(&mut world);
    assert_eq!(world.entities[0].progress.unwrap().turns, 1);
}

#[test]
fn test_full_turn_cycle() {
    let enemy = TurnEntity {
        id: EntityId(2),
        actor: Some(Faction::Enemy),
        has_ai: true,
        energy: Some(Energy { current: 100, max: 100, regeneration_rate: 10 }),
        progress: None,
    };
    let mut world = TurnWorld { entities: vec![player(1, 100, 10), enemy] };
    let mut resources = empty_resources();
    let mut system = TurnSystem::new();

    assert!(system.is_player_turn());
    assert_eq!(system.meta.global_turn, 0);

    resources.input_buffer.completed_actions.push(PlayerAction::Wait);
    system.process_turn_cycle(&mut world, &mut resources).unwrap();
    assert!(system.is_ai_turn());

    system.process_turn_cycle(&mut world, &mut resources).unwrap();
    assert!(system.is_player_turn());
    assert_eq!(system.meta.global_turn, 1);

    assert_eq!(world.entities[0].energy.unwrap().current, 60);
    assert_eq!(world.entities[1].energy.unwrap().current, 10);
}

#[test]
fn test_wait_action_costs_less() {
    let mut world = TurnWorld { entities: vec![player(1, 100, 1)] };
    let mut system = TurnSystem::new();
    system.consume_player_energy(&mut world, &PlayerAction::Wait).unwrap();
    assert_eq!(world.entities[0].energy.unwrap().current, 50);
}

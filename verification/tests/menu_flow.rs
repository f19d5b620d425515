use pixel_dungeon::ecs::{
    GameClockState, GameConfig, GameOverReason, GameState, GameStatus, HeroClass, InputBuffer,
    NavigateDirection, PlayerAction, Resources, ReturnTo,
};
use pixel_dungeon::systems::menu::MenuSystem;

fn resources_at(status: GameStatus) -> Resources {
    Resources {
        input_buffer: InputBuffer { pending_actions: Vec::new(), completed_actions: Vec::new() },
        game_state: GameState {
            game_state: status,
            message_log: Vec::new(),
            depth: 1,
            selected_class: None,
            frame_count: 0,
        },
        clock: GameClockState { turn_count: 0 },
        config: GameConfig { max_depth: 26 },
    }
}

fn run_actions(status: GameStatus, actions: Vec<PlayerAction>) -> Resources {
    let mut r = resources_at(status);
    r.input_buffer.completed_actions = actions;
    let mut system = MenuSystem;
    system.run(&mut r);
    r
}

#[test]
fn main_menu_cursor_is_clamped() {
    let down = PlayerAction::MenuNavigate(NavigateDirection::Down);
    let r = run_actions(GameStatus::MainMenu { selected_option: 0 }, vec![down; 7]);
    assert!(matches!(r.game_state.game_state, GameStatus::MainMenu { selected_option: 4 }));
    let up = PlayerAction::MenuNavigate(NavigateDirection::Up);
    let r = run_actions(GameStatus::MainMenu { selected_option: 0 }, vec![up]);
    assert!(matches!(r.game_state.game_state, GameStatus::MainMenu { selected_option: 0 }));
}

#[test]
fn list_limits_per_screen() {
    let down = PlayerAction::MenuNavigate(NavigateDirection::Down);
    let r = run_actions(GameStatus::Paused { selected_option: 0 }, vec![down; 9]);
    assert!(matches!(r.game_state.game_state, GameStatus::Paused { selected_option: 5 }));
    let r = run_actions(GameStatus::Inventory { selected_item: 0 }, vec![down; 20]);
    assert!(matches!(r.game_state.game_state, GameStatus::Inventory { selected_item: 9 }));
    let r = run_actions(GameStatus::ClassSelection { cursor: 0 }, vec![down; 20]);
    assert!(matches!(r.game_state.game_state, GameStatus::ClassSelection { cursor: 3 }));
    let left = PlayerAction::MenuNavigate(NavigateDirection::Left);
    let r = run_actions(
        GameStatus::ConfirmQuit { return_to: ReturnTo::Running, selected_option: 1 },
        vec![left],
    );
    assert!(matches!(r.game_state.game_state, GameStatus::ConfirmQuit { selected_option: 0, .. }));
}

#[test]
fn new_game_goes_through_class_selection() {
    let r = run_actions(
        GameStatus::MainMenu { selected_option: 0 },
        vec![
            PlayerAction::MenuSelect,
            PlayerAction::MenuNavigate(NavigateDirection::Down),
            PlayerAction::MenuNavigate(NavigateDirection::Down),
            PlayerAction::MenuSelect,
        ],
    );
    assert!(matches!(r.game_state.game_state, GameStatus::Running));
    assert_eq!(r.game_state.selected_class, Some(HeroClass::Rogue));
    assert_eq!(r.game_state.message_log, vec!["选择了职业：盗贼".to_string(), "开始新游戏！".to_string()]);
    assert_eq!(r.input_buffer.completed_actions.len(), 4);
}

#[test]
fn continue_entry_starts_a_new_game() {
    let r = run_actions(GameStatus::MainMenu { selected_option: 1 }, vec![PlayerAction::MenuSelect]);
    assert!(matches!(r.game_state.game_state, GameStatus::Running));
    assert_eq!(r.game_state.message_log, vec!["继续游戏功能暂未实现".to_string(), "开始新游戏！".to_string()]);
}

#[test]
fn inventory_choice_is_logged() {
    let r = run_actions(GameStatus::Inventory { selected_item: 4 }, vec![PlayerAction::MenuSelect]);
    assert_eq!(r.game_state.message_log, vec!["选择了物品 #5 (使用功能暂未实现)".to_string()]);
    let r = run_actions(GameStatus::Options { selected_option: 3 }, vec![PlayerAction::MenuSelect]);
    assert_eq!(r.game_state.message_log, vec!["显示模式切换功能暂未实现".to_string()]);
}

#[test]
fn closing_menus() {
    let r = run_actions(GameStatus::Running, vec![PlayerAction::CloseMenu]);
    assert!(matches!(r.game_state.game_state, GameStatus::Paused { selected_option: 0 }));
    let r = run_actions(GameStatus::Paused { selected_option: 3 }, vec![PlayerAction::CloseMenu]);
    assert!(matches!(r.game_state.game_state, GameStatus::Running));
    let r = run_actions(GameStatus::MainMenu { selected_option: 2 }, vec![PlayerAction::CloseMenu]);
    assert!(matches!(r.game_state.game_state, GameStatus::MainMenu { selected_option: 2 }));
    let r = run_actions(
        GameStatus::ConfirmQuit { return_to: ReturnTo::MainMenu, selected_option: 0 },
        vec![PlayerAction::CloseMenu],
    );
    assert!(matches!(r.game_state.game_state, GameStatus::MainMenu { selected_option: 0 }));
    let r = run_actions(GameStatus::Help, vec![PlayerAction::CloseMenu]);
    assert!(matches!(r.game_state.game_state, GameStatus::Running));
}

#[test]
fn quit_confirmation() {
    let r = run_actions(
        GameStatus::ConfirmQuit { return_to: ReturnTo::Running, selected_option: 0 },
        vec![PlayerAction::MenuSelect],
    );
    assert!(matches!(r.game_state.game_state, GameStatus::GameOver { reason: GameOverReason::Quit }));
    let r = run_actions(
        GameStatus::ConfirmQuit { return_to: ReturnTo::Running, selected_option: 1 },
        vec![PlayerAction::MenuSelect],
    );
    assert!(matches!(r.game_state.game_state, GameStatus::Running));
    let r = run_actions(GameStatus::Paused { selected_option: 5 }, vec![PlayerAction::MenuSelect]);
    assert!(matches!(
        r.game_state.game_state,
        GameStatus::ConfirmQuit { return_to: ReturnTo::MainMenu, selected_option: 1 }
    ));
}

#[test]
fn quit_and_other_actions_are_not_menu_actions() {
    let r = run_actions(GameStatus::Running, vec![PlayerAction::Quit, PlayerAction::Wait, PlayerAction::Descend]);
    assert!(matches!(r.game_state.game_state, GameStatus::Running));
    assert!(r.game_state.message_log.is_empty());
}

#[test]
fn backing_out() {
    let r = run_actions(GameStatus::ClassSelection { cursor: 2 }, vec![PlayerAction::MenuBack]);
    assert!(matches!(r.game_state.game_state, GameStatus::MainMenu { selected_option: 0 }));
    let r = run_actions(GameStatus::Options { selected_option: 2 }, vec![PlayerAction::MenuBack]);
    assert!(matches!(r.game_state.game_state, GameStatus::Running));
    let r = run_actions(GameStatus::Paused { selected_option: 2 }, vec![PlayerAction::MenuBack]);
    assert!(matches!(r.game_state.game_state, GameStatus::Paused { selected_option: 2 }));
}

#[test]
fn opening_screens() {
    let r = run_actions(GameStatus::Running, vec![PlayerAction::OpenInventory]);
    assert!(matches!(r.game_state.game_state, GameStatus::Inventory { selected_item: 0 }));
    let r = run_actions(GameStatus::Running, vec![PlayerAction::OpenHelp, PlayerAction::OpenCharacterInfo]);
    assert!(matches!(r.game_state.game_state, GameStatus::CharacterInfo));
}

#[test]
fn start_new_game_directly() {
    let mut r = resources_at(GameStatus::MainMenu { selected_option: 0 });
    MenuSystem::start_new_game(&mut r);
    assert!(matches!(r.game_state.game_state, GameStatus::Running));
    assert_eq!(r.game_state.message_log, vec!["开始新游戏！".to_string()]);
}

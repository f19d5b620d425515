//! The menu state machine: opening screens, moving the cursor, choosing an
//! entry and backing out.

use vstd::prelude::*;
use crate::ecs::{
    log_view, GameOverReason, GameState, GameStatus, HeroClass, NavigateDirection, PlayerAction,
    Resources, ReturnTo,
};
use crate::systems::SystemResult;
use crate::text::{decimal, push_decimal};

verus! {

/// The part of the game state that menus read and write: the screen, the
/// message log (by its texts) and the chosen class.
pub type MenuView = (GameStatus, Seq<Seq<char>>, Option<HeroClass>);

/// The menu view of a game state.
pub open spec fn menu_view(gs: GameState) -> MenuView {
    (gs.game_state, log_view(gs.message_log@), gs.selected_class)
}

/// Actions that the menu system handles.
pub open spec fn is_menu_action(a: PlayerAction) -> bool {
    match a {
        PlayerAction::OpenInventory | PlayerAction::OpenOptions | PlayerAction::OpenHelp
        | PlayerAction::OpenCharacterInfo | PlayerAction::CloseMenu | PlayerAction::MenuNavigate(_)
        | PlayerAction::MenuSelect | PlayerAction::MenuBack => true,
        _ => false,
    }
}

/// Cursor indices of a screen are below the largest `usize`, so that moving
/// down cannot overflow.
pub open spec fn cursors_ok(st: GameStatus) -> bool {
    match st {
        GameStatus::MainMenu { selected_option } => selected_option < usize::MAX,
        GameStatus::Paused { selected_option } => selected_option < usize::MAX,
        GameStatus::Options { selected_option } => selected_option < usize::MAX,
        GameStatus::Inventory { selected_item } => selected_item < usize::MAX,
        GameStatus::ClassSelection { cursor } => cursor < usize::MAX,
        _ => true,
    }
}

/// One step up or down a list whose last index is `last`.
pub open spec fn step_cursor(c: usize, d: NavigateDirection, last: usize) -> usize {
    match d {
        NavigateDirection::Up => if c == 0 {
            0
        } else {
            (c - 1) as usize
        },
        NavigateDirection::Down => if c + 1 <= last {
            (c + 1) as usize
        } else {
            last
        },
        _ => c,
    }
}

/// Screen after a cursor movement.
pub open spec fn navigate_status(st: GameStatus, d: NavigateDirection) -> GameStatus {
    match st {
        GameStatus::MainMenu { selected_option } => GameStatus::MainMenu {
            selected_option: step_cursor(selected_option, d, 4),
        },
        GameStatus::Paused { selected_option } => GameStatus::Paused {
            selected_option: step_cursor(selected_option, d, 5),
        },
        GameStatus::Options { selected_option } => GameStatus::Options {
            selected_option: step_cursor(selected_option, d, 4),
        },
        GameStatus::Inventory { selected_item } => GameStatus::Inventory {
            selected_item: step_cursor(selected_item, d, 9),
        },
        GameStatus::ClassSelection { cursor } => GameStatus::ClassSelection {
            cursor: step_cursor(cursor, d, 3),
        },
        GameStatus::ConfirmQuit { return_to, selected_option } => GameStatus::ConfirmQuit {
            return_to,
            selected_option: match d {
                NavigateDirection::Left | NavigateDirection::Up => 0,
                NavigateDirection::Right | NavigateDirection::Down => 1,
            },
        },
        _ => st,
    }
}

/// The screen a declined quit confirmation returns to.
pub open spec fn return_status(r: ReturnTo) -> GameStatus {
    match r {
        ReturnTo::Running => GameStatus::Running,
        ReturnTo::MainMenu => GameStatus::MainMenu { selected_option: 0 },
    }
}

/// Screen after closing a menu.
pub open spec fn close_status(st: GameStatus) -> GameStatus {
    match st {
        GameStatus::ConfirmQuit { return_to, .. } => return_status(return_to),
        GameStatus::MainMenu { .. } => st,
        GameStatus::Paused { .. } => GameStatus::Running,
        GameStatus::Running => GameStatus::Paused { selected_option: 0 },
        _ => GameStatus::Running,
    }
}

/// Screen after backing out of a menu.
pub open spec fn back_status(st: GameStatus) -> GameStatus {
    match st {
        GameStatus::Help | GameStatus::CharacterInfo | GameStatus::Options { .. }
        | GameStatus::Inventory { .. } => GameStatus::Running,
        GameStatus::ClassSelection { .. } => GameStatus::MainMenu { selected_option: 0 },
        _ => st,
    }
}

/// Text announcing a new game.
pub open spec fn new_game_text() -> Seq<char> {
    "开始新游戏！"@
}

/// State after starting a new game.
pub open spec fn start_new_game_view(v: MenuView) -> MenuView {
    (GameStatus::Running, v.1.push(new_game_text()), v.2)
}

/// Display name of a hero class.
pub open spec fn class_name(c: HeroClass) -> Seq<char> {
    match c {
        HeroClass::Warrior => "战士"@,
        HeroClass::Mage => "法师"@,
        HeroClass::Rogue => "盗贼"@,
        HeroClass::Huntress => "女猎手"@,
    }
}

/// The class under a class-selection cursor (past the end: warrior).
pub open spec fn class_at(cursor: usize) -> HeroClass {
    if cursor == 1 {
        HeroClass::Mage
    } else if cursor == 2 {
        HeroClass::Rogue
    } else if cursor == 3 {
        HeroClass::Huntress
    } else {
        HeroClass::Warrior
    }
}

/// Message of an option that is not available yet.
pub open spec fn option_text(option: usize) -> Seq<char> {
    if option == 0 {
        "音效切换功能暂未实现"@
    } else if option == 1 {
        "音乐切换功能暂未实现"@
    } else if option == 2 {
        "按键绑定功能暂未实现"@
    } else if option == 3 {
        "显示模式切换功能暂未实现"@
    } else {
        "语言切换功能暂未实现"@
    }
}

/// Message of choosing an inventory slot.
pub open spec fn inventory_choice_text(item: usize) -> Seq<char> {
    "选择了物品 #"@ + decimal((item + 1) as nat) + " (使用功能暂未实现)"@
}

/// Message of choosing a class.
pub open spec fn class_choice_text(c: HeroClass) -> Seq<char> {
    "选择了职业："@ + class_name(c)
}

/// State after choosing the entry under the cursor.
pub open spec fn select_view(v: MenuView) -> MenuView {
    let (st, log, cls) = v;
    match st {
        GameStatus::MainMenu { selected_option } => if selected_option == 0 {
            (GameStatus::ClassSelection { cursor: 0 }, log, cls)
        } else if selected_option == 1 {
            start_new_game_view((st, log.push("继续游戏功能暂未实现"@), cls))
        } else if selected_option == 2 {
            (GameStatus::Options { selected_option: 0 }, log, cls)
        } else if selected_option == 3 {
            (GameStatus::Help, log, cls)
        } else if selected_option == 4 {
            (GameStatus::ConfirmQuit { return_to: ReturnTo::MainMenu, selected_option: 1 }, log, cls)
        } else {
            v
        },
        GameStatus::Paused { selected_option } => if selected_option == 0 {
            (GameStatus::Running, log, cls)
        } else if selected_option == 1 {
            (GameStatus::Inventory { selected_item: 0 }, log, cls)
        } else if selected_option == 2 {
            (GameStatus::CharacterInfo, log, cls)
        } else if selected_option == 3 {
            (GameStatus::Options { selected_option: 0 }, log, cls)
        } else if selected_option == 4 {
            (GameStatus::Help, log, cls)
        } else if selected_option == 5 {
            (GameStatus::ConfirmQuit { return_to: ReturnTo::MainMenu, selected_option: 1 }, log, cls)
        } else {
            v
        },
        GameStatus::Options { selected_option } => if selected_option <= 4 {
            (st, log.push(option_text(selected_option)), cls)
        } else {
            v
        },
        GameStatus::Inventory { selected_item } => (
            st,
            log.push(inventory_choice_text(selected_item)),
            cls,
        ),
        GameStatus::ClassSelection { cursor } => start_new_game_view(
            (st, log.push(class_choice_text(class_at(cursor))), Some(class_at(cursor))),
        ),
        GameStatus::ConfirmQuit { return_to, selected_option } => if selected_option == 0 {
            (GameStatus::GameOver { reason: GameOverReason::Quit }, log, cls)
        } else {
            (return_status(return_to), log, cls)
        },
        _ => v,
    }
}

/// State after one action of the menu system.
pub open spec fn menu_step(v: MenuView, a: PlayerAction) -> MenuView {
    let (st, log, cls) = v;
    match a {
        PlayerAction::OpenInventory => (GameStatus::Inventory { selected_item: 0 }, log, cls),
        PlayerAction::OpenOptions => (GameStatus::Options { selected_option: 0 }, log, cls),
        PlayerAction::OpenHelp => (GameStatus::Help, log, cls),
        PlayerAction::OpenCharacterInfo => (GameStatus::CharacterInfo, log, cls),
        PlayerAction::CloseMenu => (close_status(st), log, cls),
        PlayerAction::MenuNavigate(d) => (navigate_status(st, d), log, cls),
        PlayerAction::MenuSelect => select_view(v),
        PlayerAction::MenuBack => (back_status(st), log, cls),
        _ => v,
    }
}

/// State after the menu system handled a list of actions in order.
pub open spec fn menu_run(v: MenuView, actions: Seq<PlayerAction>) -> MenuView
    decreases actions.len(),
{
    if actions.len() == 0 {
        v
    } else {
        menu_step(menu_run(v, actions.drop_last()), actions.last())
    }
}

/// Every step keeps the cursors in range and adds at most two messages.
pub proof fn lemma_menu_step_bounds(v: MenuView, a: PlayerAction)
    requires
        cursors_ok(v.0),
    ensures
        cursors_ok(menu_step(v, a).0),
        v.1.len() <= menu_step(v, a).1.len() <= v.1.len() + 2,
{
}

/// Handling a list of actions keeps the cursors in range and adds at most
/// two messages per action.
pub proof fn lemma_menu_run_bounds(v: MenuView, actions: Seq<PlayerAction>)
    requires
        cursors_ok(v.0),
    ensures
        cursors_ok(menu_run(v, actions).0),
        v.1.len() <= menu_run(v, actions).1.len() <= v.1.len() + 2 * actions.len(),
    decreases actions.len(),
{
    if actions.len() > 0 {
        lemma_menu_run_bounds(v, actions.drop_last());
        lemma_menu_step_bounds(menu_run(v, actions.drop_last()), actions.last());
    }
}

/// The cursor of a list screen after a movement stays on the list: it is at
/// most the last index when it was.
pub proof fn lemma_navigation_stays_on_list(c: usize, d: NavigateDirection, last: usize)
    requires
        c <= last,
    ensures
        step_cursor(c, d, last) <= last,
{
}

/// Moving up and then down returns to the same entry, except from the first
/// entry.
pub proof fn lemma_up_then_down(c: usize, last: usize)
    requires
        0 < c <= last,
    ensures
        step_cursor(step_cursor(c, NavigateDirection::Up, last), NavigateDirection::Down, last) == c,
{
}

/// Declining the quit confirmation (choosing its second entry) leads where
/// closing the dialog leads, and leaves the log and class alone.
pub proof fn lemma_declining_quit_is_closing(
    return_to: ReturnTo,
    selected_option: usize,
    log: Seq<Seq<char>>,
    cls: Option<HeroClass>,
)
    ensures
        select_view((GameStatus::ConfirmQuit { return_to, selected_option: 1 }, log, cls)) == (
            close_status(GameStatus::ConfirmQuit { return_to, selected_option }),
            log,
            cls,
        ),
{
}

/// Confirming the quit dialog ends the game, wherever it was opened from.
pub proof fn lemma_confirming_quit_ends_game(return_to: ReturnTo, log: Seq<Seq<char>>, cls: Option<HeroClass>)
    ensures
        select_view((GameStatus::ConfirmQuit { return_to, selected_option: 0 }, log, cls)).0 == (GameStatus::GameOver {
            reason: GameOverReason::Quit,
        }),
{
}

/// Closing a menu on the main menu keeps the main menu: it never quits.
pub proof fn lemma_close_keeps_main_menu(selected_option: usize)
    ensures
        close_status(GameStatus::MainMenu { selected_option }) == (GameStatus::MainMenu { selected_option }),
{
}

/// Actions other than menu actions leave the menu state alone.
pub proof fn lemma_other_actions_ignored(v: MenuView, a: PlayerAction)
    requires
        !is_menu_action(a),
    ensures
        menu_step(v, a) == v,
{
}

/// Handles all menu actions among the completed actions.
pub struct MenuSystem;

impl MenuSystem {
    pub fn name(&self) -> (s: &'static str)
        ensures
            s@ == "MenuSystem"@,
    {
        proof {
            reveal_strlit("MenuSystem");
        }
        "MenuSystem"
    }

    /// Applies, in order, every menu action among the completed actions to
    /// the game screen. The completed actions stay where they are.
    pub fn run(&mut self, resources: &mut Resources) -> (r: SystemResult)
        requires
            cursors_ok(old(resources).game_state.game_state),
            old(resources).game_state.message_log@.len() + 2
                * old(resources).input_buffer.completed_actions@.len() <= usize::MAX,
        ensures
            r is Continue,
            menu_view(final(resources).game_state) == menu_run(
                menu_view(old(resources).game_state),
                old(resources).input_buffer.completed_actions@,
            ),
            final(resources).input_buffer == old(resources).input_buffer,
            final(resources).clock == old(resources).clock,
            final(resources).config == old(resources).config,
            final(resources).game_state.depth == old(resources).game_state.depth,
            final(resources).game_state.frame_count == old(resources).game_state.frame_count,
    {
        let n = resources.input_buffer.completed_actions.len();
        let ghost v0 = menu_view(resources.game_state);
        let ghost acts = resources.input_buffer.completed_actions@;
        let mut i: usize = 0;
        while i < n
            invariant
                n == acts.len(),
                acts == resources.input_buffer.completed_actions@,
                resources.input_buffer == old(resources).input_buffer,
                resources.clock == old(resources).clock,
                resources.config == old(resources).config,
                resources.game_state.depth == old(resources).game_state.depth,
                resources.game_state.frame_count == old(resources).game_state.frame_count,
                0 <= i <= n,
                cursors_ok(v0.0),
                v0.1.len() + 2 * n <= usize::MAX,
                v0 == menu_view(old(resources).game_state),
                menu_view(resources.game_state) == menu_run(v0, acts.take(i as int)),
            decreases n - i,
        {
            proof {
                lemma_menu_run_bounds(v0, acts.take(i as int));
                assert(acts.take(i as int + 1).drop_last() =~= acts.take(i as int));
            }
            let action = resources.input_buffer.completed_actions[i];
            match action {
                PlayerAction::OpenInventory => {
                    resources.game_state.game_state = GameStatus::Inventory { selected_item: 0 };
                },
                PlayerAction::OpenOptions => {
                    resources.game_state.game_state = GameStatus::Options { selected_option: 0 };
                },
                PlayerAction::OpenHelp => {
                    resources.game_state.game_state = GameStatus::Help;
                },
                PlayerAction::OpenCharacterInfo => {
                    resources.game_state.game_state = GameStatus::CharacterInfo;
                },
                PlayerAction::CloseMenu => {
                    Self::handle_close(&mut resources.game_state);
                },
                PlayerAction::MenuNavigate(direction) => {
                    self.handle_menu_navigation(resources, &direction);
                },
                PlayerAction::MenuSelect => {
                    self.handle_menu_selection(resources);
                },
                PlayerAction::MenuBack => {
                    self.handle_menu_back(resources);
                },
                _ => {},
            }
            i = i + 1;
        }
        assert(acts.take(n as int) =~= acts);
        SystemResult::Continue
    }

    /// Asks for confirmation before quitting: declining returns to the main
    /// menu when asked from there, to the game otherwise; the dialog starts
    /// on "no".
    pub fn request_quit(resources: &mut Resources)
        ensures
            final(resources).game_state.game_state == (GameStatus::ConfirmQuit {
                return_to: if old(resources).game_state.game_state is MainMenu {
                    ReturnTo::MainMenu
                } else {
                    ReturnTo::Running
                },
                selected_option: 1,
            }),
            final(resources).game_state.message_log == old(resources).game_state.message_log,
            final(resources).game_state.selected_class == old(resources).game_state.selected_class,
            final(resources).game_state.depth == old(resources).game_state.depth,
            final(resources).game_state.frame_count == old(resources).game_state.frame_count,
            final(resources).input_buffer == old(resources).input_buffer,
            final(resources).clock == old(resources).clock,
            final(resources).config == old(resources).config,
    {
        let return_to = match resources.game_state.game_state {
            GameStatus::MainMenu { .. } => ReturnTo::MainMenu,
            _ => ReturnTo::Running,
        };
        resources.game_state.game_state = GameStatus::ConfirmQuit { return_to, selected_option: 1 };
    }

    /// Closing a menu.
    fn handle_close(gs: &mut GameState)
        ensures
            final(gs).game_state == close_status(old(gs).game_state),
            final(gs).message_log == old(gs).message_log,
            final(gs).selected_class == old(gs).selected_class,
            final(gs).depth == old(gs).depth,
            final(gs).frame_count == old(gs).frame_count,
    {
        match gs.game_state {
            GameStatus::ConfirmQuit { return_to, .. } => {
                gs.game_state = match return_to {
                    ReturnTo::Running => GameStatus::Running,
                    ReturnTo::MainMenu => GameStatus::MainMenu { selected_option: 0 },
                };
            },
            GameStatus::MainMenu { .. } => {},
            GameStatus::Paused { .. } => {
                gs.game_state = GameStatus::Running;
            },
            GameStatus::Running => {
                gs.game_state = GameStatus::Paused { selected_option: 0 };
            },
            _ => {
                gs.game_state = GameStatus::Running;
            },
        }
    }

    /// Starts a new game: the game runs and the log announces it.
    pub fn start_new_game(resources: &mut Resources)
        requires
            old(resources).game_state.message_log@.len() < usize::MAX,
        ensures
            menu_view(final(resources).game_state) == start_new_game_view(menu_view(old(resources).game_state)),
            final(resources).game_state.message_log@.len() == old(resources).game_state.message_log@.len() + 1,
            final(resources).game_state.depth == old(resources).game_state.depth,
            final(resources).game_state.frame_count == old(resources).game_state.frame_count,
            final(resources).input_buffer == old(resources).input_buffer,
            final(resources).clock == old(resources).clock,
            final(resources).config == old(resources).config,
    {
        resources.game_state.game_state = GameStatus::Running;
        resources.game_state.message_log.push(String::from_str("开始新游戏！"));
        proof {
            assert(log_view(resources.game_state.message_log@) =~= log_view(old(resources).game_state.message_log@).push(
                new_game_text(),
            ));
        }
    }

    /// Moves the cursor of the current screen.
    pub fn handle_menu_navigation(&self, resources: &mut Resources, direction: &NavigateDirection)
        requires
            cursors_ok(old(resources).game_state.game_state),
        ensures
            final(resources).game_state.game_state == navigate_status(old(resources).game_state.game_state, *direction),
            final(resources).game_state.message_log == old(resources).game_state.message_log,
            final(resources).game_state.selected_class == old(resources).game_state.selected_class,
            final(resources).game_state.depth == old(resources).game_state.depth,
            final(resources).game_state.frame_count == old(resources).game_state.frame_count,
            final(resources).input_buffer == old(resources).input_buffer,
            final(resources).clock == old(resources).clock,
            final(resources).config == old(resources).config,
    {
        let d = *direction;
        match resources.game_state.game_state {
            GameStatus::MainMenu { selected_option } => {
                resources.game_state.game_state = GameStatus::MainMenu {
                    selected_option: Self::step(selected_option, d, 4),
                };
            },
            GameStatus::Paused { selected_option } => {
                resources.game_state.game_state = GameStatus::Paused {
                    selected_option: Self::step(selected_option, d, 5),
                };
            },
            GameStatus::Options { selected_option } => {
                resources.game_state.game_state = GameStatus::Options {
                    selected_option: Self::step(selected_option, d, 4),
                };
            },
            GameStatus::Inventory { selected_item } => {
                resources.game_state.game_state = GameStatus::Inventory {
                    selected_item: Self::step(selected_item, d, 9),
                };
            },
            GameStatus::ClassSelection { cursor } => {
                resources.game_state.game_state = GameStatus::ClassSelection { cursor: Self::step(cursor, d, 3) };
            },
            GameStatus::ConfirmQuit { return_to, .. } => {
                let selected_option: usize = match d {
                    NavigateDirection::Left | NavigateDirection::Up => 0,
                    NavigateDirection::Right | NavigateDirection::Down => 1,
                };
                resources.game_state.game_state = GameStatus::ConfirmQuit { return_to, selected_option };
            },
            _ => {},
        }
    }

    /// One cursor step in a list whose last index is `last`.
    fn step(c: usize, d: NavigateDirection, last: usize) -> (r: usize)
        requires
            c < usize::MAX,
        ensures
            r == step_cursor(c, d, last),
    {
        match d {
            NavigateDirection::Up => c.saturating_sub(1),
            NavigateDirection::Down => {
                let next = c + 1;
                if next <= last {
                    next
                } else {
                    last
                }
            },
            _ => c,
        }
    }

    /// Chooses the entry under the cursor of the current screen.
    pub fn handle_menu_selection(&self, resources: &mut Resources)
        requires
            old(resources).game_state.message_log@.len() + 2 <= usize::MAX,
            cursors_ok(old(resources).game_state.game_state),
        ensures
            menu_view(final(resources).game_state) == select_view(menu_view(old(resources).game_state)),
            final(resources).game_state.depth == old(resources).game_state.depth,
            final(resources).game_state.frame_count == old(resources).game_state.frame_count,
            final(resources).input_buffer == old(resources).input_buffer,
            final(resources).clock == old(resources).clock,
            final(resources).config == old(resources).config,
    {
        let ghost v = menu_view(resources.game_state);
        match resources.game_state.game_state {
            GameStatus::MainMenu { selected_option } => {
                if selected_option == 0 {
                    resources.game_state.game_state = GameStatus::ClassSelection { cursor: 0 };
                } else if selected_option == 1 {
                    resources.game_state.message_log.push(String::from_str("继续游戏功能暂未实现"));
                    proof {
                        assert(log_view(resources.game_state.message_log@) =~= v.1.push("继续游戏功能暂未实现"@));
                    }
                    Self::start_new_game(resources);
                } else if selected_option == 2 {
                    resources.game_state.game_state = GameStatus::Options { selected_option: 0 };
                } else if selected_option == 3 {
                    resources.game_state.game_state = GameStatus::Help;
                } else if selected_option == 4 {
                    resources.game_state.game_state = GameStatus::ConfirmQuit {
                        return_to: ReturnTo::MainMenu,
                        selected_option: 1,
                    };
                }
            },
            GameStatus::Paused { selected_option } => {
                if selected_option == 0 {
                    resources.game_state.game_state = GameStatus::Running;
                } else if selected_option == 1 {
                    resources.game_state.game_state = GameStatus::Inventory { selected_item: 0 };
                } else if selected_option == 2 {
                    resources.game_state.game_state = GameStatus::CharacterInfo;
                } else if selected_option == 3 {
                    resources.game_state.game_state = GameStatus::Options { selected_option: 0 };
                } else if selected_option == 4 {
                    resources.game_state.game_state = GameStatus::Help;
                } else if selected_option == 5 {
                    resources.game_state.game_state = GameStatus::ConfirmQuit {
                        return_to: ReturnTo::MainMenu,
                        selected_option: 1,
                    };
                }
            },
            GameStatus::Options { selected_option } => {
                if selected_option <= 4 {
                    let text = if selected_option == 0 {
                        String::from_str("音效切换功能暂未实现")
                    } else if selected_option == 1 {
                        String::from_str("音乐切换功能暂未实现")
                    } else if selected_option == 2 {
                        String::from_str("按键绑定功能暂未实现")
                    } else if selected_option == 3 {
                        String::from_str("显示模式切换功能暂未实现")
                    } else {
                        String::from_str("语言切换功能暂未实现")
                    };
                    resources.game_state.message_log.push(text);
                    proof {
                        assert(log_view(resources.game_state.message_log@) =~= v.1.push(
                            option_text(selected_option),
                        ));
                    }
                }
            },
            GameStatus::Inventory { selected_item } => {
                let mut text = String::from_str("选择了物品 #");
                push_decimal(&mut text, (selected_item + 1) as u64);
                text.append(" (使用功能暂未实现)");
                resources.game_state.message_log.push(text);
                proof {
                    assert(log_view(resources.game_state.message_log@) =~= v.1.push(
                        inventory_choice_text(selected_item),
                    ));
                }
            },
            GameStatus::ClassSelection { cursor } => {
                let class = if cursor == 1 {
                    HeroClass::Mage
                } else if cursor == 2 {
                    HeroClass::Rogue
                } else if cursor == 3 {
                    HeroClass::Huntress
                } else {
                    HeroClass::Warrior
                };
                resources.game_state.selected_class = Some(class);
                let mut text = String::from_str("选择了职业：");
                let name = match class {
                    HeroClass::Warrior => "战士",
                    HeroClass::Mage => "法师",
                    HeroClass::Rogue => "盗贼",
                    HeroClass::Huntress => "女猎手",
                };
                text.append(name);
                resources.game_state.message_log.push(text);
                proof {
                    assert(log_view(resources.game_state.message_log@) =~= v.1.push(class_choice_text(class)));
                }
                Self::start_new_game(resources);
            },
            GameStatus::ConfirmQuit { return_to, selected_option } => {
                if selected_option == 0 {
                    resources.game_state.game_state = GameStatus::GameOver { reason: GameOverReason::Quit };
                } else {
                    resources.game_state.game_state = match return_to {
                        ReturnTo::Running => GameStatus::Running,
                        ReturnTo::MainMenu => GameStatus::MainMenu { selected_option: 0 },
                    };
                }
            },
            _ => {},
        }
    }

    /// Backs out of the current screen.
    pub fn handle_menu_back(&self, resources: &mut Resources)
        ensures
            final(resources).game_state.game_state == back_status(old(resources).game_state.game_state),
            final(resources).game_state.message_log == old(resources).game_state.message_log,
            final(resources).game_state.selected_class == old(resources).game_state.selected_class,
            final(resources).game_state.depth == old(resources).game_state.depth,
            final(resources).game_state.frame_count == old(resources).game_state.frame_count,
            final(resources).input_buffer == old(resources).input_buffer,
            final(resources).clock == old(resources).clock,
            final(resources).config == old(resources).config,
    {
        match resources.game_state.game_state {
            GameStatus::Help | GameStatus::CharacterInfo => {
                resources.game_state.game_state = GameStatus::Running;
            },
            GameStatus::Options { .. } | GameStatus::Inventory { .. } => {
                resources.game_state.game_state = GameStatus::Running;
            },
            GameStatus::ClassSelection { .. } => {
                resources.game_state.game_state = GameStatus::MainMenu { selected_option: 0 };
            },
            _ => {},
        }
    }
}

} // verus!

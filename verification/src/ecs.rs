//! Components and resources that the game systems read and update.

use vstd::prelude::*;

verus! {

/// Identifier of an entity in the game world.
#[derive(Clone, Copy, Debug, PartialEq, Eq, Structural)]
pub struct EntityId(pub u64);

/// The eight compass directions a creature can step in.
#[derive(Clone, Copy, Debug, PartialEq, Eq, Structural)]
pub enum Direction {
    North,
    South,
    East,
    West,
    NorthEast,
    NorthWest,
    SouthEast,
    SouthWest,
}

/// Cursor movement inside a menu.
#[derive(Clone, Copy, Debug, PartialEq, Eq, Structural)]
pub enum NavigateDirection {
    Up,
    Down,
    Left,
    Right,
}

/// Everything the player can ask for in one input.
#[derive(Clone, Copy, Debug, PartialEq, Eq, Structural)]
pub enum PlayerAction {
    Move(Direction),
    Attack(Direction),
    UseItem(usize),
    DropItem(usize),
    Descend,
    Ascend,
    Wait,
    Quit,
    OpenInventory,
    OpenOptions,
    OpenHelp,
    OpenCharacterInfo,
    CloseMenu,
    MenuNavigate(NavigateDirection),
    MenuSelect,
    MenuBack,
}

/// Which side an actor fights for.
#[derive(Clone, Copy, Debug, PartialEq, Eq, Structural)]
pub enum Faction {
    Player,
    Enemy,
    Neutral,
}

/// Energy pool that pays for actions.
#[derive(Clone, Copy, Debug, PartialEq, Eq, Structural)]
pub struct Energy {
    pub current: u32,
    pub max: u32,
    pub regeneration_rate: u32,
}

/// Per-player progress counters.
#[derive(Clone, Copy, Debug, PartialEq, Eq, Structural)]
pub struct PlayerProgress {
    pub turns: u32,
}

impl PlayerProgress {
    /// Counts one more completed turn.
    pub fn advance_turn(&mut self)
        requires
            old(self).turns < u32::MAX,
        ensures
            final(self).turns == old(self).turns + 1,
    {
        self.turns = self.turns + 1;
    }
}

impl Default for PlayerProgress {
    fn default() -> (p: Self)
        ensures
            p.turns == 0,
    {
        PlayerProgress { turns: 0 }
    }
}

/// Where the quit confirmation returns to when the player declines.
#[derive(Clone, Copy, Debug, PartialEq, Eq, Structural)]
pub enum ReturnTo {
    Running,
    MainMenu,
}

/// Why a run ended.
#[derive(Clone, Copy, Debug, PartialEq, Eq)]
pub enum GameOverReason {
    Died(&'static str),
    Defeated(&'static str),
    Starved,
    Trapped(&'static str),
    Quit,
}

/// The four hero classes offered at the start of a run.
#[derive(Clone, Copy, Debug, PartialEq, Eq, Structural)]
pub enum HeroClass {
    Warrior,
    Mage,
    Rogue,
    Huntress,
}

/// The screen / mode the game is in.
#[derive(Clone, Copy, Debug)]
pub enum GameStatus {
    MainMenu { selected_option: usize },
    Running,
    Paused { selected_option: usize },
    Options { selected_option: usize },
    Inventory { selected_item: usize },
    Help,
    CharacterInfo,
    ClassSelection { cursor: usize },
    ConfirmQuit { return_to: ReturnTo, selected_option: usize },
    GameOver { reason: GameOverReason },
    Victory,
}

/// Actions entered by the player, before and after the systems resolved them.
#[derive(Clone, Debug)]
pub struct InputBuffer {
    pub pending_actions: Vec<PlayerAction>,
    pub completed_actions: Vec<PlayerAction>,
}

/// Global game state shared by the systems.
#[derive(Clone, Debug)]
pub struct GameState {
    pub game_state: GameStatus,
    pub message_log: Vec<String>,
    pub depth: usize,
    pub selected_class: Option<HeroClass>,
    /// Frames drawn so far (wraps around).
    pub frame_count: u64,
}

/// The texts of a message log.
pub open spec fn log_view(log: Seq<String>) -> Seq<Seq<char>> {
    log.map_values(|m: String| m@)
}

/// Most messages the log keeps after a capped push.
pub const MESSAGE_LOG_CAP: usize = 10;

/// The log after a capped push: the message is appended and, when the log
/// then holds more than the cap, its oldest entry is dropped.
pub open spec fn capped_push(log: Seq<String>, message: String) -> Seq<String> {
    if log.len() + 1 > MESSAGE_LOG_CAP {
        log.push(message).drop_first()
    } else {
        log.push(message)
    }
}

/// The texts of the log after a capped push.
pub open spec fn capped_push_view(log: Seq<Seq<char>>, message: Seq<char>) -> Seq<Seq<char>> {
    if log.len() + 1 > MESSAGE_LOG_CAP {
        log.push(message).drop_first()
    } else {
        log.push(message)
    }
}

/// A capped push never lets a log that fits the cap grow past it, and never
/// lengthens a log that is already at the cap or beyond.
pub proof fn lemma_capped_push_len(log: Seq<Seq<char>>, message: Seq<char>)
    ensures
        capped_push_view(log, message).len() == (if log.len() < MESSAGE_LOG_CAP {
            log.len() as int + 1
        } else {
            log.len() as int
        }),
{
}

impl GameState {
    /// Appends a message and drops the oldest one if the log grew past the cap.
    pub fn push_message(&mut self, message: String)
        requires
            old(self).message_log@.len() < usize::MAX,
        ensures
            final(self).message_log@ == capped_push(old(self).message_log@, message),
            log_view(final(self).message_log@) == capped_push_view(
                log_view(old(self).message_log@),
                message@,
            ),
            final(self).game_state == old(self).game_state,
            final(self).depth == old(self).depth,
            final(self).selected_class == old(self).selected_class,
            final(self).frame_count == old(self).frame_count,
    {
        let ghost m = message;
        self.message_log.push(message);
        if self.message_log.len() > MESSAGE_LOG_CAP {
            self.message_log.remove(0);
        }
        proof {
            let old_view = log_view(old(self).message_log@);
            if old(self).message_log@.len() + 1 > MESSAGE_LOG_CAP {
                assert(log_view(self.message_log@) =~= old_view.push(m@).drop_first());
            } else {
                assert(log_view(self.message_log@) =~= old_view.push(m@));
            }
        }
    }
}

/// Game clock.
#[derive(Clone, Copy, Debug)]
pub struct GameClockState {
    pub turn_count: u32,
}

/// Resources shared by all systems.
#[derive(Clone, Debug)]
pub struct Resources {
    pub input_buffer: InputBuffer,
    pub game_state: GameState,
    pub clock: GameClockState,
    pub config: GameConfig,
}

/// Static game settings.
#[derive(Clone, Copy, Debug)]
pub struct GameConfig {
    /// Number of dungeon levels.
    pub max_depth: usize,
}

} // verus!

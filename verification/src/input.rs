//! Keys to player actions: vi-keys and arrows move, shifted vi-keys attack,
//! `.` waits, `>`/`<` take the stairs, digits use items, `d` drops the first
//! item, `q` quits; on a menu screen arrows and `hjkl` navigate, Enter
//! selects, Backspace goes back and Esc closes.

use vstd::prelude::*;
use crate::ecs::{Direction, GameStatus, NavigateDirection, PlayerAction};

verus! {

/// A key as the game reads it.
#[derive(Clone, Copy, Debug, PartialEq, Eq, Structural)]
pub enum Key {
    Char(char),
    Up,
    Down,
    Left,
    Right,
    Enter,
    Backspace,
    Esc,
    Other,
}

/// A key press: the key and whether Shift was held.
#[derive(Clone, Copy, Debug, PartialEq, Eq, Structural)]
pub struct KeyPress {
    pub key: Key,
    pub shift: bool,
}

/// The direction of a lower-case vi-key.
pub open spec fn vi_direction(c: char) -> Option<Direction> {
    if c == 'k' {
        Some(Direction::North)
    } else if c == 'j' {
        Some(Direction::South)
    } else if c == 'h' {
        Some(Direction::West)
    } else if c == 'l' {
        Some(Direction::East)
    } else if c == 'y' {
        Some(Direction::NorthWest)
    } else if c == 'u' {
        Some(Direction::NorthEast)
    } else if c == 'b' {
        Some(Direction::SouthWest)
    } else if c == 'n' {
        Some(Direction::SouthEast)
    } else {
        None
    }
}

/// The direction of an upper-case vi-key.
pub open spec fn shifted_vi_direction(c: char) -> Option<Direction> {
    if c == 'K' {
        Some(Direction::North)
    } else if c == 'J' {
        Some(Direction::South)
    } else if c == 'H' {
        Some(Direction::West)
    } else if c == 'L' {
        Some(Direction::East)
    } else if c == 'Y' {
        Some(Direction::NorthWest)
    } else if c == 'U' {
        Some(Direction::NorthEast)
    } else if c == 'B' {
        Some(Direction::SouthWest)
    } else if c == 'N' {
        Some(Direction::SouthEast)
    } else {
        None
    }
}

/// The inventory slot of a digit key `1` to `9`.
pub open spec fn digit_slot(c: char) -> Option<usize> {
    if '1' <= c && c <= '9' {
        Some((c as u32 - '1' as u32) as usize)
    } else {
        None
    }
}

/// What a character key does during play.
pub open spec fn char_action(c: char, shift: bool) -> Option<PlayerAction> {
    if shifted_vi_direction(c) is Some {
        Some(PlayerAction::Attack(shifted_vi_direction(c)->0))
    } else if vi_direction(c) is Some {
        if shift {
            Some(PlayerAction::Attack(vi_direction(c)->0))
        } else {
            Some(PlayerAction::Move(vi_direction(c)->0))
        }
    } else if c == '.' {
        Some(PlayerAction::Wait)
    } else if c == '>' {
        Some(PlayerAction::Descend)
    } else if c == '<' {
        Some(PlayerAction::Ascend)
    } else if c == 'd' {
        Some(PlayerAction::DropItem(0))
    } else if c == 'i' {
        Some(PlayerAction::OpenInventory)
    } else if c == '?' {
        Some(PlayerAction::OpenHelp)
    } else if c == 'c' {
        Some(PlayerAction::OpenCharacterInfo)
    } else if c == 'o' {
        Some(PlayerAction::OpenOptions)
    } else if c == 'q' {
        Some(PlayerAction::Quit)
    } else if digit_slot(c) is Some {
        Some(PlayerAction::UseItem(digit_slot(c)->0))
    } else {
        None
    }
}

/// What a key does on a menu screen.
pub open spec fn menu_key_action(k: Key) -> Option<PlayerAction> {
    match k {
        Key::Up => Some(PlayerAction::MenuNavigate(NavigateDirection::Up)),
        Key::Down => Some(PlayerAction::MenuNavigate(NavigateDirection::Down)),
        Key::Left => Some(PlayerAction::MenuNavigate(NavigateDirection::Left)),
        Key::Right => Some(PlayerAction::MenuNavigate(NavigateDirection::Right)),
        Key::Enter => Some(PlayerAction::MenuSelect),
        Key::Backspace => Some(PlayerAction::MenuBack),
        Key::Esc => Some(PlayerAction::CloseMenu),
        Key::Char(c) => if c == 'k' {
            Some(PlayerAction::MenuNavigate(NavigateDirection::Up))
        } else if c == 'j' {
            Some(PlayerAction::MenuNavigate(NavigateDirection::Down))
        } else if c == 'h' {
            Some(PlayerAction::MenuNavigate(NavigateDirection::Left))
        } else if c == 'l' {
            Some(PlayerAction::MenuNavigate(NavigateDirection::Right))
        } else if c == 'q' {
            Some(PlayerAction::Quit)
        } else {
            None
        },
        Key::Other => None,
    }
}

/// What a key press does during play.
pub open spec fn play_key_action(k: KeyPress) -> Option<PlayerAction> {
    match k.key {
        Key::Up => Some(PlayerAction::Move(Direction::North)),
        Key::Down => Some(PlayerAction::Move(Direction::South)),
        Key::Left => Some(PlayerAction::Move(Direction::West)),
        Key::Right => Some(PlayerAction::Move(Direction::East)),
        Key::Esc => Some(PlayerAction::CloseMenu),
        Key::Char(c) => char_action(c, k.shift),
        _ => None,
    }
}

/// Every screen but the dungeon itself is a menu.
pub open spec fn is_menu_screen(status: GameStatus) -> bool {
    !(status is Running)
}

/// Actions that the menu system handles.
pub open spec fn spec_is_menu_action(a: PlayerAction) -> bool {
    match a {
        PlayerAction::OpenInventory | PlayerAction::OpenOptions | PlayerAction::OpenHelp
        | PlayerAction::OpenCharacterInfo | PlayerAction::CloseMenu | PlayerAction::MenuNavigate(_)
        | PlayerAction::MenuSelect | PlayerAction::MenuBack | PlayerAction::Quit => true,
        _ => false,
    }
}

/// Each vi-key moves in its direction, and the same key with Shift attacks
/// in that direction.
pub proof fn lemma_vi_keys_move_and_attack(c: char)
    requires
        vi_direction(c) is Some,
    ensures
        play_key_action(KeyPress { key: Key::Char(c), shift: false }) == Some(
            PlayerAction::Move(vi_direction(c)->0),
        ),
        play_key_action(KeyPress { key: Key::Char(c), shift: true }) == Some(
            PlayerAction::Attack(vi_direction(c)->0),
        ),
{
}

fn vi_key(c: char) -> (r: Option<Direction>)
    ensures
        r == vi_direction(c),
{
    match c {
        'k' => Some(Direction::North),
        'j' => Some(Direction::South),
        'h' => Some(Direction::West),
        'l' => Some(Direction::East),
        'y' => Some(Direction::NorthWest),
        'u' => Some(Direction::NorthEast),
        'b' => Some(Direction::SouthWest),
        'n' => Some(Direction::SouthEast),
        _ => None,
    }
}

fn shifted_vi_key(c: char) -> (r: Option<Direction>)
    ensures
        r == shifted_vi_direction(c),
{
    match c {
        'K' => Some(Direction::North),
        'J' => Some(Direction::South),
        'H' => Some(Direction::West),
        'L' => Some(Direction::East),
        'Y' => Some(Direction::NorthWest),
        'U' => Some(Direction::NorthEast),
        'B' => Some(Direction::SouthWest),
        'N' => Some(Direction::SouthEast),
        _ => None,
    }
}

fn digit_key(c: char) -> (r: Option<usize>)
    ensures
        r == digit_slot(c),
{
    match c {
        '1' => Some(0),
        '2' => Some(1),
        '3' => Some(2),
        '4' => Some(3),
        '5' => Some(4),
        '6' => Some(5),
        '7' => Some(6),
        '8' => Some(7),
        '9' => Some(8),
        _ => None,
    }
}

/// Whether the screen is a menu, on which keys navigate.
pub fn in_menu(status: &GameStatus) -> (r: bool)
    ensures
        r == is_menu_screen(*status),
{
    match status {
        GameStatus::Running => false,
        _ => true,
    }
}

/// The action a key press asks for on the given screen, if any.
pub fn map_key(key: KeyPress, status: &GameStatus) -> (r: Option<PlayerAction>)
    ensures
        r == if is_menu_screen(*status) {
            menu_key_action(key.key)
        } else {
            play_key_action(key)
        },
{
    if in_menu(status) {
        return match key.key {
            Key::Up => Some(PlayerAction::MenuNavigate(NavigateDirection::Up)),
            Key::Down => Some(PlayerAction::MenuNavigate(NavigateDirection::Down)),
            Key::Left => Some(PlayerAction::MenuNavigate(NavigateDirection::Left)),
            Key::Right => Some(PlayerAction::MenuNavigate(NavigateDirection::Right)),
            Key::Enter => Some(PlayerAction::MenuSelect),
            Key::Backspace => Some(PlayerAction::MenuBack),
            Key::Esc => Some(PlayerAction::CloseMenu),
            Key::Char('k') => Some(PlayerAction::MenuNavigate(NavigateDirection::Up)),
            Key::Char('j') => Some(PlayerAction::MenuNavigate(NavigateDirection::Down)),
            Key::Char('h') => Some(PlayerAction::MenuNavigate(NavigateDirection::Left)),
            Key::Char('l') => Some(PlayerAction::MenuNavigate(NavigateDirection::Right)),
            Key::Char('q') => Some(PlayerAction::Quit),
            _ => None,
        };
    }
    match key.key {
        Key::Up => Some(PlayerAction::Move(Direction::North)),
        Key::Down => Some(PlayerAction::Move(Direction::South)),
        Key::Left => Some(PlayerAction::Move(Direction::West)),
        Key::Right => Some(PlayerAction::Move(Direction::East)),
        Key::Esc => Some(PlayerAction::CloseMenu),
        Key::Char(c) => {
            if let Some(d) = shifted_vi_key(c) {
                return Some(PlayerAction::Attack(d));
            }
            if let Some(d) = vi_key(c) {
                return if key.shift {
                    Some(PlayerAction::Attack(d))
                } else {
                    Some(PlayerAction::Move(d))
                };
            }
            match c {
                '.' => Some(PlayerAction::Wait),
                '>' => Some(PlayerAction::Descend),
                '<' => Some(PlayerAction::Ascend),
                'd' => Some(PlayerAction::DropItem(0)),
                'i' => Some(PlayerAction::OpenInventory),
                '?' => Some(PlayerAction::OpenHelp),
                'c' => Some(PlayerAction::OpenCharacterInfo),
                'o' => Some(PlayerAction::OpenOptions),
                'q' => Some(PlayerAction::Quit),
                _ => match digit_key(c) {
                    Some(slot) => Some(PlayerAction::UseItem(slot)),
                    None => None,
                },
            }
        },
        _ => None,
    }
}

/// Whether the menu system, rather than the world systems, handles the
/// action.
pub fn is_menu_action(action: &PlayerAction) -> (r: bool)
    ensures
        r == spec_is_menu_action(*action),
{
    match action {
        PlayerAction::OpenInventory | PlayerAction::OpenOptions | PlayerAction::OpenHelp
        | PlayerAction::OpenCharacterInfo | PlayerAction::CloseMenu | PlayerAction::MenuNavigate(_)
        | PlayerAction::MenuSelect | PlayerAction::MenuBack | PlayerAction::Quit => true,
        _ => false,
    }
}

} // verus!

use pixel_dungeon::ecs::{Direction, GameStatus, NavigateDirection, PlayerAction};
use pixel_dungeon::input::{in_menu, is_menu_action, map_key, Key, KeyPress};

fn press(c: char) -> KeyPress {
    KeyPress { key: Key::Char(c), shift: false }
}

#[test]
fn vi_keys_move_and_shifted_vi_keys_attack() {
    let play = GameStatus::Running;
    let table = [
        ('k', Direction::North),
        ('j', Direction::South),
        ('h', Direction::West),
        ('l', Direction::East),
        ('y', Direction::NorthWest),
        ('u', Direction::NorthEast),
        ('b', Direction::SouthWest),
        ('n', Direction::SouthEast),
    ];
    for (c, d) in table {
        assert_eq!(map_key(press(c), &play), Some(PlayerAction::Move(d)));
        assert_eq!(map_key(KeyPress { key: Key::Char(c), shift: true }, &play), Some(PlayerAction::Attack(d)));
        assert_eq!(map_key(press(c.to_ascii_uppercase()), &play), Some(PlayerAction::Attack(d)));
    }
    assert_eq!(map_key(KeyPress { key: Key::Up, shift: false }, &play), Some(PlayerAction::Move(Direction::North)));
    assert_eq!(map_key(KeyPress { key: Key::Left, shift: false }, &play), Some(PlayerAction::Move(Direction::West)));
}

#[test]
fn other_play_keys() {
    let play = GameStatus::Running;
    assert_eq!(map_key(press('.'), &play), Some(PlayerAction::Wait));
    assert_eq!(map_key(press('>'), &play), Some(PlayerAction::Descend));
    // Terminals often report '<' with Shift held; it still takes the stairs.
    assert_eq!(map_key(KeyPress { key: Key::Char('<'), shift: true }, &play), Some(PlayerAction::Ascend));
    assert_eq!(map_key(press('1'), &play), Some(PlayerAction::UseItem(0)));
    assert_eq!(map_key(press('9'), &play), Some(PlayerAction::UseItem(8)));
    assert_eq!(map_key(press('0'), &play), None);
    assert_eq!(map_key(press('d'), &play), Some(PlayerAction::DropItem(0)));
    assert_eq!(map_key(press('q'), &play), Some(PlayerAction::Quit));
    assert_eq!(map_key(press('z'), &play), None);
    assert_eq!(map_key(KeyPress { key: Key::Enter, shift: false }, &play), None);
}

#[test]
fn menu_keys() {
    let menu = GameStatus::MainMenu { selected_option: 0 };
    assert!(in_menu(&menu));
    assert!(!in_menu(&GameStatus::Running));
    assert_eq!(map_key(press('k'), &menu), Some(PlayerAction::MenuNavigate(NavigateDirection::Up)));
    assert_eq!(map_key(KeyPress { key: Key::Down, shift: false }, &menu), Some(PlayerAction::MenuNavigate(NavigateDirection::Down)));
    assert_eq!(map_key(KeyPress { key: Key::Enter, shift: false }, &menu), Some(PlayerAction::MenuSelect));
    assert_eq!(map_key(KeyPress { key: Key::Backspace, shift: false }, &menu), Some(PlayerAction::MenuBack));
    assert_eq!(map_key(KeyPress { key: Key::Esc, shift: false }, &menu), Some(PlayerAction::CloseMenu));
    assert_eq!(map_key(press('.'), &menu), None);
    assert!(is_menu_action(&PlayerAction::MenuSelect));
    assert!(is_menu_action(&PlayerAction::Quit));
    assert!(!is_menu_action(&PlayerAction::Wait));
    assert!(!is_menu_action(&PlayerAction::Attack(Direction::North)));
}

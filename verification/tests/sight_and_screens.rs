use pixel_dungeon::ecs::{EntityId, GameClockState, GameConfig, GameOverReason, GameState, GameStatus, HeroClass, InputBuffer, Resources};
use pixel_dungeon::items::DisplayColor;
use pixel_dungeon::render::{ClassSelectionRenderer, DungeonRenderer, GameOverRenderer, HudRenderer, InventoryRenderer};
use pixel_dungeon::render::message_style;
use pixel_dungeon::systems::fov::FOVSystem;
use pixel_dungeon::text::{chars_of, contains_infix, starts_with};
use pixel_dungeon::world::{EcsItem, GameWorld, Hunger, ItemType, Position, Stats, TerrainType, Tile, WorldEntity};

fn bare(id: u64) -> WorldEntity {
    WorldEntity {
        id: EntityId(id),
        is_player: false,
        position: None,
        tile: None,
        actor: None,
        stats: None,
        energy: None,
        hunger: None,
        inventory: None,
        item: None,
        ai: None,
        effects: None,
    }
}

fn wall(id: u64, x: i32, y: i32) -> WorldEntity {
    let mut e = bare(id);
    e.position = Some(Position { x, y, z: 0 });
    e.tile = Some(Tile { terrain_type: TerrainType::Wall, is_passable: false, blocks_sight: true, has_items: false, has_monster: false });
    e
}

fn at(x: i32, y: i32) -> Position {
    Position { x, y, z: 0 }
}

#[test]
fn bresenham_sight_is_blocked_only_between_the_ends() {
    let world = GameWorld { entities: vec![wall(1, 2, 0)], next_id: 2 };
    // The wall stands between (0, 0) and (4, 0).
    assert!(!FOVSystem::bresenham_line_of_sight(&at(0, 0), &at(4, 0), &world));
    // The wall itself is seen, and so is everything short of it.
    assert!(FOVSystem::bresenham_line_of_sight(&at(0, 0), &at(2, 0), &world));
    assert!(FOVSystem::bresenham_line_of_sight(&at(0, 0), &at(1, 0), &world));
    // A viewer standing on the wall is not blocked by it.
    assert!(FOVSystem::bresenham_line_of_sight(&at(2, 0), &at(4, 0), &world));
    // A line passing beside the wall.
    assert!(FOVSystem::bresenham_line_of_sight(&at(0, 0), &at(4, 2), &world));
    // The same cell is always in sight.
    assert!(FOVSystem::bresenham_line_of_sight(&at(3, 3), &at(3, 3), &world));
    // Steep and backward lines.
    let world = GameWorld { entities: vec![wall(1, 0, -3)], next_id: 2 };
    assert!(!FOVSystem::bresenham_line_of_sight(&at(1, 0), &at(-1, -6), &world));
    assert!(FOVSystem::bresenham_line_of_sight(&at(1, 0), &at(1, -6), &world));
}

#[test]
fn ray_casting_sees_a_circle_and_stops_at_walls() {
    let empty = GameWorld { entities: Vec::new(), next_id: 1 };
    let seen = FOVSystem::ray_casting_fov(&at(0, 0), 1, &empty);
    // The viewer's cell, then the plus shape of radius one, column by column
    // (the viewer's cell comes again in the middle).
    assert_eq!(seen, vec![at(0, 0), at(-1, 0), at(0, -1), at(0, 0), at(0, 1), at(1, 0)]);
    let seen = FOVSystem::ray_casting_fov(&at(5, 5), 0, &empty);
    assert_eq!(seen, vec![at(5, 5), at(5, 5)]);
    let seen = FOVSystem::ray_casting_fov(&at(0, 0), 2, &empty);
    assert_eq!(seen.len(), 1 + 13);

    let world = GameWorld { entities: vec![wall(1, 1, 0)], next_id: 2 };
    let seen = FOVSystem::ray_casting_fov(&at(0, 0), 2, &world);
    assert!(seen.contains(&at(1, 0)));
    assert!(!seen.contains(&at(2, 0)));
    assert_eq!(seen.len(), 1 + 12);
}

#[test]
fn map_glyphs_and_dimming() {
    let r = DungeonRenderer::new();
    assert_eq!(r.get_tile_appearance(TerrainType::Wall), ('█', DisplayColor::Rgb(80, 80, 80)));
    assert_eq!(r.get_tile_appearance(TerrainType::StairsDown), ('▼', DisplayColor::Cyan));
    assert_eq!(r.get_tile_appearance(TerrainType::Barrel), ('⚱', DisplayColor::Yellow));
    assert_eq!(r.get_tile_appearance(TerrainType::Empty), (' ', DisplayColor::Black));
    assert_eq!(r.darken_color(DisplayColor::Red), DisplayColor::Rgb(80, 0, 0));
    assert_eq!(r.darken_color(DisplayColor::Rgb(139, 69, 19)), DisplayColor::Rgb(69, 34, 9));
    assert_eq!(r.darken_color(DisplayColor::LightCyan), DisplayColor::LightCyan);
    assert_eq!(r.darken_color(DisplayColor::Black), DisplayColor::Black);
}

#[test]
fn map_depth_comes_from_the_player() {
    let r = DungeonRenderer::new();
    let mut hero = bare(1);
    hero.is_player = true;
    hero.position = Some(Position { x: 0, y: 0, z: -3 });
    let world = GameWorld { entities: vec![wall(2, 0, 0), hero], next_id: 3 };
    assert_eq!(r.get_dungeon_depth(&world), 3);
    let world = GameWorld { entities: vec![wall(2, 0, 0)], next_id: 3 };
    assert_eq!(r.get_dungeon_depth(&world), 1);
}

fn stats(hp: u32, max_hp: u32) -> Stats {
    Stats { hp, max_hp, attack: 1, defense: 1, accuracy: 1, evasion: 1, level: 3, experience: 10 }
}

#[test]
fn status_bar_bands() {
    let hud = HudRenderer::new();
    assert_eq!(hud.class_icon(HeroClass::Warrior), "⚔");
    assert_eq!(hud.class_icon(HeroClass::Huntress), "🏹");
    assert_eq!(hud.health_color(&stats(7, 10)), DisplayColor::Green);
    assert_eq!(hud.health_color(&stats(6, 10)), DisplayColor::Yellow);
    assert_eq!(hud.health_color(&stats(4, 10)), DisplayColor::Yellow);
    assert_eq!(hud.health_color(&stats(3, 10)), DisplayColor::Red);
    assert_eq!(hud.health_color(&stats(1, 0)), DisplayColor::Green);
    assert_eq!(hud.health_color(&stats(0, 0)), DisplayColor::Red);
    // Cross-check the whole-number comparison against the floating-point ratio.
    for max in 0u32..40 {
        for hp in 0u32..50 {
            let ratio = hp as f64 / max.max(1) as f64;
            let expected = if ratio > 0.6 {
                DisplayColor::Green
            } else if ratio > 0.3 {
                DisplayColor::Yellow
            } else {
                DisplayColor::Red
            };
            assert_eq!(hud.health_color(&stats(hp, max)), expected);
        }
    }
    assert_eq!(hud.hunger_indicator(&Hunger { satiety: 10, last_hunger_turn: 0 }), ("🍖", DisplayColor::Green));
    assert_eq!(hud.hunger_indicator(&Hunger { satiety: 6, last_hunger_turn: 0 }), ("🍗", DisplayColor::Yellow));
    assert_eq!(hud.hunger_indicator(&Hunger { satiety: 3, last_hunger_turn: 0 }), ("🥩", DisplayColor::LightRed));
    assert_eq!(hud.hunger_indicator(&Hunger { satiety: 2, last_hunger_turn: 0 }), ("💀", DisplayColor::Red));
    assert_eq!(hud.hunger_indicator(&Hunger { satiety: 11, last_hunger_turn: 0 }), ("💀", DisplayColor::Red));
    assert_eq!(hud.experience_goal(&stats(1, 1)), 300);
}

fn resources(depth: usize, log: Vec<String>) -> Resources {
    Resources {
        input_buffer: InputBuffer { pending_actions: Vec::new(), completed_actions: Vec::new() },
        game_state: GameState {
            game_state: GameStatus::Victory,
            message_log: log,
            depth,
            selected_class: None,
            frame_count: 1234,
        },
        clock: GameClockState { turn_count: 0 },
        config: GameConfig { max_depth: 3 },
    }
}

#[test]
fn end_screen_statistics() {
    let r = GameOverRenderer::new();
    let lines = r.get_game_statistics(&resources(7, vec!["a".to_string(), "last words".to_string()]));
    assert_eq!(
        lines,
        vec![
            "游戏时长: 15 分钟".to_string(),
            "到达深度: 第 7 层".to_string(),
            "渲染帧数: 1234".to_string(),
            String::new(),
            "消息记录:".to_string(),
            "  • last words".to_string(),
        ]
    );
    let lines = r.get_game_statistics(&resources(150, Vec::new()));
    assert_eq!(lines[1], "到达深度: 第 99 层");
    assert_eq!(lines[5], "  • 没有什么特别的事情发生");
}

#[test]
fn item_colors() {
    let r = InventoryRenderer::new();
    let item = EcsItem {
        name: "Short sword".to_string(),
        item_type: ItemType::Weapon { damage: 4 },
        value: 10,
        identified: true,
        quantity: 1,
        level: 0,
        cursed: false,
        charges: None,
    };
    assert_eq!(r.get_item_color(&item, None), DisplayColor::Red);
    assert_eq!(r.get_item_color(&item, Some(DisplayColor::LightBlue)), DisplayColor::LightBlue);
    let key = EcsItem { item_type: ItemType::Key, ..item };
    assert_eq!(r.get_item_color(&key, None), DisplayColor::LightYellow);
}

#[test]
fn class_introductions() {
    let r = ClassSelectionRenderer::new();
    let (title, desc, special) = r.class_description(HeroClass::Rogue);
    assert_eq!(title, "盗贼 - 致命的暗影刺客");
    assert!(desc.starts_with("盗贼擅长偷袭和暴击"));
    assert_eq!(special, "特性：高暴击率 | 速攻专家 | 潜行优势");
    assert_eq!(r.class_description(HeroClass::Warrior).0, "战士 - 坚韧的近战专家");
}

#[test]
fn menu_texts() {
    let m = pixel_dungeon::render::MenuRenderer::new();
    assert_eq!(m.main_menu_items(), vec!["🗡️  开始新游戏", "📦 继续游戏", "⚙️  游戏设置", "❓ 帮助说明", "🚪 退出游戏"]);
    assert_eq!(m.pause_menu_items().len(), 6);
    assert_eq!(m.pause_menu_items()[5], "💾 保存并退出");
    assert_eq!(m.option_items()[2], ("按键绑定", "默认"));
    let help = m.help_lines();
    assert_eq!(help.len(), 26);
    assert_eq!(help[0], "🎮 游戏操作指南");
    assert_eq!(help[25], "  • 探索地图时注意地形");
}

#[test]
fn game_over_headings() {
    let r = GameOverRenderer::new();
    let (emoji, color, text) = r.game_over_title(&GameStatus::GameOver { reason: GameOverReason::Died("死亡") });
    assert_eq!((emoji, color, text.as_str()), ("☠️", DisplayColor::Red, "你死了：死亡"));
    let (emoji, color, text) = r.game_over_title(&GameStatus::GameOver { reason: GameOverReason::Defeated("哥布林") });
    assert_eq!((emoji, color, text.as_str()), ("⚔️", DisplayColor::Red, "被哥布林击败"));
    let (emoji, color, text) = r.game_over_title(&GameStatus::GameOver { reason: GameOverReason::Starved });
    assert_eq!((emoji, color, text.as_str()), ("🍖", DisplayColor::Yellow, "饿死在地牢中"));
    let (_, _, text) = r.game_over_title(&GameStatus::GameOver { reason: GameOverReason::Trapped("毒镖") });
    assert_eq!(text, "死于陷阱：毒镖");
    let (emoji, color, text) = r.game_over_title(&GameStatus::GameOver { reason: GameOverReason::Quit });
    assert_eq!((emoji, color, text.as_str()), ("🚪", DisplayColor::Gray, "游戏结束"));
    let (emoji, _, text) = r.game_over_title(&GameStatus::Running);
    assert_eq!((emoji, text.as_str()), ("❓", "游戏结束"));
}

#[test]
fn message_marks() {
    assert_eq!(message_style(&"!小心".to_string()), ("⚠ ", DisplayColor::Red));
    assert_eq!(message_style(&"哥布林死亡了".to_string()), ("⚠ ", DisplayColor::Red));
    assert_eq!(message_style(&"你受伤了".to_string()), ("⚠ ", DisplayColor::Red));
    assert_eq!(message_style(&"+10 金币".to_string()), ("✓ ", DisplayColor::Green));
    assert_eq!(message_style(&"你拾取了药水".to_string()), ("✓ ", DisplayColor::Green));
    assert_eq!(message_style(&"*宝箱*".to_string()), ("★ ", DisplayColor::Yellow));
    assert_eq!(message_style(&"你发现了楼梯".to_string()), ("★ ", DisplayColor::Yellow));
    assert_eq!(message_style(&"你走了一步".to_string()), ("• ", DisplayColor::White));
    assert_eq!(message_style(&String::new()), ("• ", DisplayColor::White));
    // Warnings come first.
    assert_eq!(message_style(&"获得死亡诅咒".to_string()), ("⚠ ", DisplayColor::Red));
}

#[test]
fn text_search() {
    let s = chars_of("地牢深处");
    assert_eq!(s, vec!['地', '牢', '深', '处']);
    assert!(contains_infix(&s, &chars_of("深处")));
    assert!(contains_infix(&s, &chars_of("")));
    assert!(!contains_infix(&s, &chars_of("处深")));
    assert!(!contains_infix(&chars_of("a"), &chars_of("ab")));
    assert!(starts_with(&s, '地'));
    assert!(!starts_with(&chars_of(""), '地'));
}

#[test]
fn neighbours_are_always_in_sight() {
    let mut walls = Vec::new();
    let mut id = 1;
    for dx in -1..=1 {
        for dy in -1..=1 {
            if dx != 0 || dy != 0 {
                walls.push(wall(id, dx, dy));
                id += 1;
            }
        }
    }
    let world = GameWorld { entities: walls, next_id: id };
    for dx in -1..=1 {
        for dy in -1..=1 {
            assert!(FOVSystem::bresenham_line_of_sight(&at(0, 0), &at(dx, dy), &world));
        }
    }
    // Two steps away, behind a wall, is hidden.
    assert!(!FOVSystem::bresenham_line_of_sight(&at(0, 0), &at(2, 0), &world));
}

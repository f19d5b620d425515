//! What the screens show, as text: the message line, the last message, item
//! icons and descriptions; and the screen renderers' settings.

use vstd::prelude::*;
use crate::ecs::{log_view, Resources};
use crate::text::{
    chars_of, contains_infix, decimal, has_infix, push_decimal, push_signed_decimal, signed_decimal, starts_with,
    starts_with_char,
};
use crate::ecs::{GameOverReason, GameStatus, HeroClass, NavigateDirection};
use crate::systems::menu::navigate_status;
use crate::items::DisplayColor;
use crate::world::{ConsumableEffect, EcsItem, GameWorld, Hunger, ItemType, StatType, Stats, TerrainType, WorldEntity};

verus! {

/// Renders the class selection screen.
pub struct ClassSelectionRenderer;

/// The introduction of a hero class: title, description and traits.
pub open spec fn class_intro(c: HeroClass) -> (Seq<char>, Seq<char>, Seq<char>) {
    match c {
        HeroClass::Warrior => (
            "战士 - 坚韧的近战专家"@,
            "战士拥有最高的生命值和防御力，是团队的前排坦克。\n他们在近战战斗中表现出色，能够承受大量伤害。"@,
            "特性：高生命值 | 平衡攻防 | 近战优势"@,
        ),
        HeroClass::Mage => (
            "法师 - 强大的魔法大师"@,
            "法师精通各种魔法，虽然生命值较低，但能造成毁灭性的\n魔法伤害。需要谨慎保持距离作战。"@,
            "特性：低生命值 | 高魔法伤害 | 魔法特化"@,
        ),
        HeroClass::Rogue => (
            "盗贼 - 致命的暗影刺客"@,
            "盗贼擅长偷袭和暴击，拥有最高的暴击率。在暗处发动\n攻击时能造成惊人的伤害。"@,
            "特性：高暴击率 | 速攻专家 | 潜行优势"@,
        ),
        HeroClass::Huntress => (
            "女猎手 - 精准的远程射手"@,
            "女猎手是远程战斗的专家，能够在安全距离攻击敌人。\n精通弓箭和自然魔法。"@,
            "特性：远程攻击 | 自然亲和 | 精准射击"@,
        ),
    }
}

impl ClassSelectionRenderer {
    pub fn new() -> (r: Self) {
        ClassSelectionRenderer
    }

    /// The introduction shown for a class.
    pub fn class_description(&self, class: HeroClass) -> (r: (&'static str, &'static str, &'static str))
        ensures
            (r.0@, r.1@, r.2@) == class_intro(class),
    {
        match class {
            HeroClass::Warrior => (
                "战士 - 坚韧的近战专家",
                "战士拥有最高的生命值和防御力，是团队的前排坦克。\n他们在近战战斗中表现出色，能够承受大量伤害。",
                "特性：高生命值 | 平衡攻防 | 近战优势",
            ),
            HeroClass::Mage => (
                "法师 - 强大的魔法大师",
                "法师精通各种魔法，虽然生命值较低，但能造成毁灭性的\n魔法伤害。需要谨慎保持距离作战。",
                "特性：低生命值 | 高魔法伤害 | 魔法特化",
            ),
            HeroClass::Rogue => (
                "盗贼 - 致命的暗影刺客",
                "盗贼擅长偷袭和暴击，拥有最高的暴击率。在暗处发动\n攻击时能造成惊人的伤害。",
                "特性：高暴击率 | 速攻专家 | 潜行优势",
            ),
            HeroClass::Huntress => (
                "女猎手 - 精准的远程射手",
                "女猎手是远程战斗的专家，能够在安全距离攻击敌人。\n精通弓箭和自然魔法。",
                "特性：远程攻击 | 自然亲和 | 精准射击",
            ),
        }
    }
}

/// Renders the dungeon map.
pub struct DungeonRenderer {
    /// Show the whole map (for debugging).
    pub show_all: bool,
}

/// Glyph and color of a terrain on the map.
pub open spec fn tile_look(t: TerrainType) -> (char, DisplayColor) {
    match t {
        TerrainType::Wall => ('█', DisplayColor::Rgb(80, 80, 80)),
        TerrainType::Floor => ('·', DisplayColor::Rgb(120, 120, 120)),
        TerrainType::Door => ('▒', DisplayColor::Rgb(139, 69, 19)),
        TerrainType::StairsDown => ('▼', DisplayColor::Cyan),
        TerrainType::StairsUp => ('▲', DisplayColor::Magenta),
        TerrainType::Water => ('≈', DisplayColor::Blue),
        TerrainType::Trap => ('⚠', DisplayColor::Red),
        TerrainType::Barrel => ('⚱', DisplayColor::Yellow),
        TerrainType::Empty => (' ', DisplayColor::Black),
    }
}

/// The dim color of a remembered cell: each basic color becomes a dark
/// shade, and an RGB color keeps half of each channel.
pub open spec fn dimmed(c: DisplayColor) -> DisplayColor {
    match c {
        DisplayColor::Red => DisplayColor::Rgb(80, 0, 0),
        DisplayColor::Green => DisplayColor::Rgb(0, 80, 0),
        DisplayColor::Yellow => DisplayColor::Rgb(80, 80, 0),
        DisplayColor::Blue => DisplayColor::Rgb(0, 0, 80),
        DisplayColor::Magenta => DisplayColor::Rgb(80, 0, 80),
        DisplayColor::Cyan => DisplayColor::Rgb(0, 80, 80),
        DisplayColor::Gray => DisplayColor::Rgb(40, 40, 40),
        DisplayColor::DarkGray => DisplayColor::Rgb(20, 20, 20),
        DisplayColor::White => DisplayColor::Rgb(80, 80, 80),
        DisplayColor::Rgb(r, g, b) => DisplayColor::Rgb((r / 2) as u8, (g / 2) as u8, (b / 2) as u8),
        other => other,
    }
}

/// The player stands at `i` with a position, and no earlier player has one.
pub open spec fn is_first_placed_player(s: Seq<WorldEntity>, i: int) -> bool {
    &&& 0 <= i < s.len()
    &&& s[i].is_player
    &&& s[i].position is Some
    &&& forall|j: int| 0 <= j < i ==> !((#[trigger] s[j]).is_player && s[j].position is Some)
}

/// The depth in the map's title: the level of the first player with a
/// position, made positive; one without such a player.
pub open spec fn shown_depth(s: Seq<WorldEntity>) -> int {
    if exists|i: int| is_first_placed_player(s, i) {
        let z = s[choose|i: int| is_first_placed_player(s, i)].position->0.z;
        if z >= 0 { z as int } else { -z }
    } else {
        1
    }
}

impl DungeonRenderer {
    /// Shows only what the player has seen.
    pub fn new() -> (r: Self)
        ensures
            !r.show_all,
    {
        DungeonRenderer { show_all: false }
    }

    /// Glyph and color a terrain is drawn with.
    pub fn get_tile_appearance(&self, terrain: TerrainType) -> (r: (char, DisplayColor))
        ensures
            r == tile_look(terrain),
    {
        match terrain {
            TerrainType::Wall => ('█', DisplayColor::Rgb(80, 80, 80)),
            TerrainType::Floor => ('·', DisplayColor::Rgb(120, 120, 120)),
            TerrainType::Door => ('▒', DisplayColor::Rgb(139, 69, 19)),
            TerrainType::StairsDown => ('▼', DisplayColor::Cyan),
            TerrainType::StairsUp => ('▲', DisplayColor::Magenta),
            TerrainType::Water => ('≈', DisplayColor::Blue),
            TerrainType::Trap => ('⚠', DisplayColor::Red),
            TerrainType::Barrel => ('⚱', DisplayColor::Yellow),
            TerrainType::Empty => (' ', DisplayColor::Black),
        }
    }

    /// The color a remembered, no longer visible cell is drawn in.
    pub fn darken_color(&self, color: DisplayColor) -> (r: DisplayColor)
        ensures
            r == dimmed(color),
    {
        match color {
            DisplayColor::Red => DisplayColor::Rgb(80, 0, 0),
            DisplayColor::Green => DisplayColor::Rgb(0, 80, 0),
            DisplayColor::Yellow => DisplayColor::Rgb(80, 80, 0),
            DisplayColor::Blue => DisplayColor::Rgb(0, 0, 80),
            DisplayColor::Magenta => DisplayColor::Rgb(80, 0, 80),
            DisplayColor::Cyan => DisplayColor::Rgb(0, 80, 80),
            DisplayColor::Gray => DisplayColor::Rgb(40, 40, 40),
            DisplayColor::DarkGray => DisplayColor::Rgb(20, 20, 20),
            DisplayColor::White => DisplayColor::Rgb(80, 80, 80),
            DisplayColor::Rgb(r, g, b) => DisplayColor::Rgb(r / 2, g / 2, b / 2),
            other => other,
        }
    }

    /// The depth shown in the map's title.
    pub fn get_dungeon_depth(&self, world: &GameWorld) -> (d: i32)
        requires
            forall|j: int|
                #[trigger] is_first_placed_player(world.entities@, j) ==> world.entities@[j].position->0.z > i32::MIN,
        ensures
            d == shown_depth(world.entities@),
    {
        let n = world.entities.len();
        let mut i: usize = 0;
        while i < n
            invariant
                n == world.entities@.len(),
                0 <= i <= n,
                forall|j: int| 0 <= j < i ==> !((#[trigger] world.entities@[j]).is_player && world.entities@[j].position is Some),
                forall|j: int|
                    #[trigger] is_first_placed_player(world.entities@, j) ==> world.entities@[j].position->0.z > i32::MIN,
            decreases n - i,
        {
            if world.entities[i].is_player {
                match world.entities[i].position {
                    Some(p) => {
                        proof {
                            let s = world.entities@;
                            assert(is_first_placed_player(s, i as int));
                            let k = choose|k: int| is_first_placed_player(s, k);
                            if k < i {
                                assert(s[k].is_player && s[k].position is Some);
                            } else if k > i {
                                assert(s[i as int].is_player && s[i as int].position is Some);
                            }
                        }
                        return if p.z >= 0 { p.z } else { -p.z };
                    },
                    None => {},
                }
            }
            i = i + 1;
        }
        1
    }
}

/// Renders the end-of-game screens.
pub struct GameOverRenderer;

/// Message shown when the log is empty at the end of a game.
pub open spec fn quiet_game_text() -> Seq<char> {
    "没有什么特别的事情发生"@
}

/// The last message of a log, or the quiet-game line for an empty one.
pub open spec fn last_message_text(log: Seq<Seq<char>>) -> Seq<char> {
    if log.len() == 0 {
        quiet_game_text()
    } else {
        log.last()
    }
}

/// The end screen's statistics for a depth, a frame count and the last
/// message.
pub open spec fn statistics_lines(depth: nat, frames: nat, last: Seq<char>) -> Seq<Seq<char>> {
    seq![
        "游戏时长: "@ + decimal(15) + " 分钟"@,
        "到达深度: 第 "@ + decimal(if depth < 99 { depth } else { 99 }) + " 层"@,
        "渲染帧数: "@ + decimal(frames),
        Seq::empty(),
        "消息记录:"@,
        "  • "@ + last,
    ]
}

/// The heading of the game-over screen for a screen state.
pub open spec fn game_over_heading(status: GameStatus) -> (Seq<char>, DisplayColor, Seq<char>) {
    match status {
        GameStatus::GameOver { reason } => match reason {
            GameOverReason::Died(cause) => ("☠️"@, DisplayColor::Red, "你死了："@ + cause@),
            GameOverReason::Defeated(enemy) => ("⚔️"@, DisplayColor::Red, "被"@ + enemy@ + "击败"@),
            GameOverReason::Starved => ("🍖"@, DisplayColor::Yellow, "饿死在地牢中"@),
            GameOverReason::Trapped(trap) => ("🕳️"@, DisplayColor::Red, "死于陷阱："@ + trap@),
            GameOverReason::Quit => ("🚪"@, DisplayColor::Gray, "游戏结束"@),
        },
        _ => ("❓"@, DisplayColor::Red, "游戏结束"@),
    }
}

impl GameOverRenderer {
    pub fn new() -> (r: Self) {
        GameOverRenderer
    }

    /// Play time shown on the end screen, in minutes (a fixed value: the
    /// clock does not track it yet).
    pub fn calculate_playtime(&self, resources: &Resources) -> (m: u32)
        ensures
            m == 15,
    {
        15
    }

    /// The statistics of the end screen, line by line: play time, depth
    /// reached (at most 99), frames drawn, a blank line, and the last message
    /// under its heading.
    pub fn get_game_statistics(&self, resources: &Resources) -> (lines: Vec<String>)
        ensures
            log_view(lines@) == statistics_lines(
                resources.game_state.depth as nat,
                resources.game_state.frame_count as nat,
                last_message_text(log_view(resources.game_state.message_log@)),
            ),
    {
        let mut lines: Vec<String> = Vec::new();
        let mut time = String::from_str("游戏时长: ");
        push_decimal(&mut time, self.calculate_playtime(resources) as u64);
        time.append(" 分钟");
        lines.push(time);
        let depth = if resources.game_state.depth < 99 { resources.game_state.depth } else { 99 };
        let mut reached = String::from_str("到达深度: 第 ");
        push_decimal(&mut reached, depth as u64);
        reached.append(" 层");
        lines.push(reached);
        let mut frames = String::from_str("渲染帧数: ");
        push_decimal(&mut frames, resources.game_state.frame_count);
        lines.push(frames);
        lines.push(String::new());
        lines.push(String::from_str("消息记录:"));
        let mut last = String::from_str("  • ");
        let m = self.get_last_message(resources);
        last.append(m.as_str());
        lines.push(last);
        proof {
            let n = resources.game_state.message_log@.len();
            if n > 0 {
                assert(log_view(resources.game_state.message_log@).last() == resources.game_state.message_log@.last()@);
            }
            assert(log_view(lines@) =~= statistics_lines(
                resources.game_state.depth as nat,
                resources.game_state.frame_count as nat,
                last_message_text(log_view(resources.game_state.message_log@)),
            ));
        }
        lines
    }

    /// The heading of the game-over screen: an emoji, a color and the
    /// cause of the end; a neutral heading on any other screen.
    pub fn game_over_title(&self, status: &GameStatus) -> (r: (&'static str, DisplayColor, String))
        ensures
            (r.0@, r.1, r.2@) == game_over_heading(*status),
    {
        match status {
            GameStatus::GameOver { reason } => match reason {
                GameOverReason::Died(cause) => {
                    let mut t = String::from_str("你死了：");
                    t.append(cause);
                    ("☠️", DisplayColor::Red, t)
                },
                GameOverReason::Defeated(enemy) => {
                    let mut t = String::from_str("被");
                    t.append(enemy);
                    t.append("击败");
                    ("⚔️", DisplayColor::Red, t)
                },
                GameOverReason::Starved => ("🍖", DisplayColor::Yellow, String::from_str("饿死在地牢中")),
                GameOverReason::Trapped(trap) => {
                    let mut t = String::from_str("死于陷阱：");
                    t.append(trap);
                    ("🕳️", DisplayColor::Red, t)
                },
                GameOverReason::Quit => ("🚪", DisplayColor::Gray, String::from_str("游戏结束")),
            },
            _ => ("❓", DisplayColor::Red, String::from_str("游戏结束")),
        }
    }

    /// The last message of the log, or a quiet-game line when it is empty.
    pub fn get_last_message(&self, resources: &Resources) -> (s: String)
        ensures
            s@ == if resources.game_state.message_log@.len() == 0 {
                quiet_game_text()
            } else {
                resources.game_state.message_log@.last()@
            },
    {
        let n = resources.game_state.message_log.len();
        if n == 0 {
            String::from_str("没有什么特别的事情发生")
        } else {
            resources.game_state.message_log[n - 1].clone()
        }
    }
}

/// Renders the status bar.
pub struct HudRenderer;

/// The icon of a hero class.
pub open spec fn class_symbol(c: HeroClass) -> Seq<char> {
    match c {
        HeroClass::Warrior => "⚔"@,
        HeroClass::Mage => "🔮"@,
        HeroClass::Rogue => "🗡"@,
        HeroClass::Huntress => "🏹"@,
    }
}

/// The color of the health gauge: green above three fifths of the maximum
/// (a maximum of zero counts as one), yellow above three tenths, red below.
pub open spec fn health_band(hp: u32, max_hp: u32) -> DisplayColor {
    let m = if max_hp == 0 { 1 } else { max_hp as int };
    if 5 * hp > 3 * m {
        DisplayColor::Green
    } else if 10 * hp > 3 * m {
        DisplayColor::Yellow
    } else {
        DisplayColor::Red
    }
}

/// The icon and color of the satiety display.
pub open spec fn hunger_band(satiety: u32) -> (Seq<char>, DisplayColor) {
    if 9 <= satiety <= 10 {
        ("🍖"@, DisplayColor::Green)
    } else if 6 <= satiety <= 8 {
        ("🍗"@, DisplayColor::Yellow)
    } else if 3 <= satiety <= 5 {
        ("🥩"@, DisplayColor::LightRed)
    } else {
        ("💀"@, DisplayColor::Red)
    }
}

impl HudRenderer {
    pub fn new() -> (r: Self) {
        HudRenderer
    }

    /// The icon shown beside the level.
    pub fn class_icon(&self, class: HeroClass) -> (s: &'static str)
        ensures
            s@ == class_symbol(class),
    {
        match class {
            HeroClass::Warrior => {
                proof {
                    reveal_strlit("⚔");
                }
                "⚔"
            },
            HeroClass::Mage => {
                proof {
                    reveal_strlit("🔮");
                }
                "🔮"
            },
            HeroClass::Rogue => {
                proof {
                    reveal_strlit("🗡");
                }
                "🗡"
            },
            HeroClass::Huntress => {
                proof {
                    reveal_strlit("🏹");
                }
                "🏹"
            },
        }
    }

    /// The color of the health gauge. (The gauge's ratio is compared with
    /// three fifths and three tenths; comparing whole numbers gives the same
    /// answer for every pair of `u32`.)
    pub fn health_color(&self, stats: &Stats) -> (c: DisplayColor)
        ensures
            c == health_band(stats.hp, stats.max_hp),
    {
        let m: u64 = if stats.max_hp == 0 { 1 } else { stats.max_hp as u64 };
        let hp = stats.hp as u64;
        if 5 * hp > 3 * m {
            DisplayColor::Green
        } else if 10 * hp > 3 * m {
            DisplayColor::Yellow
        } else {
            DisplayColor::Red
        }
    }

    /// The icon and color of the satiety display.
    pub fn hunger_indicator(&self, hunger: &Hunger) -> (r: (&'static str, DisplayColor))
        ensures
            (r.0@, r.1) == hunger_band(hunger.satiety),
    {
        let s = hunger.satiety;
        if 9 <= s && s <= 10 {
            proof {
                reveal_strlit("🍖");
            }
            ("🍖", DisplayColor::Green)
        } else if 6 <= s && s <= 8 {
            proof {
                reveal_strlit("🍗");
            }
            ("🍗", DisplayColor::Yellow)
        } else if 3 <= s && s <= 5 {
            proof {
                reveal_strlit("🥩");
            }
            ("🥩", DisplayColor::LightRed)
        } else {
            proof {
                reveal_strlit("💀");
            }
            ("💀", DisplayColor::Red)
        }
    }

    /// The experience the next level asks for: a hundred per level.
    pub fn experience_goal(&self, stats: &Stats) -> (g: u32)
        requires
            stats.level * 100 <= u32::MAX,
        ensures
            g == stats.level * 100,
    {
        stats.level * 100
    }
}

/// Renders the backpack.
pub struct InventoryRenderer;

/// The color of an item kind.
pub open spec fn item_kind_color(t: ItemType) -> DisplayColor {
    match t {
        ItemType::Weapon { .. } => DisplayColor::Red,
        ItemType::Armor { .. } => DisplayColor::Blue,
        ItemType::Wand { .. } => DisplayColor::Cyan,
        ItemType::Ring { .. } => DisplayColor::Magenta,
        ItemType::Consumable { .. } => DisplayColor::Green,
        ItemType::Throwable { .. } => DisplayColor::LightMagenta,
        ItemType::Key => DisplayColor::LightYellow,
        ItemType::Quest => DisplayColor::Magenta,
    }
}

/// Icon of an item kind.
pub open spec fn item_icon(t: ItemType) -> Seq<char> {
    match t {
        ItemType::Weapon { .. } => "⚔️"@,
        ItemType::Armor { .. } => "🛡️"@,
        ItemType::Wand { .. } => "🔮"@,
        ItemType::Ring { .. } => "💍"@,
        ItemType::Consumable { .. } => "🧪"@,
        ItemType::Throwable { .. } => "🎯"@,
        ItemType::Key => "🔑"@,
        ItemType::Quest => "📜"@,
    }
}

/// Name of a statistic in a buff description.
pub open spec fn stat_label(s: StatType) -> Seq<char> {
    match s {
        StatType::Hp => "HP上限"@,
        StatType::Attack => "攻击"@,
        StatType::Defense => "防御"@,
        StatType::Accuracy => "命中"@,
        StatType::Evasion => "闪避"@,
    }
}

/// Description of an item by its kind.
pub open spec fn kind_description(t: ItemType) -> Seq<char> {
    match t {
        ItemType::Wand { charges, max_charges } => "🔮 充能: "@ + decimal(charges as nat) + "/"@ + decimal(
            max_charges as nat,
        ),
        ItemType::Weapon { damage } => "⚔️ 攻击力: +"@ + decimal(damage as nat),
        ItemType::Armor { defense } => "🛡️ 防御力: +"@ + decimal(defense as nat),
        ItemType::Consumable { effect } => match effect {
            ConsumableEffect::Healing { amount } => "💚 恢复 "@ + decimal(amount as nat) + " 点生命值"@,
            ConsumableEffect::Damage { amount } => "💥 造成 "@ + decimal(amount as nat) + " 点伤害"@,
            ConsumableEffect::Buff { stat, value, duration } => "✨ "@ + signed_decimal(value as int) + "点"@
                + stat_label(stat) + "，持续"@ + decimal(duration as nat) + "回合"@,
            ConsumableEffect::Teleport => "🌀 随机传送"@,
            ConsumableEffect::Identify => "🔍 鉴定物品"@,
        },
        ItemType::Ring { defense_bonus, crit_percent } => "💍 防御+"@ + decimal(defense_bonus as nat) + " 暴击+"@
            + decimal(crit_percent as nat) + "%"@,
        ItemType::Throwable { min_damage, max_damage, range } => "🎯 伤害: "@ + decimal(min_damage as nat) + "-"@
            + decimal(max_damage as nat) + " (射程:"@ + decimal(range as nat) + ")"@,
        ItemType::Key => "🔑 用于开启锁定的门或宝箱"@,
        ItemType::Quest => "📜 任务物品"@,
    }
}

/// Description of an item: its catalogue description after its name when
/// it has a non-empty one, else a description by its kind.
pub open spec fn item_description(item: EcsItem, catalogue: Option<Seq<char>>) -> Seq<char> {
    match catalogue {
        Some(d) => if d.len() > 0 {
            item.name@ + " — "@ + d
        } else {
            kind_description(item.item_type)
        },
        None => kind_description(item.item_type),
    }
}

impl InventoryRenderer {
    pub fn new() -> (r: Self) {
        InventoryRenderer
    }

    /// The color an item is listed in: the color of its catalogue entry's
    /// rarity when it has one, else a color for its kind.
    pub fn get_item_color(&self, item: &EcsItem, rarity_color: Option<DisplayColor>) -> (c: DisplayColor)
        ensures
            c == match rarity_color {
                Some(rc) => rc,
                None => item_kind_color(item.item_type),
            },
    {
        match rarity_color {
            Some(rc) => rc,
            None => match item.item_type {
                ItemType::Weapon { .. } => DisplayColor::Red,
                ItemType::Armor { .. } => DisplayColor::Blue,
                ItemType::Wand { .. } => DisplayColor::Cyan,
                ItemType::Ring { .. } => DisplayColor::Magenta,
                ItemType::Consumable { .. } => DisplayColor::Green,
                ItemType::Throwable { .. } => DisplayColor::LightMagenta,
                ItemType::Key => DisplayColor::LightYellow,
                ItemType::Quest => DisplayColor::Magenta,
            },
        }
    }

    /// The icon of an item.
    pub fn get_item_icon(&self, item: &EcsItem) -> (s: &'static str)
        ensures
            s@ == item_icon(item.item_type),
    {
        match item.item_type {
            ItemType::Weapon { .. } => "⚔️",
            ItemType::Armor { .. } => "🛡️",
            ItemType::Wand { .. } => "🔮",
            ItemType::Ring { .. } => "💍",
            ItemType::Consumable { .. } => "🧪",
            ItemType::Throwable { .. } => "🎯",
            ItemType::Key => "🔑",
            ItemType::Quest => "📜",
        }
    }

    /// The description of an item, given its catalogue description (if the
    /// item is in the catalogue).
    pub fn get_item_description(&self, item: &EcsItem, catalogue: Option<&String>) -> (s: String)
        ensures
            s@ == item_description(
                *item,
                match catalogue {
                    Some(d) => Some(d@),
                    None => None,
                },
            ),
    {
        match catalogue {
            Some(d) => {
                if d.as_str().unicode_len() > 0 {
                    let mut s = item.name.clone();
                    s.append(" — ");
                    s.append(d.as_str());
                    return s;
                }
            },
            None => {},
        }
        Self::kind_text(item.item_type)
    }

    /// Description of an item kind.
    fn kind_text(t: ItemType) -> (s: String)
        ensures
            s@ == kind_description(t),
    {
        match t {
            ItemType::Wand { charges, max_charges } => {
                let mut s = String::from_str("🔮 充能: ");
                push_decimal(&mut s, charges as u64);
                s.append("/");
                push_decimal(&mut s, max_charges as u64);
                s
            },
            ItemType::Weapon { damage } => {
                let mut s = String::from_str("⚔️ 攻击力: +");
                push_decimal(&mut s, damage as u64);
                s
            },
            ItemType::Armor { defense } => {
                let mut s = String::from_str("🛡️ 防御力: +");
                push_decimal(&mut s, defense as u64);
                s
            },
            ItemType::Consumable { effect } => match effect {
                ConsumableEffect::Healing { amount } => {
                    let mut s = String::from_str("💚 恢复 ");
                    push_decimal(&mut s, amount as u64);
                    s.append(" 点生命值");
                    s
                },
                ConsumableEffect::Damage { amount } => {
                    let mut s = String::from_str("💥 造成 ");
                    push_decimal(&mut s, amount as u64);
                    s.append(" 点伤害");
                    s
                },
                ConsumableEffect::Buff { stat, value, duration } => {
                    let mut s = String::from_str("✨ ");
                    push_signed_decimal(&mut s, value);
                    s.append("点");
                    let label = match stat {
                        StatType::Hp => "HP上限",
                        StatType::Attack => "攻击",
                        StatType::Defense => "防御",
                        StatType::Accuracy => "命中",
                        StatType::Evasion => "闪避",
                    };
                    s.append(label);
                    s.append("，持续");
                    push_decimal(&mut s, duration as u64);
                    s.append("回合");
                    s
                },
                ConsumableEffect::Teleport => String::from_str("🌀 随机传送"),
                ConsumableEffect::Identify => String::from_str("🔍 鉴定物品"),
            },
            ItemType::Ring { defense_bonus, crit_percent } => {
                let mut s = String::from_str("💍 防御+");
                push_decimal(&mut s, defense_bonus as u64);
                s.append(" 暴击+");
                push_decimal(&mut s, crit_percent as u64);
                s.append("%");
                s
            },
            ItemType::Throwable { min_damage, max_damage, range } => {
                let mut s = String::from_str("🎯 伤害: ");
                push_decimal(&mut s, min_damage as u64);
                s.append("-");
                push_decimal(&mut s, max_damage as u64);
                s.append(" (射程:");
                push_decimal(&mut s, range as u64);
                s.append(")");
                s
            },
            ItemType::Key => String::from_str("🔑 用于开启锁定的门或宝箱"),
            ItemType::Quest => String::from_str("📜 任务物品"),
        }
    }
}

/// Renders the menus.
pub struct MenuRenderer;

/// The texts of a list of string slices.
pub open spec fn str_views(s: Seq<&str>) -> Seq<Seq<char>> {
    s.map_values(|x: &str| x@)
}

/// Entries of the main menu, in cursor order.
pub open spec fn main_menu_labels() -> Seq<Seq<char>> {
    seq!["🗡️  开始新游戏"@, "📦 继续游戏"@, "⚙️  游戏设置"@, "❓ 帮助说明"@, "🚪 退出游戏"@]
}

/// Entries of the pause menu, in cursor order.
pub open spec fn pause_menu_labels() -> Seq<Seq<char>> {
    seq!["🔄 继续游戏"@, "🎒 物品栏"@, "👤 角色信息"@, "⚙️  游戏设置"@, "❓ 帮助说明"@, "💾 保存并退出"@]
}

/// Settings of the options screen with their shown values, in cursor order.
pub open spec fn option_labels() -> Seq<(Seq<char>, Seq<char>)> {
    seq![("音效"@, "开启"@), ("音乐"@, "关闭"@), ("按键绑定"@, "默认"@), ("显示模式"@, "全彩"@), ("语言"@, "中文"@)]
}

/// The help screen, line by line.
pub open spec fn help_text() -> Seq<Seq<char>> {
    seq![
        "🎮 游戏操作指南"@,
        ""@,
        "移动控制:"@,
        "  h/j/k/l ←→↑↓ - 8方向移动"@,
        "  y/u/b/n     - 斜向移动"@,
        "  .           - 等待一回合"@,
        ""@,
        "战斗与交互:"@,
        "  Shift + 方向键 - 攻击指定方向"@,
        "  1-9         - 使用对应物品"@,
        "  d           - 丢弃物品"@,
        ""@,
        "地牢探索:"@,
        "  >           - 下楼梯"@,
        "  <           - 上楼梯"@,
        ""@,
        "游戏控制:"@,
        "  Esc         - 暂停/返回"@,
        "  q           - 退出游戏（现已增加确认对话框）"@,
        ""@,
        ""@,
        "🏃 快速提示:"@,
        "  • 关注饥饿度，定期进食"@,
        "  • 观察敌人行为模式"@,
        "  • 合理使用物品和技能"@,
        "  • 探索地图时注意地形"@
    ]
}

impl MenuRenderer {
    pub fn new() -> (r: Self) {
        MenuRenderer
    }

    /// The help screen's lines.
    pub fn help_lines(&self) -> (r: Vec<&'static str>)
        ensures
            str_views(r@) == help_text(),
    {
        let r = vec![
            "🎮 游戏操作指南",
            "",
            "移动控制:",
            "  h/j/k/l ←→↑↓ - 8方向移动",
            "  y/u/b/n     - 斜向移动",
            "  .           - 等待一回合",
            "",
            "战斗与交互:",
            "  Shift + 方向键 - 攻击指定方向",
            "  1-9         - 使用对应物品",
            "  d           - 丢弃物品",
            "",
            "地牢探索:",
            "  >           - 下楼梯",
            "  <           - 上楼梯",
            "",
            "游戏控制:",
            "  Esc         - 暂停/返回",
            "  q           - 退出游戏（现已增加确认对话框）",
            "",
            "",
            "🏃 快速提示:",
            "  • 关注饥饿度，定期进食",
            "  • 观察敌人行为模式",
            "  • 合理使用物品和技能",
            "  • 探索地图时注意地形"
        ];
        assert(str_views(r@) =~= help_text());
        r
    }

    /// The main menu's entries; one for each cursor position the menu
    /// system allows.
    pub fn main_menu_items(&self) -> (r: Vec<&'static str>)
        ensures
            str_views(r@) == main_menu_labels(),
    {
        let r = vec!["🗡️  开始新游戏", "📦 继续游戏", "⚙️  游戏设置", "❓ 帮助说明", "🚪 退出游戏"];
        assert(str_views(r@) =~= main_menu_labels());
        r
    }

    /// The pause menu's entries.
    pub fn pause_menu_items(&self) -> (r: Vec<&'static str>)
        ensures
            str_views(r@) == pause_menu_labels(),
    {
        let r = vec!["🔄 继续游戏", "🎒 物品栏", "👤 角色信息", "⚙️  游戏设置", "❓ 帮助说明", "💾 保存并退出"];
        assert(str_views(r@) =~= pause_menu_labels());
        r
    }

    /// The options screen's settings and their shown values.
    pub fn option_items(&self) -> (r: Vec<(&'static str, &'static str)>)
        ensures
            r@.map_values(|p: (&str, &str)| (p.0@, p.1@)) == option_labels(),
    {
        let r = vec![("音效", "开启"), ("音乐", "关闭"), ("按键绑定", "默认"), ("显示模式", "全彩"), ("语言", "中文")];
        assert(r@.map_values(|p: (&str, &str)| (p.0@, p.1@)) =~= option_labels());
        r
    }
}

/// The main menu with the cursor on entry `c`.
pub open spec fn main_menu_at(c: usize) -> GameStatus {
    GameStatus::MainMenu { selected_option: c }
}

/// The pause menu with the cursor on entry `c`.
pub open spec fn pause_menu_at(c: usize) -> GameStatus {
    GameStatus::Paused { selected_option: c }
}

/// The options screen with the cursor on entry `c`.
pub open spec fn options_at(c: usize) -> GameStatus {
    GameStatus::Options { selected_option: c }
}

/// The screen is the given kind of menu with its cursor below `n`.
pub open spec fn cursor_within(st: GameStatus, kind: GameStatus, n: nat) -> bool {
    match (st, kind) {
        (GameStatus::MainMenu { selected_option }, GameStatus::MainMenu { .. }) => selected_option < n,
        (GameStatus::Paused { selected_option }, GameStatus::Paused { .. }) => selected_option < n,
        (GameStatus::Options { selected_option }, GameStatus::Options { .. }) => selected_option < n,
        _ => false,
    }
}

/// Moving the cursor of the main, pause or options menu from one of its
/// entries lands on one of its entries again, and moving down from an
/// entry that is not the last reaches the next one.
pub proof fn lemma_menu_entries_match_cursors(c: usize, d: NavigateDirection)
    ensures
        c < main_menu_labels().len() ==> cursor_within(
            navigate_status(main_menu_at(c), d),
            main_menu_at(0),
            main_menu_labels().len(),
        ),
        c < pause_menu_labels().len() ==> cursor_within(
            navigate_status(pause_menu_at(c), d),
            pause_menu_at(0),
            pause_menu_labels().len(),
        ),
        c < option_labels().len() ==> cursor_within(
            navigate_status(options_at(c), d),
            options_at(0),
            option_labels().len(),
        ),
        c + 1 < main_menu_labels().len() ==> navigate_status(main_menu_at(c), NavigateDirection::Down)
            == main_menu_at((c + 1) as usize),
        c + 1 < pause_menu_labels().len() ==> navigate_status(pause_menu_at(c), NavigateDirection::Down)
            == pause_menu_at((c + 1) as usize),
        c + 1 < option_labels().len() ==> navigate_status(options_at(c), NavigateDirection::Down)
            == options_at((c + 1) as usize),
{
}

/// Milliseconds since the Unix epoch on the system clock
/// (`std::time::SystemTime::now()`), zero for a clock set before the epoch.
/// Nothing is stated of the value: it is the time.
#[verifier::external_body]
fn system_now_millis() -> u64 {
    match std::time::SystemTime::now().duration_since(std::time::UNIX_EPOCH) {
        Ok(d) => d.as_millis() as u64,
        Err(_) => 0,
    }
}

/// The game loop's clock: its fixed step and when it started (milliseconds
/// since the Unix epoch).
pub struct GameClock {
    pub tick_rate_ms: u64,
    pub start_time_ms: u64,
}

impl GameClock {
    /// A clock with the given step, started now.
    pub fn new(tick_rate_ms: u64) -> (c: Self)
        ensures
            c.tick_rate_ms == tick_rate_ms,
    {
        GameClock { tick_rate_ms, start_time_ms: system_now_millis() }
    }
}

/// Time keeping for the game loop, in milliseconds since the Unix epoch.
/// (Sleeping between frames is left to the program that runs the loop.)
pub trait Clock {
    /// The current time.
    fn now(&self) -> u64;

    /// The time passed since `since`; zero when `since` is not in the past.
    fn elapsed(&self, since: u64) -> u64;

    /// The fixed step of the game logic.
    fn tick_rate(&self) -> u64;
}

/// The time from `since` to `now`, zero when `since` is later.
pub open spec fn time_between(since: int, now: int) -> int {
    if now >= since { now - since } else { 0 }
}

/// The time from `since` to the reading `now`, zero when `since` is later.
pub fn time_since(now: u64, since: u64) -> (d: u64)
    ensures
        d == time_between(since as int, now as int),
{
    if now >= since {
        now - since
    } else {
        0
    }
}

impl Clock for GameClock {
    /// Reads the system clock: nothing is known of the value.
    fn now(&self) -> u64 {
        system_now_millis()
    }

    /// Reads the system clock once and measures from `since` to that
    /// reading (see [`time_since`]); the reading itself is the time.
    fn elapsed(&self, since: u64) -> (d: u64)
        ensures
            exists|now: u64| d == #[trigger] time_between(since as int, now as int),
    {
        let now = system_now_millis();
        time_since(now, since)
    }

    fn tick_rate(&self) -> (r: u64)
        ensures
            r == self.tick_rate_ms,
    {
        self.tick_rate_ms
    }
}

/// Messages joined by a separator.
pub open spec fn joined(msgs: Seq<Seq<char>>, sep: Seq<char>) -> Seq<char>
    decreases msgs.len(),
{
    if msgs.len() == 0 {
        seq![]
    } else if msgs.len() == 1 {
        msgs[0]
    } else {
        joined(msgs.drop_last(), sep) + sep + msgs.last()
    }
}

/// Most messages the message line shows.
pub const SHOWN_MESSAGES: usize = 3;

/// The message line: the last three messages, oldest first, separated by
/// bars; a welcome line when there are none.
pub open spec fn message_line(msgs: Seq<Seq<char>>) -> Seq<char> {
    if msgs.len() == 0 {
        "Welcome to Pixel Dungeon!"@
    } else {
        let start = if msgs.len() > SHOWN_MESSAGES { msgs.len() - SHOWN_MESSAGES } else { 0 };
        joined(msgs.subrange(start as int, msgs.len() as int), " | "@)
    }
}

/// The mark and color a logged message is shown with: warnings (a leading
/// `!`, or a death or an injury mentioned) in red, gains (a leading `+`, or
/// something obtained or picked up) in green, discoveries (a leading `*`, or
/// something found) in yellow, anything else in white.
pub open spec fn message_tone(m: Seq<char>) -> (Seq<char>, DisplayColor) {
    if starts_with_char(m, '!') || has_infix(m, "死亡"@) || has_infix(m, "受伤"@) {
        ("⚠ "@, DisplayColor::Red)
    } else if starts_with_char(m, '+') || has_infix(m, "获得"@) || has_infix(m, "拾取"@) {
        ("✓ "@, DisplayColor::Green)
    } else if starts_with_char(m, '*') || has_infix(m, "发现"@) {
        ("★ "@, DisplayColor::Yellow)
    } else {
        ("• "@, DisplayColor::White)
    }
}

/// The mark and color of a logged message.
pub fn message_style(message: &String) -> (r: (&'static str, DisplayColor))
    ensures
        (r.0@, r.1) == message_tone(message@),
{
    let cs = chars_of(message.as_str());
    if starts_with(&cs, '!') || contains_infix(&cs, &chars_of("死亡")) || contains_infix(&cs, &chars_of("受伤")) {
        ("⚠ ", DisplayColor::Red)
    } else if starts_with(&cs, '+') || contains_infix(&cs, &chars_of("获得")) || contains_infix(&cs, &chars_of("拾取")) {
        ("✓ ", DisplayColor::Green)
    } else if starts_with(&cs, '*') || contains_infix(&cs, &chars_of("发现")) {
        ("★ ", DisplayColor::Yellow)
    } else {
        ("• ", DisplayColor::White)
    }
}

/// The message line of a log.
pub fn format_messages(messages: &Vec<String>) -> (s: String)
    ensures
        s@ == message_line(log_view(messages@)),
{
    let n = messages.len();
    if n == 0 {
        return String::from_str("Welcome to Pixel Dungeon!");
    }
    let start = if n > SHOWN_MESSAGES { n - SHOWN_MESSAGES } else { 0 };
    let ghost all = log_view(messages@);
    let ghost shown = all.subrange(start as int, n as int);
    let mut s = messages[start].clone();
    let mut i = start + 1;
    assert(shown.subrange(0, 1) =~= seq![shown[0]]);
    while i < n
        invariant
            n == messages@.len(),
            all == log_view(messages@),
            shown == all.subrange(start as int, n as int),
            start < i <= n,
            s@ == joined(shown.subrange(0, (i - start) as int), " | "@),
        decreases n - i,
    {
        s.append(" | ");
        s.append(messages[i].as_str());
        proof {
            let k = (i - start) as int;
            assert(shown.subrange(0, k + 1).drop_last() =~= shown.subrange(0, k));
            assert(shown.subrange(0, k + 1).last() == all[i as int]);
        }
        i = i + 1;
    }
    assert(shown.subrange(0, (n - start) as int) =~= shown);
    s
}

} // verus!

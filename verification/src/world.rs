//! The game world the systems run over: entities with optional components,
//! held in query order, and the lookups the systems share.

use vstd::prelude::*;
use crate::ecs::{EntityId, Energy, Faction};

verus! {

/// A cell of the dungeon: column, row and level.
#[derive(Clone, Copy, Debug, PartialEq, Eq, Structural)]
pub struct Position {
    pub x: i32,
    pub y: i32,
    pub z: i32,
}

impl Position {
    pub fn new(x: i32, y: i32, z: i32) -> (p: Self)
        ensures
            p == (Position { x, y, z }),
    {
        Position { x, y, z }
    }
}

/// What a dungeon cell is made of.
#[derive(Clone, Copy, Debug, PartialEq, Eq, Structural)]
pub enum TerrainType {
    Empty,
    Floor,
    Wall,
    Door,
    StairsUp,
    StairsDown,
    Water,
    Trap,
    Barrel,
}

/// Terrain properties of a cell.
#[derive(Clone, Copy, Debug, PartialEq, Eq, Structural)]
pub struct Tile {
    pub terrain_type: TerrainType,
    pub is_passable: bool,
    pub blocks_sight: bool,
    pub has_items: bool,
    pub has_monster: bool,
}

/// Name and side of a creature.
#[derive(Clone, Debug)]
pub struct Actor {
    pub name: String,
    pub faction: Faction,
}

/// Combat statistics of a creature.
#[derive(Clone, Copy, Debug, PartialEq, Eq, Structural)]
pub struct Stats {
    pub hp: u32,
    pub max_hp: u32,
    pub attack: u32,
    pub defense: u32,
    pub accuracy: u32,
    pub evasion: u32,
    pub level: u32,
    pub experience: u32,
}

/// Satiety of a creature, from full (ten) down to starving (zero).
#[derive(Clone, Copy, Debug, PartialEq, Eq, Structural)]
pub struct Hunger {
    pub satiety: u32,
    /// Clock turn of the last satiety loss.
    pub last_hunger_turn: u32,
}

/// Satiety at or below which a creature is hungry.
pub const HUNGRY_SATIETY: u32 = 5;

impl Hunger {
    pub open spec fn spec_is_starving(self) -> bool {
        self.satiety == 0
    }

    pub open spec fn spec_is_hungry(self) -> bool {
        self.satiety <= HUNGRY_SATIETY
    }

    /// Starving: no satiety left.
    pub fn is_starving(&self) -> (r: bool)
        ensures
            r == self.spec_is_starving(),
    {
        self.satiety == 0
    }

    /// Hungry: satiety in the lower half of the scale.
    pub fn is_hungry(&self) -> (r: bool)
        ensures
            r == self.spec_is_hungry(),
    {
        self.satiety <= HUNGRY_SATIETY
    }
}

/// A statistic that a potion can raise or lower.
#[derive(Clone, Copy, Debug, PartialEq, Eq, Structural)]
pub enum StatType {
    Hp,
    Attack,
    Defense,
    Accuracy,
    Evasion,
}

/// What a consumable does when used.
#[derive(Clone, Copy, Debug, PartialEq, Eq, Structural)]
pub enum ConsumableEffect {
    Healing { amount: u32 },
    Damage { amount: u32 },
    Buff { stat: StatType, value: i32, duration: u32 },
    Teleport,
    Identify,
}

/// The kind of an item lying in the world or carried.
#[derive(Clone, Copy, Debug, PartialEq, Eq, Structural)]
pub enum ItemType {
    Weapon { damage: u32 },
    Armor { defense: u32 },
    Wand { charges: u32, max_charges: u32 },
    /// `crit_percent` is the critical bonus in whole percent.
    Ring { defense_bonus: u32, crit_percent: u32 },
    Consumable { effect: ConsumableEffect },
    Throwable { min_damage: u32, max_damage: u32, range: u32 },
    Key,
    Quest,
}

/// An item as an entity component.
#[derive(Clone, Debug)]
pub struct EcsItem {
    pub name: String,
    pub item_type: ItemType,
    pub value: u32,
    pub identified: bool,
    pub quantity: u32,
    pub level: i32,
    pub cursed: bool,
    pub charges: Option<u32>,
}

/// One inventory slot.
#[derive(Clone, Debug)]
pub struct ItemSlot {
    pub item: Option<EcsItem>,
    pub quantity: u32,
}

/// A creature's backpack.
#[derive(Clone, Debug)]
pub struct Inventory {
    pub items: Vec<ItemSlot>,
    pub max_slots: usize,
}

/// Behaviour of an AI-controlled creature.
#[derive(Clone, Debug)]
pub enum AIType {
    Aggressive,
    Passive,
    Neutral,
    Patrol { path: Vec<Position> },
}

/// What an AI-controlled creature is doing.
#[derive(Clone, Copy, Debug, PartialEq, Eq, Structural)]
pub enum AIState {
    Idle,
    Chasing,
    Attacking,
    Fleeing,
    Patrolling,
}

/// AI component.
#[derive(Clone, Debug)]
pub struct Ai {
    pub ai_type: AIType,
    pub state: AIState,
    pub target: Option<EntityId>,
}

/// Kinds of status effects.
#[derive(Clone, Copy, Debug, PartialEq, Eq, Structural)]
pub enum EffectType {
    Burning,
    Poison,
    Bleeding,
    Paralysis,
    Frost,
    Rooted,
}

/// One running status effect: damage dealt each end of turn and the turns
/// it still lasts.
#[derive(Clone, Copy, Debug, PartialEq, Eq, Structural)]
pub struct StatusEffect {
    pub effect_type: EffectType,
    pub turns: u32,
    pub damage: u32,
}

/// All status effects of a creature, and the clock turn they last ticked on.
#[derive(Clone, Debug)]
pub struct StatusEffects {
    pub effects: Vec<StatusEffect>,
    pub last_tick_turn: u32,
}

/// An entity: an identifier and the components it has.
#[derive(Clone, Debug)]
pub struct WorldEntity {
    pub id: EntityId,
    pub is_player: bool,
    pub position: Option<Position>,
    pub tile: Option<Tile>,
    pub actor: Option<Actor>,
    pub stats: Option<Stats>,
    pub energy: Option<Energy>,
    pub hunger: Option<Hunger>,
    pub inventory: Option<Inventory>,
    pub item: Option<EcsItem>,
    pub ai: Option<Ai>,
    pub effects: Option<StatusEffects>,
}

/// The entities of the world in query order, and the identifier the next
/// spawned entity gets.
#[derive(Clone, Debug)]
pub struct GameWorld {
    pub entities: Vec<WorldEntity>,
    pub next_id: u64,
}

/// A backpack as the contracts see it.
pub ghost struct InventoryView {
    pub items: Seq<ItemSlot>,
    pub max_slots: usize,
}

/// Status effects as the contracts see them.
pub ghost struct EffectsView {
    pub effects: Seq<StatusEffect>,
    pub last_tick_turn: u32,
}

/// An entity as the contracts see it: lists by their contents.
pub ghost struct EntityView {
    pub id: EntityId,
    pub is_player: bool,
    pub position: Option<Position>,
    pub tile: Option<Tile>,
    pub actor: Option<Actor>,
    pub stats: Option<Stats>,
    pub energy: Option<Energy>,
    pub hunger: Option<Hunger>,
    pub inventory: Option<InventoryView>,
    pub item: Option<EcsItem>,
    pub ai: Option<Ai>,
    pub effects: Option<EffectsView>,
}

/// The view of an entity.
pub open spec fn entity_view(e: WorldEntity) -> EntityView {
    EntityView {
        id: e.id,
        is_player: e.is_player,
        position: e.position,
        tile: e.tile,
        actor: e.actor,
        stats: e.stats,
        energy: e.energy,
        hunger: e.hunger,
        inventory: match e.inventory {
            Some(inv) => Some(InventoryView { items: inv.items@, max_slots: inv.max_slots }),
            None => None,
        },
        item: e.item,
        ai: e.ai,
        effects: match e.effects {
            Some(fx) => Some(EffectsView { effects: fx.effects@, last_tick_turn: fx.last_tick_turn }),
            None => None,
        },
    }
}

/// The views of the entities, in order.
pub open spec fn world_view(s: Seq<WorldEntity>) -> Seq<EntityView> {
    s.map_values(|e: WorldEntity| entity_view(e))
}

/// `i` is the first entity with the player component.
pub open spec fn is_first_player(s: Seq<WorldEntity>, i: int) -> bool {
    &&& 0 <= i < s.len()
    &&& s[i].is_player
    &&& forall|j: int| 0 <= j < i ==> !(#[trigger] s[j]).is_player
}

/// No entity has the player component.
pub open spec fn no_player(s: Seq<WorldEntity>) -> bool {
    forall|j: int| 0 <= j < s.len() ==> !(#[trigger] s[j]).is_player
}

/// The index of the first player entity, if there is one.
pub open spec fn player_index(s: Seq<WorldEntity>) -> Option<int> {
    if exists|i: int| is_first_player(s, i) {
        Some(choose|i: int| is_first_player(s, i))
    } else {
        None
    }
}

/// The first player is unique.
pub proof fn lemma_first_player_unique(s: Seq<WorldEntity>, i: int, k: int)
    requires
        is_first_player(s, i),
        is_first_player(s, k),
    ensures
        i == k,
{
    if i < k {
        assert(!s[i].is_player);
    } else if k < i {
        assert(!s[k].is_player);
    }
}

/// Some player entity implies a first one.
pub proof fn lemma_exists_first_player(s: Seq<WorldEntity>, j: int)
    requires
        0 <= j < s.len(),
        s[j].is_player,
    ensures
        exists|i: int| is_first_player(s, i),
    decreases j,
{
    if forall|k: int| 0 <= k < j ==> !(#[trigger] s[k]).is_player {
        assert(is_first_player(s, j));
    } else {
        let k = choose|k: int| 0 <= k < j && (#[trigger] s[k]).is_player;
        lemma_exists_first_player(s, k);
    }
}

/// `player_index` names the first player entity, or none when there is none.
pub proof fn lemma_player_index(s: Seq<WorldEntity>)
    ensures
        match player_index(s) {
            Some(i) => is_first_player(s, i),
            None => no_player(s),
        },
{
    if !(exists|i: int| is_first_player(s, i)) {
        assert forall|j: int| 0 <= j < s.len() implies !(#[trigger] s[j]).is_player by {
            if s[j].is_player {
                lemma_exists_first_player(s, j);
            }
        }
    }
}

/// Finds the first entity with the player component.
pub fn find_player_entity(world: &GameWorld) -> (r: Option<usize>)
    ensures
        r matches Some(i) ==> player_index(world.entities@) == Some(i as int),
        r is None ==> player_index(world.entities@) is None,
{
    let n = world.entities.len();
    let mut i: usize = 0;
    while i < n
        invariant
            n == world.entities@.len(),
            0 <= i <= n,
            forall|j: int| 0 <= j < i ==> !(#[trigger] world.entities@[j]).is_player,
        decreases n - i,
    {
        if world.entities[i].is_player {
            proof {
                assert(is_first_player(world.entities@, i as int));
                lemma_player_index(world.entities@);
                let k = player_index(world.entities@)->0;
                lemma_first_player_unique(world.entities@, i as int, k);
            }
            return Some(i);
        }
        i = i + 1;
    }
    proof {
        lemma_player_index(world.entities@);
        if player_index(world.entities@) is Some {
            let k = player_index(world.entities@)->0;
            assert(world.entities@[k].is_player);
        }
    }
    None
}

/// Some entity at `pos` has a tile of the given terrain.
pub open spec fn terrain_at(s: Seq<WorldEntity>, pos: Position, terrain: TerrainType) -> bool {
    exists|i: int|
        0 <= i < s.len() && (#[trigger] s[i]).position == Some(pos) && s[i].tile is Some
            && s[i].tile->0.terrain_type == terrain
}

/// Whether some entity at `pos` has a tile of the given terrain.
pub fn has_terrain_at(world: &GameWorld, pos: Position, terrain: TerrainType) -> (r: bool)
    ensures
        r == terrain_at(world.entities@, pos, terrain),
{
    let n = world.entities.len();
    let mut i: usize = 0;
    while i < n
        invariant
            n == world.entities@.len(),
            0 <= i <= n,
            forall|j: int|
                0 <= j < i ==> !((#[trigger] world.entities@[j]).position == Some(pos)
                    && world.entities@[j].tile is Some && world.entities@[j].tile->0.terrain_type
                    == terrain),
        decreases n - i,
    {
        let e = &world.entities[i];
        match (e.position, e.tile) {
            (Some(p), Some(t)) => {
                if p == pos && t.terrain_type == terrain {
                    assert(world.entities@[i as int].position == Some(pos));
                    return true;
                }
            },
            _ => {},
        }
        i = i + 1;
    }
    false
}

/// The first entity (in query order) that has both a position equal to
/// `pos` and a tile, if any.
pub open spec fn is_first_tile_at(s: Seq<WorldEntity>, pos: Position, i: int) -> bool {
    &&& 0 <= i < s.len()
    &&& s[i].position == Some(pos)
    &&& s[i].tile is Some
    &&& forall|j: int|
        0 <= j < i ==> !((#[trigger] s[j]).position == Some(pos) && s[j].tile is Some)
}

/// A cell can be entered: the first tile found there is passable (no tile
/// means the cell cannot be entered).
pub open spec fn passable_at(s: Seq<WorldEntity>, pos: Position) -> bool {
    exists|i: int| is_first_tile_at(s, pos, i) && s[i].tile->0.is_passable
}

/// Whether a creature can step onto `pos`.
pub fn can_move_to(world: &GameWorld, pos: Position) -> (r: bool)
    ensures
        r == passable_at(world.entities@, pos),
{
    let n = world.entities.len();
    let mut i: usize = 0;
    while i < n
        invariant
            n == world.entities@.len(),
            0 <= i <= n,
            forall|j: int|
                0 <= j < i ==> !((#[trigger] world.entities@[j]).position == Some(pos)
                    && world.entities@[j].tile is Some),
        decreases n - i,
    {
        let e = &world.entities[i];
        match (e.position, e.tile) {
            (Some(p), Some(t)) => {
                if p == pos {
                    assert(is_first_tile_at(world.entities@, pos, i as int));
                    proof {
                        if !t.is_passable {
                            assert forall|k: int|
                                is_first_tile_at(world.entities@, pos, k) implies !world.entities@[
                                k].tile->0.is_passable by {
                                if k < i {
                                    assert(world.entities@[k].position == Some(pos));
                                } else if k > i {
                                    assert(world.entities@[i as int].position == Some(pos));
                                }
                            }
                        }
                    }
                    return t.is_passable;
                }
            },
            _ => {},
        }
        i = i + 1;
    }
    false
}

} // verus!

//! The basic level: a walled square room with stairs, a goblin and a
//! healing potion.

use vstd::prelude::*;
use crate::ecs::{EntityId, Energy, Faction, Resources};
use crate::systems::dungeon::DungeonSystem;
use crate::systems::inventory::floor_item_tile;
use crate::text::{decimal, push_decimal};
use crate::world::{
    entity_view, world_view, Actor, ConsumableEffect, EcsItem, EntityView, GameWorld, ItemType,
    Position, Stats, TerrainType, Tile, WorldEntity,
};

verus! {

/// First column and row of the room.
pub const ROOM_MIN: i32 = 5;

/// Columns (and rows) of the room, walls included.
pub const ROOM_SIZE: i32 = 20;

/// A tile of the level being laid out is dropped before the new layout.
pub open spec fn on_level(e: WorldEntity, level: i32) -> bool {
    &&& e.position is Some
    &&& e.position->0.z == level
    &&& e.tile is Some
}

/// The entities left once the tiles of a level are gone.
pub open spec fn without_level(s: Seq<WorldEntity>, level: i32) -> Seq<WorldEntity>
    decreases s.len(),
{
    if s.len() == 0 {
        seq![]
    } else {
        let rest = without_level(s.drop_last(), level);
        if on_level(s.last(), level) {
            rest
        } else {
            rest.push(s.last())
        }
    }
}

/// A cell of the room's border.
pub open spec fn is_border(x: int, y: int) -> bool {
    x == ROOM_MIN || x == ROOM_MIN + ROOM_SIZE - 1 || y == ROOM_MIN || y == ROOM_MIN + ROOM_SIZE - 1
}

/// The tile of a room cell: wall on the border, floor inside.
pub open spec fn room_tile(x: int, y: int) -> Tile {
    if is_border(x, y) {
        Tile { terrain_type: TerrainType::Wall, is_passable: false, blocks_sight: true, has_items: false, has_monster: false }
    } else {
        Tile { terrain_type: TerrainType::Floor, is_passable: true, blocks_sight: false, has_items: false, has_monster: false }
    }
}

/// A bare entity: an identifier and nothing else.
pub open spec fn bare(id: u64) -> EntityView {
    EntityView {
        id: EntityId(id),
        is_player: false,
        position: None,
        tile: None,
        actor: None,
        stats: None,
        energy: None,
        hunger: None,
        inventory: None,
        item: None,
        ai: None,
        effects: None,
    }
}

/// A tile entity.
pub open spec fn tile_entity(id: u64, x: int, y: int, level: i32, tile: Tile) -> EntityView {
    EntityView { position: Some(Position { x: x as i32, y: y as i32, z: level }), tile: Some(tile), ..bare(id) }
}

/// The `k`-th room cell, column by column.
pub open spec fn room_cell(k: int) -> (int, int) {
    (ROOM_MIN + k / (ROOM_SIZE as int), ROOM_MIN + k % (ROOM_SIZE as int))
}

/// The room's tile entities, numbered from `first`.
pub open spec fn room_entities(first: u64, level: i32) -> Seq<EntityView> {
    Seq::new(
        (ROOM_SIZE * ROOM_SIZE) as nat,
        |k: int| tile_entity((first + k) as u64, room_cell(k).0, room_cell(k).1, level, room_tile(room_cell(k).0, room_cell(k).1)),
    )
}

/// A stairs tile.
pub open spec fn stairs_tile(terrain: TerrainType) -> Tile {
    Tile { terrain_type: terrain, is_passable: true, blocks_sight: false, has_items: false, has_monster: false }
}

/// Goblin statistics on a level.
pub open spec fn goblin_stats(level: i32) -> Stats {
    Stats {
        hp: 30,
        max_hp: 30,
        attack: (5 + level * 2) as u32,
        defense: (2 + level) as u32,
        accuracy: 70,
        evasion: 10,
        level: level as u32,
        experience: (10 + level * 5) as u32,
    }
}

/// The goblin of a level, as an entity.
pub open spec fn is_goblin(e: EntityView, id: u64, level: i32) -> bool {
    &&& e.actor is Some
    &&& e.actor->0.name@ == "Goblin "@ + decimal(level as nat)
    &&& e.actor->0.faction == Faction::Enemy
    &&& e == EntityView {
        position: Some(Position { x: 12, y: 12, z: level }),
        actor: e.actor,
        stats: Some(goblin_stats(level)),
        energy: Some(Energy { current: 100, max: 100, regeneration_rate: 1 }),
        ..bare(id)
    }
}

/// The healing potion of a level, as an entity.
pub open spec fn is_level_potion(e: EntityView, id: u64, level: i32) -> bool {
    &&& e.item is Some
    &&& e.item->0.name@ == "Health Potion"@
    &&& e.item->0.item_type == (ItemType::Consumable { effect: ConsumableEffect::Healing { amount: 20 } })
    &&& e.item->0.value == 10
    &&& e.item->0.identified
    &&& e.item->0.quantity == 1
    &&& e.item->0.level == 0
    &&& !e.item->0.cursed
    &&& e.item->0.charges is None
    &&& e == EntityView {
        position: Some(Position { x: 14, y: 10, z: level }),
        tile: Some(floor_item_tile()),
        item: e.item,
        ..bare(id)
    }
}

/// The entities a basic level adds after the room, in order, numbered from
/// `first`: stairs up (below the top level), stairs down (above the bottom
/// level), then the goblin and the potion (below the top level).
pub open spec fn level_extras_ok(t: Seq<EntityView>, first: u64, level: i32, max_depth: usize) -> bool {
    let up = level > 0;
    let down = level < (max_depth as i32) - 1;
    let n_up: int = if up { 1 } else { 0 };
    let n_down: int = if down { 1 } else { 0 };
    &&& t.len() == n_up + n_down + 2 * n_up
    &&& up ==> t[0] == tile_entity(first, 9, 9, level, stairs_tile(TerrainType::StairsUp))
    &&& down ==> t[n_up] == tile_entity((first + n_up) as u64, 15, 15, level, stairs_tile(TerrainType::StairsDown))
    &&& up ==> is_goblin(t[n_up + n_down], (first + n_up + n_down) as u64, level)
    &&& up ==> is_level_potion(t[n_up + n_down + 1], (first + n_up + n_down + 1) as u64, level)
}

impl DungeonSystem {
    /// Lays out the basic level `level`: its old tiles are removed, then a
    /// walled square room is added, with stairs up below the top level,
    /// stairs down above the bottom level, and a goblin and a healing potion
    /// below the top level. New entities take the next identifiers in order.
    /// Every level is this basic room: no generated dungeon layout is read
    /// (the layouts of the game's dungeon generator are not part of this
    /// library).
    pub fn generate_level(&mut self, world: &mut GameWorld, resources: &Resources, level: i32)
        requires
            old(world).next_id + 404 <= u64::MAX,
            (resources.config.max_depth as i32) > i32::MIN,
            level > 0 ==> 10 + level * 5 <= u32::MAX,
        ensures
            ({
                let kept = world_view(without_level(old(world).entities@, level));
                let room = room_entities(old(world).next_id, level);
                let s = world_view(final(world).entities@);
                let extras_first = (old(world).next_id + 400) as u64;
                &&& s.len() >= kept.len() + room.len()
                &&& s.subrange(0, kept.len() as int) == kept
                &&& s.subrange(kept.len() as int, kept.len() + room.len() as int) == room
                &&& level_extras_ok(
                    s.subrange(kept.len() + room.len() as int, s.len() as int),
                    extras_first,
                    level,
                    resources.config.max_depth,
                )
                &&& final(world).next_id == extras_first + s.len() - kept.len() - room.len()
            }),
    {
        Self::clear_level(world, level);
        let ghost kept = world_view(world.entities@);
        let ghost first = world.next_id;
        let mut k: i32 = 0;
        while k < ROOM_SIZE * ROOM_SIZE
            invariant
                0 <= k <= ROOM_SIZE * ROOM_SIZE,
                first == old(world).next_id,
                first + 404 <= u64::MAX,
                world.next_id == first + k,
                world_view(world.entities@) == kept + room_entities(first, level).take(k as int),
            decreases ROOM_SIZE * ROOM_SIZE - k,
        {
            let x = ROOM_MIN + k / ROOM_SIZE;
            let y = ROOM_MIN + k % ROOM_SIZE;
            let border = x == ROOM_MIN || x == ROOM_MIN + ROOM_SIZE - 1 || y == ROOM_MIN || y == ROOM_MIN + ROOM_SIZE - 1;
            let tile = if border {
                Tile { terrain_type: TerrainType::Wall, is_passable: false, blocks_sight: true, has_items: false, has_monster: false }
            } else {
                Tile { terrain_type: TerrainType::Floor, is_passable: true, blocks_sight: false, has_items: false, has_monster: false }
            };
            Self::spawn_tile(world, Position::new(x, y, level), tile);
            assert(room_entities(first, level).take(k as int + 1) =~= room_entities(first, level).take(k as int).push(
                room_entities(first, level)[k as int],
            ));
            k = k + 1;
        }
        assert(room_entities(first, level).take(400) =~= room_entities(first, level));
        let ghost before_extras = world_view(world.entities@);
        let ghost first_extra = world.next_id;
        assert(before_extras == kept + room_entities(first, level));
        assert(room_entities(first, level).len() == 400);
        assert(before_extras.subrange(kept.len() as int, kept.len() + 400int) =~= room_entities(first, level));
        assert(before_extras.subrange(0, kept.len() as int) =~= kept);
        let limit = (resources.config.max_depth as i32) - 1;
        if level > 0 {
            Self::spawn_tile(world, Position::new(9, 9, level), Tile {
                terrain_type: TerrainType::StairsUp,
                is_passable: true,
                blocks_sight: false,
                has_items: false,
                has_monster: false,
            });
        }
        if level < limit {
            Self::spawn_tile(world, Position::new(15, 15, level), Tile {
                terrain_type: TerrainType::StairsDown,
                is_passable: true,
                blocks_sight: false,
                has_items: false,
                has_monster: false,
            });
        }
        let ghost after_stairs = world_view(world.entities@);
        if level > 0 {
            let mut name = String::from_str("Goblin ");
            push_decimal(&mut name, level as u64);
            let lv = level as u32;
            let id = world.next_id;
            world.entities.push(WorldEntity {
                id: EntityId(id),
                is_player: false,
                position: Some(Position::new(12, 12, level)),
                tile: None,
                actor: Some(Actor { name, faction: Faction::Enemy }),
                stats: Some(Stats {
                    hp: 30,
                    max_hp: 30,
                    attack: 5 + lv * 2,
                    defense: 2 + lv,
                    accuracy: 70,
                    evasion: 10,
                    level: lv,
                    experience: 10 + lv * 5,
                }),
                energy: Some(Energy { current: 100, max: 100, regeneration_rate: 1 }),
                hunger: None,
                inventory: None,
                item: None,
                ai: None,
                effects: None,
            });
            world.next_id = id + 1;
            let pid = world.next_id;
            world.entities.push(WorldEntity {
                id: EntityId(pid),
                is_player: false,
                position: Some(Position::new(14, 10, level)),
                tile: Some(Tile {
                    terrain_type: TerrainType::Empty,
                    is_passable: true,
                    blocks_sight: false,
                    has_items: true,
                    has_monster: false,
                }),
                actor: None,
                stats: None,
                energy: None,
                hunger: None,
                inventory: None,
                item: Some(EcsItem {
                    name: String::from_str("Health Potion"),
                    item_type: ItemType::Consumable { effect: ConsumableEffect::Healing { amount: 20 } },
                    value: 10,
                    identified: true,
                    quantity: 1,
                    level: 0,
                    cursed: false,
                    charges: None,
                }),
                ai: None,
                effects: None,
            });
            world.next_id = pid + 1;
            proof {
                let s = world_view(world.entities@);
                assert(s.len() == after_stairs.len() + 2);
                assert(s.subrange(0, after_stairs.len() as int) =~= after_stairs);
                assert(is_goblin(s[after_stairs.len() as int], id, level));
                assert(is_level_potion(s[after_stairs.len() as int + 1], pid, level));
            }
        }
        proof {
            let s = world_view(world.entities@);
            let n_up: int = if level > 0 { 1 } else { 0 };
            let n_down: int = if level < limit { 1 } else { 0 };
            assert(after_stairs.len() == before_extras.len() + n_up + n_down);
            assert(after_stairs.subrange(0, before_extras.len() as int) =~= before_extras);
            assert(s.subrange(0, after_stairs.len() as int) == after_stairs);
            assert(s.subrange(0, before_extras.len() as int) =~= before_extras);
            assert(s.subrange(0, kept.len() as int) =~= kept);
            assert(s.subrange(kept.len() as int, kept.len() + 400int) =~= room_entities(first, level));
            assert(s.subrange(kept.len() as int, kept.len() + 400int) == before_extras.subrange(kept.len() as int, kept.len() + 400int));
            let t = s.subrange(kept.len() + 400int, s.len() as int);
            assert(t.len() == n_up + n_down + 2 * n_up);
            assert(first_extra == first + 400);
            if level > 0 {
                assert(t[0] == after_stairs[before_extras.len() as int]);
            }
            if level < limit {
                assert(t[n_up] == after_stairs[before_extras.len() + n_up]);
            }
            if level > 0 {
                assert(t[n_up + n_down] == s[after_stairs.len() as int]);
                assert(t[n_up + n_down + 1] == s[after_stairs.len() as int + 1]);
            }
            assert(level_extras_ok(t, first_extra, level, resources.config.max_depth));
        }
    }

    /// Adds a tile entity.
    fn spawn_tile(world: &mut GameWorld, pos: Position, tile: Tile)
        requires
            old(world).next_id < u64::MAX,
        ensures
            world_view(final(world).entities@) == world_view(old(world).entities@).push(
                tile_entity(old(world).next_id, pos.x as int, pos.y as int, pos.z, tile),
            ),
            final(world).next_id == old(world).next_id + 1,
    {
        let id = world.next_id;
        world.entities.push(WorldEntity {
            id: EntityId(id),
            is_player: false,
            position: Some(pos),
            tile: Some(tile),
            actor: None,
            stats: None,
            energy: None,
            hunger: None,
            inventory: None,
            item: None,
            ai: None,
            effects: None,
        });
        world.next_id = id + 1;
        assert(world_view(world.entities@) =~= world_view(old(world).entities@).push(
            tile_entity(id, pos.x as int, pos.y as int, pos.z, tile),
        ));
    }

    /// Removes the tiles of a level, keeping everything else in order.
    fn clear_level(world: &mut GameWorld, level: i32)
        ensures
            final(world).entities@ == without_level(old(world).entities@, level),
            final(world).next_id == old(world).next_id,
    {
        let ghost s = world.entities@;
        let mut rest: Vec<WorldEntity> = Vec::new();
        std::mem::swap(&mut rest, &mut world.entities);
        let ghost mut k: int = 0;
        while rest.len() > 0
            invariant
                0 <= k <= s.len(),
                s == old(world).entities@,
                rest@ == s.skip(k),
                world.entities@ == without_level(s.take(k), level),
                world.next_id == old(world).next_id,
            decreases rest@.len(),
        {
            proof {
                assert(s.take(k + 1).drop_last() =~= s.take(k));
            }
            let ghost rest0 = rest@;
            let e = rest.remove(0);
            let drop = match (&e.position, &e.tile) {
                (Some(p), Some(_)) => p.z == level,
                _ => false,
            };
            if !drop {
                world.entities.push(e);
            }
            proof {
                assert(rest@ =~= s.skip(k + 1));
                k = k + 1;
            }
        }
        assert(s.take(k) =~= s);
    }
}

} // verus!

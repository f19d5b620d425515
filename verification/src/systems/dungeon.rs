//! Taking the stairs: descending and ascending between dungeon levels.

use vstd::prelude::*;
use crate::ecs::{capped_push_view, log_view, GameState, PlayerAction, Resources};
use crate::events::GameEvent;
use crate::systems::{EcsWorld, SystemResult};
use crate::world::{
    find_player_entity, has_terrain_at, player_index, terrain_at, GameWorld, Position,
    TerrainType, WorldEntity,
};

verus! {

/// Where a creature lands on the level it moved to.
pub const ARRIVAL_X: i32 = 10;
pub const ARRIVAL_Y: i32 = 10;

/// What the stair rules read and write: the entities, the current depth,
/// the message texts, the actions handed back, and the events published.
pub type StairView = (Seq<WorldEntity>, usize, Seq<Seq<char>>, Seq<PlayerAction>, Seq<GameEvent>);

pub open spec fn descend_text() -> Seq<char> {
    "You descend to the next level..."@
}

pub open spec fn need_stairs_down_text() -> Seq<char> {
    "You need to stand on stairs to descend."@
}

pub open spec fn ascend_text() -> Seq<char> {
    "You ascend to the previous level..."@
}

pub open spec fn top_level_text() -> Seq<char> {
    "You can't go up from here."@
}

pub open spec fn need_stairs_up_text() -> Seq<char> {
    "You need to stand on stairs to ascend."@
}

/// The entity placed at `pos`.
pub open spec fn placed(e: WorldEntity, pos: Position) -> WorldEntity {
    WorldEntity { position: Some(pos), ..e }
}

/// The player's cell, when there is a player with a position.
pub open spec fn player_cell(s: Seq<WorldEntity>) -> Option<(int, Position)> {
    match player_index(s) {
        Some(p) => match s[p].position {
            Some(pos) => Some((p, pos)),
            None => None,
        },
        None => None,
    }
}

/// Index of the player's cell.
pub open spec fn cell_index(s: Seq<WorldEntity>) -> int {
    match player_cell(s) {
        Some((i, _)) => i,
        None => 0,
    }
}

/// The player's cell.
pub open spec fn cell_pos(s: Seq<WorldEntity>) -> Position {
    match player_cell(s) {
        Some((_, p)) => p,
        None => Position { x: 0, y: 0, z: 0 },
    }
}

/// One stair action. `with_events` selects the rules of the event-publishing
/// variant: it publishes a level change and logs an ascent once, where the
/// plain variant logs an ascent twice.
pub open spec fn stair_step(v: StairView, a: PlayerAction, with_events: bool) -> StairView {
    let (ents, depth, log, back, events) = v;
    match a {
        PlayerAction::Descend => match player_cell(ents) {
            None => (ents, depth, log, back.push(a), events),
            Some((p, pos)) => if terrain_at(ents, pos, TerrainType::StairsDown) {
                let dest = Position { x: ARRIVAL_X, y: ARRIVAL_Y, z: (pos.z + 1) as i32 };
                (
                    ents.update(p, placed(ents[p], dest)),
                    (pos.z + 1) as usize,
                    capped_push_view(log, descend_text()),
                    back,
                    if with_events {
                        events.push(
                            GameEvent::LevelChanged {
                                old_level: pos.z as usize,
                                new_level: (pos.z + 1) as usize,
                            },
                        )
                    } else {
                        events
                    },
                )
            } else {
                (ents, depth, capped_push_view(log, need_stairs_down_text()), back.push(a), events)
            },
        },
        PlayerAction::Ascend => match player_cell(ents) {
            None => (ents, depth, log, back.push(a), events),
            Some((p, pos)) => if terrain_at(ents, pos, TerrainType::StairsUp) {
                if pos.z > 0 {
                    let dest = Position { x: ARRIVAL_X, y: ARRIVAL_Y, z: (pos.z - 1) as i32 };
                    (
                        ents.update(p, placed(ents[p], dest)),
                        (pos.z - 1) as usize,
                        if with_events {
                            capped_push_view(log, ascend_text())
                        } else {
                            capped_push_view(capped_push_view(log, ascend_text()), ascend_text())
                        },
                        back,
                        if with_events {
                            events.push(
                                GameEvent::LevelChanged {
                                    old_level: pos.z as usize,
                                    new_level: (pos.z - 1) as usize,
                                },
                            )
                        } else {
                            events
                        },
                    )
                } else {
                    (ents, depth, capped_push_view(log, top_level_text()), back, events)
                }
            } else {
                (ents, depth, capped_push_view(log, need_stairs_up_text()), back.push(a), events)
            },
        },
        _ => (ents, depth, log, back.push(a), events),
    }
}

/// The stair actions handled in order.
pub open spec fn stair_run(v: StairView, actions: Seq<PlayerAction>, with_events: bool) -> StairView
    decreases actions.len(),
{
    if actions.len() == 0 {
        v
    } else {
        stair_step(stair_run(v, actions.drop_last(), with_events), actions.last(), with_events)
    }
}

/// Every player cell can still be descended `n` more times without leaving
/// the `i32` levels.
pub open spec fn player_depth_room(s: Seq<WorldEntity>, n: int) -> bool {
    forall|i: int|
        0 <= i < s.len() && (#[trigger] s[i]).is_player && s[i].position is Some ==> s[i].position->0.z
            + n <= i32::MAX
}

/// A stair step keeps the entity count and the player flags, uses up at most
/// one level of room, hands back at most one action, publishes at most one
/// event, and never grows a log that fits the cap past it.
pub proof fn lemma_stair_step_bounds(v: StairView, a: PlayerAction, with_events: bool, n: int)
    requires
        player_depth_room(v.0, n + 1),
        n >= 0,
    ensures
        ({
            let w = stair_step(v, a, with_events);
            &&& w.0.len() == v.0.len()
            &&& forall|i: int| 0 <= i < v.0.len() ==> (#[trigger] w.0[i]).is_player == v.0[i].is_player
            &&& player_depth_room(w.0, n)
            &&& w.3.len() <= v.3.len() + 1
            &&& w.4.len() <= v.4.len() + 1
            &&& w.2.len() <= if v.2.len() < 10 { 10 } else { v.2.len() as int }
        }),
{
    let w = stair_step(v, a, with_events);
    crate::ecs::lemma_capped_push_len(v.2, ascend_text());
    crate::ecs::lemma_capped_push_len(capped_push_view(v.2, ascend_text()), ascend_text());
    assert forall|i: int|
        0 <= i < w.0.len() && (#[trigger] w.0[i]).is_player && w.0[i].position is Some implies w.0[i].position->0.z
        + n <= i32::MAX by {
        assert(v.0[i].is_player);
    }
}

/// Bounds of a whole run of stair steps.
pub proof fn lemma_stair_run_bounds(v: StairView, actions: Seq<PlayerAction>, with_events: bool)
    requires
        player_depth_room(v.0, actions.len() as int),
    ensures
        ({
            let w = stair_run(v, actions, with_events);
            &&& w.0.len() == v.0.len()
            &&& player_depth_room(w.0, 0)
            &&& w.3.len() <= v.3.len() + actions.len()
            &&& w.4.len() <= v.4.len() + actions.len()
            &&& w.2.len() <= if v.2.len() < 10 { 10 } else { v.2.len() as int }
        }),
    decreases actions.len(),
{
    if actions.len() > 0 {
        lemma_stair_run_bounds_room(v, actions.drop_last(), with_events, 1);
        lemma_stair_run_bounds(v, actions.drop_last(), with_events);
        lemma_stair_step_bounds(stair_run(v, actions.drop_last(), with_events), actions.last(), with_events, 0);
    }
}

/// A run of `k` steps leaves `m` levels of room when it started with `k + m`.
pub proof fn lemma_stair_run_bounds_room(v: StairView, actions: Seq<PlayerAction>, with_events: bool, m: int)
    requires
        m >= 0,
        player_depth_room(v.0, actions.len() + m),
    ensures
        player_depth_room(stair_run(v, actions, with_events).0, m),
        stair_run(v, actions, with_events).0.len() == v.0.len(),
    decreases actions.len(),
{
    if actions.len() > 0 {
        lemma_stair_run_bounds_room(v, actions.drop_last(), with_events, m + 1);
        lemma_stair_step_bounds(stair_run(v, actions.drop_last(), with_events), actions.last(), with_events, m);
    }
}

/// Actions other than stair actions are handed back in their order and
/// change nothing else.
pub proof fn lemma_non_stair_actions_pass_through(v: StairView, actions: Seq<PlayerAction>, with_events: bool)
    requires
        forall|i: int| 0 <= i < actions.len() ==> !((#[trigger] actions[i]) is Descend || actions[i] is Ascend),
    ensures
        stair_run(v, actions, with_events) == (v.0, v.1, v.2, v.3 + actions, v.4),
    decreases actions.len(),
{
    if actions.len() > 0 {
        assert forall|i: int| 0 <= i < actions.drop_last().len() implies !((#[trigger] actions.drop_last()[i]) is Descend
            || actions.drop_last()[i] is Ascend) by {
            assert(actions.drop_last()[i] == actions[i]);
        }
        lemma_non_stair_actions_pass_through(v, actions.drop_last(), with_events);
        assert(!(actions.last() is Descend || actions.last() is Ascend));
        assert(v.3 + actions.drop_last() + seq![actions.last()] =~= v.3 + actions);
    }
}

/// Going down the stairs and then up the stairs found where one arrives
/// brings the player back to its level and the depth back to that level.
pub proof fn lemma_descend_then_ascend(v: StairView, with_events: bool)
    requires
        player_cell(v.0) is Some,
        terrain_at(v.0, cell_pos(v.0), TerrainType::StairsDown),
        0 <= cell_pos(v.0).z < i32::MAX,
        terrain_at(
            v.0.update(
                cell_index(v.0),
                placed(
                    v.0[cell_index(v.0)],
                    Position { x: ARRIVAL_X, y: ARRIVAL_Y, z: (cell_pos(v.0).z + 1) as i32 },
                ),
            ),
            Position { x: ARRIVAL_X, y: ARRIVAL_Y, z: (cell_pos(v.0).z + 1) as i32 },
            TerrainType::StairsUp,
        ),
    ensures
        ({
            let z = cell_pos(v.0).z;
            let w = stair_step(stair_step(v, PlayerAction::Descend, with_events), PlayerAction::Ascend, with_events);
            &&& player_cell(w.0) is Some
            &&& cell_pos(w.0).z == z
            &&& w.1 == z as usize
            &&& w.3 == v.3
        }),
{
    let p = cell_index(v.0);
    let pos = cell_pos(v.0);
    crate::world::lemma_player_index(v.0);
    let dest = Position { x: ARRIVAL_X, y: ARRIVAL_Y, z: (pos.z + 1) as i32 };
    let s1 = v.0.update(p, placed(v.0[p], dest));
    assert forall|j: int| 0 <= j < p implies !(#[trigger] s1[j]).is_player by {
        assert(s1[j] == v.0[j]);
    }
    assert(crate::world::is_first_player(s1, p));
    crate::world::lemma_player_index(s1);
    if player_index(s1) != Some(p) {
        let k = player_index(s1)->0;
        crate::world::lemma_first_player_unique(s1, p, k);
    }
    let u = stair_step(v, PlayerAction::Descend, with_events);
    assert(u.0 == s1);
    assert(player_cell(s1) == Some((p, dest)));
    let back = Position { x: ARRIVAL_X, y: ARRIVAL_Y, z: pos.z };
    let s2 = s1.update(p, placed(s1[p], back));
    assert forall|j: int| 0 <= j < p implies !(#[trigger] s2[j]).is_player by {
        assert(s2[j] == v.0[j]);
    }
    assert(crate::world::is_first_player(s2, p));
    crate::world::lemma_player_index(s2);
    if player_index(s2) != Some(p) {
        let k = player_index(s2)->0;
        crate::world::lemma_first_player_unique(s2, p, k);
    }
}

/// Placing the player on another cell keeps it the player.
proof fn lemma_placed_player(s: Seq<WorldEntity>, dest: Position)
    requires
        player_cell(s) is Some,
    ensures
        player_cell(s.update(cell_index(s), placed(s[cell_index(s)], dest))) == Some((cell_index(s), dest)),
{
    let p = cell_index(s);
    crate::world::lemma_player_index(s);
    let s1 = s.update(p, placed(s[p], dest));
    assert forall|j: int| 0 <= j < p implies !(#[trigger] s1[j]).is_player by {
        assert(s1[j] == s[j]);
    }
    assert(crate::world::is_first_player(s1, p));
    crate::world::lemma_player_index(s1);
    if player_index(s1) != Some(p) {
        let k = player_index(s1)->0;
        crate::world::lemma_first_player_unique(s1, p, k);
    }
}

/// Taking the stairs puts the game at the level the player arrives on:
/// after a descent or an ascent that happens, with or without events, the
/// depth is the player's new level, one below or one above where it stood.
pub proof fn lemma_depth_follows_player(v: StairView, a: PlayerAction, with_events: bool)
    requires
        player_cell(v.0) is Some,
        0 <= cell_pos(v.0).z < i32::MAX,
        (a is Descend && terrain_at(v.0, cell_pos(v.0), TerrainType::StairsDown)) || (a is Ascend && terrain_at(
            v.0,
            cell_pos(v.0),
            TerrainType::StairsUp,
        ) && cell_pos(v.0).z > 0),
    ensures
        ({
            let w = stair_step(v, a, with_events);
            &&& player_cell(w.0) is Some
            &&& w.1 as int == cell_pos(w.0).z
            &&& cell_pos(w.0).z == cell_pos(v.0).z + if a is Descend {
                1int
            } else {
                -1int
            }
        }),
{
    let pos = cell_pos(v.0);
    let dest = if a is Descend {
        Position { x: ARRIVAL_X, y: ARRIVAL_Y, z: (pos.z + 1) as i32 }
    } else {
        Position { x: ARRIVAL_X, y: ARRIVAL_Y, z: (pos.z - 1) as i32 }
    };
    lemma_placed_player(v.0, dest);
}

/// Moves the player between levels when it stands on stairs.
pub struct DungeonSystem;

/// The stair view of a world and its game state.
pub open spec fn stair_view(world: GameWorld, gs: GameState, back: Seq<PlayerAction>, events: Seq<GameEvent>) -> StairView {
    (world.entities@, gs.depth, log_view(gs.message_log@), back, events)
}

impl DungeonSystem {
    pub fn name(&self) -> (s: &'static str)
        ensures
            s@ == "DungeonSystem"@,
    {
        proof {
            reveal_strlit("DungeonSystem");
        }
        "DungeonSystem"
    }

    /// Handles the stair actions among the pending actions; every other
    /// action, and every stair action that could not be carried out for want
    /// of stairs or of a player, is handed back in its order.
    pub fn run(&mut self, world: &mut GameWorld, resources: &mut Resources) -> (r: SystemResult)
        requires
            player_depth_room(old(world).entities@, old(resources).input_buffer.pending_actions@.len() as int),
            old(resources).game_state.message_log@.len() < usize::MAX,
        ensures
            r is Continue,
            stair_view(*final(world), final(resources).game_state, final(resources).input_buffer.pending_actions@, seq![])
                == stair_run(
                stair_view(*old(world), old(resources).game_state, seq![], seq![]),
                old(resources).input_buffer.pending_actions@,
                false,
            ),
            final(world).next_id == old(world).next_id,
            final(resources).input_buffer.completed_actions == old(resources).input_buffer.completed_actions,
            final(resources).game_state.game_state == old(resources).game_state.game_state,
            final(resources).game_state.selected_class == old(resources).game_state.selected_class,
            final(resources).game_state.frame_count == old(resources).game_state.frame_count,
            final(resources).clock == old(resources).clock,
            final(resources).config == old(resources).config,
    {
        let mut events: Vec<GameEvent> = Vec::new();
        Self::process(world, resources, &mut events, false);
        assert(events@ =~= seq![]);
        SystemResult::Continue
    }

    /// Same as [`DungeonSystem::run`], and publishes a level change for every
    /// move between levels; an ascent is logged once.
    pub fn run_with_events(ecs_world: &mut EcsWorld) -> (r: SystemResult)
        requires
            player_depth_room(old(ecs_world).world.entities@, old(ecs_world).resources.input_buffer.pending_actions@.len() as int),
            old(ecs_world).resources.game_state.message_log@.len() < usize::MAX,
            old(ecs_world).events@.len() + old(ecs_world).resources.input_buffer.pending_actions@.len() <= usize::MAX,
        ensures
            r is Continue,
            stair_view(final(ecs_world).world, final(ecs_world).resources.game_state, final(ecs_world).resources.input_buffer.pending_actions@, final(ecs_world).events@)
                == stair_run(
                stair_view(old(ecs_world).world, old(ecs_world).resources.game_state, seq![], old(ecs_world).events@),
                old(ecs_world).resources.input_buffer.pending_actions@,
                true,
            ),
            final(ecs_world).world.next_id == old(ecs_world).world.next_id,
            final(ecs_world).resources.input_buffer.completed_actions == old(ecs_world).resources.input_buffer.completed_actions,
            final(ecs_world).resources.game_state.game_state == old(ecs_world).resources.game_state.game_state,
            final(ecs_world).resources.game_state.selected_class == old(ecs_world).resources.game_state.selected_class,
            final(ecs_world).resources.game_state.frame_count == old(ecs_world).resources.game_state.frame_count,
            final(ecs_world).resources.clock == old(ecs_world).resources.clock,
            final(ecs_world).resources.config == old(ecs_world).resources.config,
    {
        Self::process(&mut ecs_world.world, &mut ecs_world.resources, &mut ecs_world.events, true);
        SystemResult::Continue
    }

    /// The loop shared by both variants.
    fn process(world: &mut GameWorld, resources: &mut Resources, events: &mut Vec<GameEvent>, with_events: bool)
        requires
            player_depth_room(old(world).entities@, old(resources).input_buffer.pending_actions@.len() as int),
            old(resources).game_state.message_log@.len() < usize::MAX,
            with_events ==> old(events)@.len() + old(resources).input_buffer.pending_actions@.len() <= usize::MAX,
        ensures
            stair_view(*final(world), final(resources).game_state, final(resources).input_buffer.pending_actions@, final(events)@)
                == stair_run(
                stair_view(*old(world), old(resources).game_state, seq![], old(events)@),
                old(resources).input_buffer.pending_actions@,
                with_events,
            ),
            !with_events ==> final(events)@ == old(events)@,
            final(world).next_id == old(world).next_id,
            final(resources).input_buffer.completed_actions == old(resources).input_buffer.completed_actions,
            final(resources).game_state.game_state == old(resources).game_state.game_state,
            final(resources).game_state.selected_class == old(resources).game_state.selected_class,
            final(resources).game_state.frame_count == old(resources).game_state.frame_count,
            final(resources).clock == old(resources).clock,
            final(resources).config == old(resources).config,
    {
        let mut actions: Vec<PlayerAction> = Vec::new();
        std::mem::swap(&mut actions, &mut resources.input_buffer.pending_actions);
        let ghost acts = actions@;
        let ghost v0 = stair_view(*world, resources.game_state, seq![], events@);
        let mut back: Vec<PlayerAction> = Vec::new();
        let n = actions.len();
        let mut i: usize = 0;
        proof {
            lemma_stair_run_bounds_room(v0, acts.take(0), with_events, n as int);
        }
        while i < n
            invariant
                n == acts.len(),
                acts == actions@,
                0 <= i <= n,
                v0.0.len() == old(world).entities@.len(),
                player_depth_room(v0.0, n as int),
                v0.2.len() < usize::MAX,
                with_events ==> v0.4.len() + n <= usize::MAX,
                !with_events ==> events@ == v0.4,
                v0.4 == old(events)@,
                v0 == stair_view(*old(world), old(resources).game_state, seq![], old(events)@),
                stair_view(*world, resources.game_state, back@, events@) == stair_run(v0, acts.take(i as int), with_events),
                world.next_id == old(world).next_id,
                resources.input_buffer.completed_actions == old(resources).input_buffer.completed_actions,
                resources.game_state.game_state == old(resources).game_state.game_state,
                resources.game_state.selected_class == old(resources).game_state.selected_class,
                resources.game_state.frame_count == old(resources).game_state.frame_count,
                resources.clock == old(resources).clock,
                resources.config == old(resources).config,
            decreases n - i,
        {
            proof {
                assert(acts.take(i as int + 1).drop_last() =~= acts.take(i as int));
                lemma_stair_run_bounds_room(v0, acts.take(i as int), with_events, (n - i) as int);
                lemma_stair_run_bounds(v0, acts.take(i as int), with_events);
            }
            let action = actions[i];
            Self::step(world, &mut resources.game_state, &mut back, events, action, with_events);
            i = i + 1;
        }
        assert(acts.take(n as int) =~= acts);
        resources.input_buffer.pending_actions = back;
    }

    /// One action.
    fn step(
        world: &mut GameWorld,
        gs: &mut GameState,
        back: &mut Vec<PlayerAction>,
        events: &mut Vec<GameEvent>,
        action: PlayerAction,
        with_events: bool,
    )
        requires
            player_depth_room(old(world).entities@, 1),
            old(gs).message_log@.len() < usize::MAX,
            old(back)@.len() < usize::MAX,
            with_events ==> old(events)@.len() < usize::MAX,
        ensures
            stair_view(*final(world), *final(gs), final(back)@, final(events)@) == stair_step(
                stair_view(*old(world), *old(gs), old(back)@, old(events)@),
                action,
                with_events,
            ),
            final(world).next_id == old(world).next_id,
            final(gs).game_state == old(gs).game_state,
            final(gs).selected_class == old(gs).selected_class,
            final(gs).frame_count == old(gs).frame_count,
    {
        let is_descend = match action {
            PlayerAction::Descend => true,
            _ => false,
        };
        let is_ascend = match action {
            PlayerAction::Ascend => true,
            _ => false,
        };
        if !is_descend && !is_ascend {
            back.push(action);
            return;
        }
        let found = find_player_entity(world);
        let p = match found {
            Some(p) => p,
            None => {
                back.push(action);
                return;
            },
        };
        let pos = match world.entities[p].position {
            Some(pos) => pos,
            None => {
                back.push(action);
                return;
            },
        };
        assert(crate::world::is_first_player(world.entities@, p as int));
        if is_descend {
            if has_terrain_at(world, pos, TerrainType::StairsDown) {
                let old_level = pos.z as usize;
                let new_level = (pos.z + 1) as usize;
                gs.depth = new_level;
                world.entities[p].position = Some(Position::new(ARRIVAL_X, ARRIVAL_Y, pos.z + 1));
                if with_events {
                    events.push(GameEvent::LevelChanged { old_level, new_level });
                }
                gs.push_message(String::from_str("You descend to the next level..."));
            } else {
                gs.push_message(String::from_str("You need to stand on stairs to descend."));
                back.push(action);
            }
        } else {
            if has_terrain_at(world, pos, TerrainType::StairsUp) {
                if pos.z > 0 {
                    let old_level = pos.z as usize;
                    let new_level = (pos.z - 1) as usize;
                    world.entities[p].position = Some(Position::new(ARRIVAL_X, ARRIVAL_Y, pos.z - 1));
                    gs.depth = new_level;
                    if with_events {
                        events.push(GameEvent::LevelChanged { old_level, new_level });
                    }
                    proof {
                        crate::ecs::lemma_capped_push_len(log_view(gs.message_log@), ascend_text());
                    }
                    gs.push_message(String::from_str("You ascend to the previous level..."));
                    if !with_events {
                        gs.push_message(String::from_str("You ascend to the previous level..."));
                    }
                } else {
                    gs.push_message(String::from_str("You can't go up from here."));
                }
            } else {
                gs.push_message(String::from_str("You need to stand on stairs to ascend."));
                back.push(action);
            }
        }
    }
}

} // verus!

//! Player steps: a step onto a passable cell is taken and recorded as
//! completed, so that the scheduler charges its energy exactly once.

use vstd::prelude::*;
use crate::ecs::{Direction, PlayerAction, Resources};
use crate::systems::ai::{offset_of, stepped, AISystem};
use crate::systems::SystemResult;
use crate::world::{can_move_to, find_player_entity, passable_at, player_index, GameWorld, Position, WorldEntity};

verus! {

/// The entities, the completed actions and the actions handed back.
pub type MoveState = (Seq<WorldEntity>, Seq<PlayerAction>, Seq<PlayerAction>);

/// One action of the movement system.
pub open spec fn move_step(v: MoveState, a: PlayerAction) -> MoveState {
    let (ents, done, back) = v;
    match a {
        PlayerAction::Move(d) => match player_index(ents) {
            Some(p) => match ents[p].position {
                Some(pos) => {
                    let q = stepped(pos, d);
                    if passable_at(ents, q) {
                        (ents.update(p, WorldEntity { position: Some(q), ..ents[p] }), done.push(a), back)
                    } else {
                        (ents, done, back.push(a))
                    }
                },
                None => (ents, done, back.push(a)),
            },
            None => (ents, done, back.push(a)),
        },
        _ => (ents, done, back.push(a)),
    }
}

/// The actions handled in order.
pub open spec fn move_run(v: MoveState, actions: Seq<PlayerAction>) -> MoveState
    decreases actions.len(),
{
    if actions.len() == 0 {
        v
    } else {
        move_step(move_run(v, actions.drop_last()), actions.last())
    }
}

/// Every player cell is at least `n` steps away from the ends of `i32`.
pub open spec fn step_room(s: Seq<WorldEntity>, n: int) -> bool {
    forall|i: int|
        0 <= i < s.len() && (#[trigger] s[i]).is_player && s[i].position is Some ==> {
            let p = s[i].position->0;
            &&& i32::MIN + n < p.x < i32::MAX - n
            &&& i32::MIN + n < p.y < i32::MAX - n
        }
}

/// A step uses up at most one step of room and keeps the player flags.
proof fn lemma_move_step_room(v: MoveState, a: PlayerAction, n: int)
    requires
        n >= 0,
        step_room(v.0, n + 1),
    ensures
        step_room(move_step(v, a).0, n),
        move_step(v, a).0.len() == v.0.len(),
        move_step(v, a).1.len() + move_step(v, a).2.len() == v.1.len() + v.2.len() + 1,
{
    let w = move_step(v, a);
    assert forall|i: int|
        0 <= i < w.0.len() && (#[trigger] w.0[i]).is_player && w.0[i].position is Some implies {
            let p = w.0[i].position->0;
            &&& i32::MIN + n < p.x < i32::MAX - n
            &&& i32::MIN + n < p.y < i32::MAX - n
        } by {
        assert(v.0[i].is_player);
    }
}

proof fn lemma_move_run_room(v: MoveState, actions: Seq<PlayerAction>, m: int)
    requires
        m >= 0,
        step_room(v.0, actions.len() + m),
    ensures
        step_room(move_run(v, actions).0, m),
        move_run(v, actions).1.len() + move_run(v, actions).2.len() == v.1.len() + v.2.len() + actions.len(),
    decreases actions.len(),
{
    if actions.len() > 0 {
        lemma_move_run_room(v, actions.drop_last(), m + 1);
        lemma_move_step_room(move_run(v, actions.drop_last()), actions.last(), m);
    }
}

/// Moves the player.
pub struct MovementSystem;

impl MovementSystem {
    pub fn name(&self) -> (s: &'static str)
        ensures
            s@ == "MovementSystem"@,
    {
        proof {
            reveal_strlit("MovementSystem");
        }
        "MovementSystem"
    }

    /// Handles the step actions among the pending actions in order: a step
    /// onto a passable cell moves the player and is recorded as completed;
    /// every other action, and every step that cannot be taken, is handed
    /// back in its order.
    pub fn run(&mut self, world: &mut GameWorld, resources: &mut Resources) -> (r: SystemResult)
        requires
            step_room(old(world).entities@, old(resources).input_buffer.pending_actions@.len() as int),
            old(resources).input_buffer.completed_actions@.len() + old(resources).input_buffer.pending_actions@.len()
                <= usize::MAX,
        ensures
            r is Continue,
            (final(world).entities@, final(resources).input_buffer.completed_actions@, final(resources).input_buffer.pending_actions@)
                == move_run(
                (old(world).entities@, old(resources).input_buffer.completed_actions@, seq![]),
                old(resources).input_buffer.pending_actions@,
            ),
            final(world).next_id == old(world).next_id,
            final(resources).game_state == old(resources).game_state,
            final(resources).clock == old(resources).clock,
            final(resources).config == old(resources).config,
    {
        let mut actions: Vec<PlayerAction> = Vec::new();
        std::mem::swap(&mut actions, &mut resources.input_buffer.pending_actions);
        let ghost acts = actions@;
        let ghost v0 = (world.entities@, resources.input_buffer.completed_actions@, Seq::<PlayerAction>::empty());
        let mut back: Vec<PlayerAction> = Vec::new();
        let n = actions.len();
        let mut i: usize = 0;
        proof {
            lemma_move_run_room(v0, acts.take(0), n as int);
        }
        while i < n
            invariant
                n == acts.len(),
                acts == actions@,
                0 <= i <= n,
                v0 == (old(world).entities@, old(resources).input_buffer.completed_actions@, Seq::<PlayerAction>::empty()),
                step_room(v0.0, n as int),
                v0.1.len() + n <= usize::MAX,
                (world.entities@, resources.input_buffer.completed_actions@, back@) == move_run(v0, acts.take(i as int)),
                world.next_id == old(world).next_id,
                resources.game_state == old(resources).game_state,
                resources.clock == old(resources).clock,
                resources.config == old(resources).config,
            decreases n - i,
        {
            proof {
                assert(acts.take(i as int + 1).drop_last() =~= acts.take(i as int));
                lemma_move_run_room(v0, acts.take(i as int), (n - i) as int);
            }
            let a = actions[i];
            match a {
                PlayerAction::Move(d) => {
                    match find_player_entity(world) {
                        Some(p) => {
                            match world.entities[p].position {
                                Some(pos) => {
                                    assert(crate::world::is_first_player(world.entities@, p as int));
                                    let (dx, dy) = AISystem::direction_to_offset(d);
                                    let q = Position::new(pos.x + dx, pos.y + dy, pos.z);
                                    if can_move_to(world, q) {
                                        world.entities[p].position = Some(q);
                                        resources.input_buffer.completed_actions.push(PlayerAction::Move(d));
                                    } else {
                                        back.push(a);
                                    }
                                },
                                None => {
                                    back.push(a);
                                },
                            }
                        },
                        None => {
                            back.push(a);
                        },
                    }
                },
                _ => {
                    back.push(a);
                },
            }
            i = i + 1;
        }
        assert(acts.take(n as int) =~= acts);
        resources.input_buffer.pending_actions = back;
        SystemResult::Continue
    }
}

} // verus!

//! Carrying out the intents of AI-controlled creatures: moving, patrolling,
//! fleeing, attacking and waiting, with their energy costs.

use vstd::prelude::*;
use crate::ecs::{Direction, EntityId};
use crate::events::{events_view, EventView, GameEvent, LogLevel};
use crate::text::{decimal, push_decimal, push_signed_decimal, signed_decimal};
use crate::turn_system::energy_costs::{FULL_ACTION, WAIT};
use crate::turn_system::sat_sub;
use crate::world::{can_move_to, passable_at, AIState, AIType, Ai, EffectType, GameWorld, Position, WorldEntity};

verus! {

/// What an AI-controlled creature means to do.
#[derive(Clone, Copy, Debug, PartialEq, Eq, Structural)]
pub enum AIIntentType {
    Move(Direction),
    Attack(EntityId),
    Wait,
    Flee(Direction),
    Patrol(Position),
    UseSkill,
}

/// An intent with its target and the reason it was chosen.
#[derive(Clone, Debug)]
pub struct AIActionIntent {
    pub entity: EntityId,
    pub intent_type: AIIntentType,
    pub target_entity: Option<EntityId>,
    pub target_position: Option<Position>,
    pub reason: String,
}

/// The step of a direction.
pub open spec fn offset_of(d: Direction) -> (i32, i32) {
    match d {
        Direction::North => (0i32, -1i32),
        Direction::South => (0i32, 1i32),
        Direction::East => (1i32, 0i32),
        Direction::West => (-1i32, 0i32),
        Direction::NorthEast => (1i32, -1i32),
        Direction::NorthWest => (-1i32, -1i32),
        Direction::SouthEast => (1i32, 1i32),
        Direction::SouthWest => (-1i32, 1i32),
    }
}

/// The direction of a step (no step, or an unknown one, reads as north).
pub open spec fn direction_of(dx: i32, dy: i32) -> Direction {
    if dx == 0 && dy == -1 {
        Direction::North
    } else if dx == 0 && dy == 1 {
        Direction::South
    } else if dx == 1 && dy == 0 {
        Direction::East
    } else if dx == -1 && dy == 0 {
        Direction::West
    } else if dx == 1 && dy == -1 {
        Direction::NorthEast
    } else if dx == -1 && dy == -1 {
        Direction::NorthWest
    } else if dx == 1 && dy == 1 {
        Direction::SouthEast
    } else if dx == -1 && dy == 1 {
        Direction::SouthWest
    } else {
        Direction::North
    }
}

/// Sign of a number: -1, 0 or 1.
pub open spec fn sign(v: int) -> i32 {
    if v > 0 {
        1i32
    } else if v < 0 {
        -1i32
    } else {
        0i32
    }
}

/// The direction from `from` toward `to`.
pub open spec fn direction_toward(from: Position, to: Position) -> Direction {
    direction_of(sign(to.x - from.x), sign(to.y - from.y))
}

/// The cell one step from `p` in direction `d`.
pub open spec fn stepped(p: Position, d: Direction) -> Position {
    Position { x: (p.x + offset_of(d).0) as i32, y: (p.y + offset_of(d).1) as i32, z: p.z }
}

/// Turning a direction into its step and back gives the same direction.
pub proof fn lemma_direction_round_trip(d: Direction)
    ensures
        direction_of(offset_of(d).0, offset_of(d).1) == d,
{
}

/// The step of the direction of a sign pair is that pair, for every pair of
/// signs other than no step at all.
pub proof fn lemma_offset_round_trip(dx: i32, dy: i32)
    requires
        -1 <= dx <= 1,
        -1 <= dy <= 1,
        !(dx == 0 && dy == 0),
    ensures
        offset_of(direction_of(dx, dy)) == (dx, dy),
{
}

/// The differences between two cells, their sizes and their sum fit `i32`.
pub open spec fn manhattan_fits(a: Position, b: Position) -> bool {
    let dx = b.x - a.x;
    let dy = b.y - a.y;
    &&& i32::MIN < dx <= i32::MAX
    &&& i32::MIN < dy <= i32::MAX
    &&& (if dx < 0 { -dx } else { dx }) + (if dy < 0 { -dy } else { dy }) <= i32::MAX
}

/// Manhattan distance.
pub open spec fn manhattan(a: Position, b: Position) -> int {
    let dx = b.x - a.x;
    let dy = b.y - a.y;
    (if dx < 0 { -dx } else { dx }) + (if dy < 0 { -dy } else { dy })
}

/// `i` is the first entity with identifier `id`.
pub open spec fn is_first_with_id(s: Seq<WorldEntity>, id: EntityId, i: int) -> bool {
    &&& 0 <= i < s.len()
    &&& s[i].id == id
    &&& forall|j: int| 0 <= j < i ==> (#[trigger] s[j]).id != id
}

/// The entity with identifier `id`, if any.
pub open spec fn entity_with_id(s: Seq<WorldEntity>, id: EntityId) -> Option<int> {
    if exists|i: int| is_first_with_id(s, id, i) {
        Some(choose|i: int| is_first_with_id(s, id, i))
    } else {
        None
    }
}

/// There is at most one first entity with an identifier.
pub proof fn lemma_first_with_id_unique(s: Seq<WorldEntity>, id: EntityId, i: int, k: int)
    requires
        is_first_with_id(s, id, i),
        is_first_with_id(s, id, k),
    ensures
        i == k,
{
    if i < k {
        assert(s[i].id == id);
    } else if k < i {
        assert(s[k].id == id);
    }
}

/// Some entity with an identifier implies a first one.
pub proof fn lemma_exists_first_with_id(s: Seq<WorldEntity>, id: EntityId, j: int)
    requires
        0 <= j < s.len(),
        s[j].id == id,
    ensures
        exists|i: int| is_first_with_id(s, id, i),
    decreases j,
{
    if forall|k: int| 0 <= k < j ==> (#[trigger] s[k]).id != id {
        assert(is_first_with_id(s, id, j));
    } else {
        let k = choose|k: int| 0 <= k < j && (#[trigger] s[k]).id == id;
        lemma_exists_first_with_id(s, id, k);
    }
}

/// Finds the entity with identifier `id`.
pub fn find_entity(world: &GameWorld, id: EntityId) -> (r: Option<usize>)
    ensures
        r matches Some(i) ==> entity_with_id(world.entities@, id) == Some(i as int),
        r is None ==> entity_with_id(world.entities@, id) is None,
{
    let n = world.entities.len();
    let mut i: usize = 0;
    while i < n
        invariant
            n == world.entities@.len(),
            0 <= i <= n,
            forall|j: int| 0 <= j < i ==> (#[trigger] world.entities@[j]).id != id,
        decreases n - i,
    {
        if world.entities[i].id == id {
            proof {
                assert(is_first_with_id(world.entities@, id, i as int));
                let k = choose|k: int| is_first_with_id(world.entities@, id, k);
                lemma_first_with_id_unique(world.entities@, id, i as int, k);
            }
            return Some(i);
        }
        i = i + 1;
    }
    proof {
        if exists|k: int| is_first_with_id(world.entities@, id, k) {
            let k = choose|k: int| is_first_with_id(world.entities@, id, k);
            assert(world.entities@[k].id == id);
        }
    }
    None
}

/// The entity with its position set.
pub open spec fn moved_to(e: WorldEntity, p: Position) -> WorldEntity {
    WorldEntity { position: Some(p), ..e }
}

/// The entity with `cost` energy spent (saturating at zero); unchanged
/// without an energy pool.
pub open spec fn spent(e: WorldEntity, cost: u32) -> WorldEntity {
    match e.energy {
        Some(en) => WorldEntity {
            energy: Some(crate::ecs::Energy { current: sat_sub(en.current, cost), ..en }),
            ..e
        },
        None => e,
    }
}

/// The message of an AI attack.
pub open spec fn attack_text(id: EntityId) -> Seq<char> {
    "AI entity "@ + decimal(id.0 as nat) + " attacks"@
}

/// Carrying out an intent: the entities and the events published.
pub open spec fn execute(s: Seq<WorldEntity>, intent_entity: EntityId, t: AIIntentType) -> (Seq<WorldEntity>, Seq<EventView>) {
    match entity_with_id(s, intent_entity) {
        None => match t {
            AIIntentType::Attack(_) => (
                s,
                seq![EventView::LogMessage { message: attack_text(intent_entity), level: LogLevel::Info }],
            ),
            _ => (s, seq![]),
        },
        Some(i) => {
            let e = s[i];
            match t {
                AIIntentType::Move(_) | AIIntentType::Patrol(_) => match e.position {
                    None => (s, seq![]),
                    Some(p) => {
                        let d = match t {
                            AIIntentType::Move(d) => d,
                            AIIntentType::Patrol(target) => direction_toward(p, target),
                            _ => Direction::North,
                        };
                        let q = stepped(p, d);
                        if passable_at(s, q) {
                            (
                                s.update(i, spent(moved_to(e, q), FULL_ACTION)),
                                seq![
                                    EventView::EntityMoved {
                                        entity: e.id,
                                        from_x: p.x,
                                        from_y: p.y,
                                        to_x: q.x,
                                        to_y: q.y,
                                    },
                                ],
                            )
                        } else {
                            (s.update(i, spent(e, FULL_ACTION)), seq![])
                        }
                    },
                },
                AIIntentType::Flee(d) => match e.position {
                    None => (s, seq![]),
                    Some(p) => {
                        let q = stepped(p, d);
                        if passable_at(s, q) {
                            (s.update(i, spent(moved_to(e, q), FULL_ACTION)), seq![])
                        } else {
                            (s.update(i, spent(e, FULL_ACTION)), seq![])
                        }
                    },
                },
                AIIntentType::Attack(_) => (
                    s.update(i, spent(e, FULL_ACTION)),
                    seq![EventView::LogMessage { message: attack_text(intent_entity), level: LogLevel::Info }],
                ),
                AIIntentType::Wait => (s.update(i, spent(e, WAIT)), seq![]),
                AIIntentType::UseSkill => (s.update(i, spent(e, FULL_ACTION)), seq![]),
            }
        },
    }
}

/// A move or a flight in direction `d` takes the creature one step that way
/// when that cell is passable, and leaves it in place otherwise; either way
/// it pays a full action of energy and no other entity changes. Only a move
/// that happens is announced, and a flight is never announced.
pub proof fn lemma_step_intents(s: Seq<WorldEntity>, id: EntityId, i: int, p: Position, d: Direction, flee: bool)
    requires
        entity_with_id(s, id) == Some(i),
        s[i].position == Some(p),
    ensures
        ({
            let t = if flee {
                AIIntentType::Flee(d)
            } else {
                AIIntentType::Move(d)
            };
            let (r, ev) = execute(s, id, t);
            let q = Position { x: (p.x + offset_of(d).0) as i32, y: (p.y + offset_of(d).1) as i32, z: p.z };
            &&& r.len() == s.len()
            &&& forall|j: int| 0 <= j < s.len() && j != i ==> r[j] == #[trigger] s[j]
            &&& r[i].position == if passable_at(s, q) {
                Some(q)
            } else {
                Some(p)
            }
            &&& r[i].energy == match s[i].energy {
                Some(en) => Some(
                    crate::ecs::Energy {
                        current: if en.current >= FULL_ACTION {
                            (en.current - FULL_ACTION) as u32
                        } else {
                            0
                        },
                        ..en
                    },
                ),
                None => None,
            }
            &&& (WorldEntity { position: s[i].position, energy: s[i].energy, ..r[i] }) == s[i]
            &&& ev.len() == if !flee && passable_at(s, q) {
                1int
            } else {
                0int
            }
        }),
{
}

/// A patrol step heads one cell toward the patrol point (by the signs of
/// the differences) when that cell is passable, and announces the move; a
/// wait pays the smaller cost of waiting and changes nothing else.
pub proof fn lemma_patrol_and_wait(s: Seq<WorldEntity>, id: EntityId, i: int, p: Position, target: Position)
    requires
        entity_with_id(s, id) == Some(i),
        s[i].position == Some(p),
    ensures
        ({
            let (r, ev) = execute(s, id, AIIntentType::Patrol(target));
            let o = offset_of(direction_toward(p, target));
            let q = Position { x: (p.x + o.0) as i32, y: (p.y + o.1) as i32, z: p.z };
            &&& r.len() == s.len()
            &&& forall|j: int| 0 <= j < s.len() && j != i ==> r[j] == #[trigger] s[j]
            &&& r[i].position == if passable_at(s, q) {
                Some(q)
            } else {
                Some(p)
            }
            &&& ev.len() == if passable_at(s, q) {
                1int
            } else {
                0int
            }
        }),
        ({
            let (r, ev) = execute(s, id, AIIntentType::Wait);
            &&& r.len() == s.len()
            &&& forall|j: int| 0 <= j < s.len() && j != i ==> r[j] == #[trigger] s[j]
            &&& (WorldEntity { energy: s[i].energy, ..r[i] }) == s[i]
            &&& r[i].energy == match s[i].energy {
                Some(en) => Some(
                    crate::ecs::Energy {
                        current: if en.current >= WAIT {
                            (en.current - WAIT) as u32
                        } else {
                            0
                        },
                        ..en
                    },
                ),
                None => None,
            }
            &&& ev.len() == 0
        }),
{
}

/// The cell one step from `p` in direction `d` has coordinates that fit `i32`.
pub open spec fn step_fits(p: Position, d: Direction) -> bool {
    &&& i32::MIN <= p.x + offset_of(d).0 <= i32::MAX
    &&& i32::MIN <= p.y + offset_of(d).1 <= i32::MAX
}

/// The differences between two cells fit `i32`.
pub open spec fn difference_fits(a: Position, b: Position) -> bool {
    &&& i32::MIN <= b.x - a.x <= i32::MAX
    &&& i32::MIN <= b.y - a.y <= i32::MAX
}

/// The arithmetic of carrying out an intent fits `i32`: the cell stepped
/// into, and for a patrol the way to its target.
pub open spec fn execute_fits(s: Seq<WorldEntity>, intent_entity: EntityId, t: AIIntentType) -> bool {
    match entity_with_id(s, intent_entity) {
        Some(i) => match s[i].position {
            Some(p) => match t {
                AIIntentType::Move(d) | AIIntentType::Flee(d) => step_fits(p, d),
                AIIntentType::Patrol(target) => difference_fits(p, target) && step_fits(
                    p,
                    direction_toward(p, target),
                ),
                _ => true,
            },
            None => true,
        },
        None => true,
    }
}

/// The AI component after an intent: the new activity and target.
pub open spec fn ai_after(ai: Ai, t: AIIntentType, target: Option<EntityId>) -> Ai {
    let state = match t {
        AIIntentType::Attack(_) => AIState::Attacking,
        AIIntentType::Move(_) => if ai.ai_type is Aggressive {
            AIState::Chasing
        } else {
            ai.state
        },
        AIIntentType::Flee(_) => AIState::Fleeing,
        AIIntentType::Patrol(_) => AIState::Patrolling,
        AIIntentType::Wait => if ai.state == AIState::Patrolling {
            ai.state
        } else {
            AIState::Idle
        },
        AIIntentType::UseSkill => ai.state,
    };
    Ai { state, target, ..ai }
}

/// The sign of a difference.
fn signum(v: i32) -> (r: i32)
    ensures
        r == sign(v as int),
{
    if v > 0 {
        1
    } else if v < 0 {
        -1
    } else {
        0
    }
}

/// The patrol point nearest (by Manhattan distance) to `from`; the first of
/// equally near ones.
pub open spec fn is_nearest_point(path: Seq<Position>, from: Position, k: int) -> bool {
    &&& 0 <= k < path.len()
    &&& forall|j: int| 0 <= j < path.len() ==> manhattan(from, path[k]) <= manhattan(from, #[trigger] path[j])
    &&& forall|j: int| 0 <= j < k ==> manhattan(from, path[k]) < manhattan(from, #[trigger] path[j])
}

/// The text of patrolling toward a point.
pub open spec fn patrol_text(p: Position) -> Seq<char> {
    "Patrolling to ("@ + signed_decimal(p.x as int) + ", "@ + signed_decimal(p.y as int) + ")"@
}

/// Runs the intents of AI-controlled creatures.
pub struct AISystem;

/// Effects that keep a creature from acting: paralysis, frost and roots.
pub open spec fn is_impairing(t: EffectType) -> bool {
    t == EffectType::Paralysis || t == EffectType::Frost || t == EffectType::Rooted
}

/// The creature has an impairing status effect.
pub open spec fn spec_impaired(e: WorldEntity) -> bool {
    match e.effects {
        Some(fx) => exists|i: int| 0 <= i < fx.effects@.len() && is_impairing(#[trigger] fx.effects@[i].effect_type),
        None => false,
    }
}

impl AISystem {
    /// Whether the creature is impaired by a status effect, so that it
    /// waits instead of acting.
    pub fn is_impaired(e: &WorldEntity) -> (r: bool)
        ensures
            r == spec_impaired(*e),
    {
        match &e.effects {
            Some(fx) => {
                let n = fx.effects.len();
                let mut i: usize = 0;
                while i < n
                    invariant
                        n == fx.effects@.len(),
                        e.effects == Some(*fx),
                        0 <= i <= n,
                        forall|j: int| 0 <= j < i ==> !is_impairing(#[trigger] fx.effects@[j].effect_type),
                    decreases n - i,
                {
                    let t = fx.effects[i].effect_type;
                    if t == EffectType::Paralysis || t == EffectType::Frost || t == EffectType::Rooted {
                        assert(is_impairing(fx.effects@[i as int].effect_type));
                        return true;
                    }
                    i = i + 1;
                }
                false
            },
            None => false,
        }
    }

    pub fn name(&self) -> (s: &'static str)
        ensures
            s@ == "AISystem"@,
    {
        proof {
            reveal_strlit("AISystem");
        }
        "AISystem"
    }

    /// The direction of a pair of signs.
    pub fn signum_to_direction(dx: i32, dy: i32) -> (d: Direction)
        ensures
            d == direction_of(dx, dy),
    {
        if dx == 0 && dy == -1 {
            Direction::North
        } else if dx == 0 && dy == 1 {
            Direction::South
        } else if dx == 1 && dy == 0 {
            Direction::East
        } else if dx == -1 && dy == 0 {
            Direction::West
        } else if dx == 1 && dy == -1 {
            Direction::NorthEast
        } else if dx == -1 && dy == -1 {
            Direction::NorthWest
        } else if dx == 1 && dy == 1 {
            Direction::SouthEast
        } else if dx == -1 && dy == 1 {
            Direction::SouthWest
        } else {
            Direction::North
        }
    }

    /// The step of a direction.
    pub fn direction_to_offset(direction: Direction) -> (r: (i32, i32))
        ensures
            r == offset_of(direction),
    {
        match direction {
            Direction::North => (0, -1),
            Direction::South => (0, 1),
            Direction::East => (1, 0),
            Direction::West => (-1, 0),
            Direction::NorthEast => (1, -1),
            Direction::NorthWest => (-1, -1),
            Direction::SouthEast => (1, 1),
            Direction::SouthWest => (-1, 1),
        }
    }

    /// Spends energy of the entity at `i`.
    fn spend(world: &mut GameWorld, i: usize, cost: u32)
        requires
            i < old(world).entities@.len(),
        ensures
            final(world).entities@ == old(world).entities@.update(i as int, spent(old(world).entities@[i as int], cost)),
            final(world).next_id == old(world).next_id,
    {
        match world.entities[i].energy {
            Some(en) => {
                world.entities[i].energy = Some(crate::ecs::Energy { current: en.current.saturating_sub(cost), ..en });
            },
            None => {
                assert(world.entities@ =~= old(world).entities@.update(i as int, spent(old(world).entities@[i as int], cost)));
            },
        }
    }

    /// Carries out an intent: a move or patrol step onto a passable cell
    /// (announced), a flight step, an attack (logged), a wait or a skill,
    /// each paying its energy cost.
    pub fn execute_intent(world: &mut GameWorld, intent: &AIActionIntent, events: &mut Vec<GameEvent>)
        requires
            execute_fits(old(world).entities@, intent.entity, intent.intent_type),
            old(events)@.len() < usize::MAX,
        ensures
            ({
                let (s, ev) = execute(old(world).entities@, intent.entity, intent.intent_type);
                &&& final(world).entities@ == s
                &&& events_view(final(events)@) == events_view(old(events)@) + ev
            }),
            final(world).next_id == old(world).next_id,
    {
        let ghost s = world.entities@;
        let ghost ev0 = events_view(events@);
        let i = match find_entity(world, intent.entity) {
            Some(i) => i,
            None => {
                match intent.intent_type {
                    AIIntentType::Attack(_) => {
                        let mut text = String::from_str("AI entity ");
                        push_decimal(&mut text, intent.entity.0);
                        text.append(" attacks");
                        events.push(GameEvent::LogMessage { message: text, level: LogLevel::Info });
                        assert(events_view(events@) =~= ev0 + execute(s, intent.entity, intent.intent_type).1);
                    },
                    _ => {
                        assert(events_view(events@) =~= ev0 + seq![]);
                    },
                }
                return;
            },
        };
        match intent.intent_type {
            AIIntentType::Move(_) | AIIntentType::Patrol(_) => {
                let p = match world.entities[i].position {
                    Some(p) => p,
                    None => {
                        assert(events_view(events@) =~= ev0 + seq![]);
                        return;
                    },
                };
                let direction = match intent.intent_type {
                    AIIntentType::Move(d) => d,
                    AIIntentType::Patrol(target) => {
                        let dx = signum(target.x - p.x);
                        let dy = signum(target.y - p.y);
                        Self::signum_to_direction(dx, dy)
                    },
                    _ => Direction::North,
                };
                let (dx, dy) = Self::direction_to_offset(direction);
                let q = Position::new(p.x + dx, p.y + dy, p.z);
                if can_move_to(world, q) {
                    world.entities[i].position = Some(q);
                    let id = world.entities[i].id;
                    events.push(GameEvent::EntityMoved { entity: id, from_x: p.x, from_y: p.y, to_x: q.x, to_y: q.y });
                    Self::spend(world, i, FULL_ACTION);
                    proof {
                        assert(world.entities@ =~= s.update(i as int, spent(moved_to(s[i as int], q), FULL_ACTION)));
                        assert(events_view(events@) =~= ev0 + execute(s, intent.entity, intent.intent_type).1);
                    }
                } else {
                    Self::spend(world, i, FULL_ACTION);
                    assert(events_view(events@) =~= ev0 + seq![]);
                }
            },
            AIIntentType::Flee(d) => {
                let p = match world.entities[i].position {
                    Some(p) => p,
                    None => {
                        assert(events_view(events@) =~= ev0 + seq![]);
                        return;
                    },
                };
                let (dx, dy) = Self::direction_to_offset(d);
                let q = Position::new(p.x + dx, p.y + dy, p.z);
                if can_move_to(world, q) {
                    world.entities[i].position = Some(q);
                    Self::spend(world, i, FULL_ACTION);
                    assert(world.entities@ =~= s.update(i as int, spent(moved_to(s[i as int], q), FULL_ACTION)));
                } else {
                    Self::spend(world, i, FULL_ACTION);
                }
                assert(events_view(events@) =~= ev0 + seq![]);
            },
            AIIntentType::Attack(_) => {
                Self::spend(world, i, FULL_ACTION);
                let mut text = String::from_str("AI entity ");
                push_decimal(&mut text, intent.entity.0);
                text.append(" attacks");
                events.push(GameEvent::LogMessage { message: text, level: LogLevel::Info });
                assert(events_view(events@) =~= ev0 + execute(s, intent.entity, intent.intent_type).1);
            },
            AIIntentType::Wait => {
                Self::spend(world, i, WAIT);
                assert(events_view(events@) =~= ev0 + seq![]);
            },
            AIIntentType::UseSkill => {
                Self::spend(world, i, FULL_ACTION);
                assert(events_view(events@) =~= ev0 + seq![]);
            },
        }
    }

    /// Records the activity and target an intent implies; a change of
    /// target is announced.
    pub fn update_ai_state(world: &mut GameWorld, intent: &AIActionIntent, events: &mut Vec<GameEvent>)
        requires
            old(events)@.len() < usize::MAX,
        ensures
            ({
                let s = old(world).entities@;
                match entity_with_id(s, intent.entity) {
                    Some(i) => match s[i].ai {
                        Some(ai) => {
                            &&& final(world).entities@ == s.update(
                                i,
                                WorldEntity { ai: Some(ai_after(ai, intent.intent_type, intent.target_entity)), ..s[i] },
                            )
                            &&& events_view(final(events)@) == events_view(old(events)@) + if ai.target
                                != intent.target_entity {
                                seq![
                                    EventView::AITargetChanged {
                                        entity: s[i].id,
                                        old_target: ai.target,
                                        new_target: intent.target_entity,
                                    },
                                ]
                            } else {
                                seq![]
                            }
                        },
                        None => final(world).entities@ == s && final(events)@ == old(events)@,
                    },
                    None => final(world).entities@ == s && final(events)@ == old(events)@,
                }
            }),
            final(world).next_id == old(world).next_id,
    {
        let ghost s = world.entities@;
        let i = match find_entity(world, intent.entity) {
            Some(i) => i,
            None => {
                return;
            },
        };
        let (state, old_target, is_aggressive) = match &world.entities[i].ai {
            Some(ai) => (
                ai.state,
                ai.target,
                match ai.ai_type {
                    AIType::Aggressive => true,
                    _ => false,
                },
            ),
            None => {
                return;
            },
        };
        let new_state = match intent.intent_type {
            AIIntentType::Attack(_) => AIState::Attacking,
            AIIntentType::Move(_) => if is_aggressive {
                AIState::Chasing
            } else {
                state
            },
            AIIntentType::Flee(_) => AIState::Fleeing,
            AIIntentType::Patrol(_) => AIState::Patrolling,
            AIIntentType::Wait => if state == AIState::Patrolling {
                state
            } else {
                AIState::Idle
            },
            AIIntentType::UseSkill => state,
        };
        let new_target = intent.target_entity;
        let mut ai_opt: Option<Ai> = None;
        std::mem::swap(&mut ai_opt, &mut world.entities[i].ai);
        let mut ai = match ai_opt {
            Some(ai) => ai,
            None => {
                assert(false);
                return;
            },
        };
        ai.state = new_state;
        ai.target = new_target;
        world.entities[i].ai = Some(ai);
        let ghost ev0 = events_view(events@);
        if old_target != new_target {
            let id = world.entities[i].id;
            events.push(GameEvent::AITargetChanged { entity: id, old_target, new_target });
            assert(events_view(events@) =~= ev0 + seq![
                EventView::AITargetChanged { entity: id, old_target, new_target },
            ]);
        } else {
            assert(events_view(events@) =~= ev0 + seq![]);
        }
        assert(world.entities@ =~= s.update(
            i as int,
            WorldEntity { ai: Some(ai_after(s[i as int].ai->0, intent.intent_type, intent.target_entity)), ..s[i as int] },
        ));
    }

    /// A creature that only waits.
    pub fn passive_intent(entity: EntityId) -> (r: AIActionIntent)
        ensures
            r.entity == entity,
            r.intent_type == AIIntentType::Wait,
            r.target_entity is None,
            r.target_position is None,
            r.reason@ == "Passive AI waiting"@,
    {
        AIActionIntent {
            entity,
            intent_type: AIIntentType::Wait,
            target_entity: None,
            target_position: None,
            reason: String::from_str("Passive AI waiting"),
        }
    }

    /// A neutral creature that has not been provoked waits.
    pub fn neutral_wait_intent(entity: EntityId) -> (r: AIActionIntent)
        ensures
            r.entity == entity,
            r.intent_type == AIIntentType::Wait,
            r.target_entity is None,
            r.target_position is None,
            r.reason@ == "Neutral AI waiting"@,
    {
        AIActionIntent {
            entity,
            intent_type: AIIntentType::Wait,
            target_entity: None,
            target_position: None,
            reason: String::from_str("Neutral AI waiting"),
        }
    }

    /// A creature on patrol heads for the nearest patrol point, and waits
    /// once it stands on it.
    pub fn generate_patrol_intent(entity: EntityId, ai_pos: Position, patrol_path: &Vec<Position>) -> (r: AIActionIntent)
        requires
            forall|j: int| 0 <= j < patrol_path@.len() ==> manhattan_fits(ai_pos, #[trigger] patrol_path@[j]),
        ensures
            r.entity == entity,
            r.target_entity is None,
            patrol_path@.len() == 0 ==> r.intent_type == AIIntentType::Wait && r.target_position is None
                && r.reason@ == "Empty patrol path"@,
            patrol_path@.len() > 0 ==> exists|k: int|
                #![trigger patrol_path@[k]]
                is_nearest_point(patrol_path@, ai_pos, k) && r.target_position == Some(patrol_path@[k])
                    && if patrol_path@[k].x == ai_pos.x && patrol_path@[k].y == ai_pos.y {
                    r.intent_type == AIIntentType::Wait && r.reason@ == "At patrol point"@
                } else {
                    r.intent_type == AIIntentType::Patrol(patrol_path@[k]) && r.reason@ == patrol_text(
                        patrol_path@[k],
                    )
                },
    {
        let n = patrol_path.len();
        if n == 0 {
            return AIActionIntent {
                entity,
                intent_type: AIIntentType::Wait,
                target_entity: None,
                target_position: None,
                reason: String::from_str("Empty patrol path"),
            };
        }
        let mut best: usize = 0;
        let mut best_d: i32 = Self::manhattan_exec(ai_pos, patrol_path[0]);
        let mut j: usize = 1;
        while j < n
            invariant
                n == patrol_path@.len(),
                1 <= j <= n,
                best < j,
                best_d == manhattan(ai_pos, patrol_path@[best as int]),
                forall|m: int| 0 <= m < patrol_path@.len() ==> manhattan_fits(ai_pos, #[trigger] patrol_path@[m]),
                forall|m: int| 0 <= m < j ==> best_d <= manhattan(ai_pos, #[trigger] patrol_path@[m]),
                forall|m: int| 0 <= m < best ==> best_d < manhattan(ai_pos, #[trigger] patrol_path@[m]),
            decreases n - j,
        {
            let d = Self::manhattan_exec(ai_pos, patrol_path[j]);
            if d < best_d {
                best = j;
                best_d = d;
            }
            j = j + 1;
        }
        let target = patrol_path[best];
        assert(is_nearest_point(patrol_path@, ai_pos, best as int));
        if ai_pos.x == target.x && ai_pos.y == target.y {
            AIActionIntent {
                entity,
                intent_type: AIIntentType::Wait,
                target_entity: None,
                target_position: Some(target),
                reason: String::from_str("At patrol point"),
            }
        } else {
            let mut reason = String::from_str("Patrolling to (");
            push_signed_decimal(&mut reason, target.x);
            reason.append(", ");
            push_signed_decimal(&mut reason, target.y);
            reason.append(")");
            AIActionIntent {
                entity,
                intent_type: AIIntentType::Patrol(target),
                target_entity: None,
                target_position: Some(target),
                reason,
            }
        }
    }

    /// Manhattan distance between two cells.
    fn manhattan_exec(a: Position, b: Position) -> (r: i32)
        requires
            manhattan_fits(a, b),
        ensures
            r == manhattan(a, b),
    {
        let dx = b.x - a.x;
        let dy = b.y - a.y;
        let ax = if dx < 0 { -dx } else { dx };
        let ay = if dy < 0 { -dy } else { dy };
        ax + ay
    }
}

} // verus!

//! Player attacks: finding the enemy in the attacked cell, and applying the
//! outcome of a fight to the world.

use vstd::prelude::*;
use crate::ecs::{Direction, EntityId, Faction, PlayerAction};
use crate::events::{events_view, EventView, GameEvent, LogLevel};
use crate::systems::ai::{step_fits, stepped, AISystem};
use crate::systems::EcsWorld;
use crate::turn_system::energy_costs::FULL_ACTION;
use crate::turn_system::sat_sub;
use crate::world::{find_player_entity, lemma_player_index, player_index, GameWorld, Position, Stats, WorldEntity};

verus! {

/// An enemy actor with statistics.
pub open spec fn is_enemy_at(e: WorldEntity, pos: Position) -> bool {
    &&& e.position == Some(pos)
    &&& e.actor is Some
    &&& e.actor->0.faction == Faction::Enemy
    &&& e.stats is Some
}

/// `i` is the first enemy standing at `pos`.
pub open spec fn is_first_enemy_at(s: Seq<WorldEntity>, pos: Position, i: int) -> bool {
    &&& 0 <= i < s.len()
    &&& is_enemy_at(s[i], pos)
    &&& forall|j: int| 0 <= j < i ==> !is_enemy_at(#[trigger] s[j], pos)
}

/// Something that happened in a fight, as the combat rules report it.
#[derive(Clone, Debug)]
pub enum CombatRecord {
    CombatStarted { attacker: EntityId, defender: EntityId },
    DamageDealt { attacker: EntityId, victim: EntityId, damage: u32, is_critical: bool },
    EntityDied { entity: EntityId, entity_name: String },
    Ambush,
}

/// What a fight left behind: both creatures' hit points, what happened,
/// and the lines of its log.
#[derive(Clone, Debug)]
pub struct CombatOutcome {
    pub attacker_hp: u32,
    pub defender_hp: u32,
    pub records: Vec<CombatRecord>,
    pub logs: Vec<String>,
}

/// The event a fight record is published as; an ambush is told by name.
pub open spec fn record_event(r: CombatRecord, attacker_name: Seq<char>, defender_name: Seq<char>) -> EventView {
    match r {
        CombatRecord::CombatStarted { attacker, defender } => EventView::CombatStarted { attacker, defender },
        CombatRecord::DamageDealt { attacker, victim, damage, is_critical } => EventView::DamageDealt {
            attacker,
            victim,
            damage,
            is_critical,
        },
        CombatRecord::EntityDied { entity, entity_name } => EventView::EntityDied {
            entity,
            entity_name: entity_name@,
        },
        CombatRecord::Ambush => EventView::LogMessage {
            message: "伏击！"@ + attacker_name + " -> "@ + defender_name,
            level: LogLevel::Info,
        },
    }
}

/// The events of a fight: its records, then its log lines, then a game
/// over when the attacker fell.
pub open spec fn fight_events(o: CombatOutcome, attacker_name: Seq<char>, defender_name: Seq<char>) -> Seq<EventView> {
    o.records@.map_values(|r: CombatRecord| record_event(r, attacker_name, defender_name))
        + o.logs@.map_values(|m: String| EventView::LogMessage { message: m@, level: LogLevel::Info })
        + if o.attacker_hp == 0 {
        seq![EventView::GameOver { reason: "你被击败了！"@ }]
    } else {
        seq![]
    }
}

/// The entities after a fight between the attacker at `p` and the defender
/// at `t`: new hit points, the attacker pays a full action, and a defender
/// without hit points leaves the world.
pub open spec fn fight_entities(s: Seq<WorldEntity>, p: int, t: int, o: CombatOutcome) -> Seq<WorldEntity> {
    let a = s[p];
    let d = s[t];
    let a2 = WorldEntity {
        stats: Some(Stats { hp: o.attacker_hp, ..a.stats->0 }),
        energy: match a.energy {
            Some(en) => Some(crate::ecs::Energy { current: sat_sub(en.current, FULL_ACTION), ..en }),
            None => None,
        },
        ..a
    };
    let d2 = WorldEntity { stats: Some(Stats { hp: o.defender_hp, ..d.stats->0 }), ..d };
    let s2 = s.update(p, a2).update(t, d2);
    if o.defender_hp == 0 {
        s2.remove(t)
    } else {
        s2
    }
}

/// A fight that the combat rules are asked to decide: the player at
/// `attacker` strikes the enemy at `defender`.
#[derive(Clone, Debug)]
pub struct FightRequest {
    pub attacker: usize,
    pub defender: usize,
    pub attacker_id: EntityId,
    pub defender_id: EntityId,
    pub attacker_pos: Position,
    pub defender_pos: Position,
    pub attacker_stats: Stats,
    pub defender_stats: Stats,
    pub attacker_name: String,
    pub defender_name: String,
    /// The cells of the attacker's level whose tiles block sight, as
    /// `(x, y)`, in query order.
    pub blocked: Vec<(i32, i32)>,
    /// How far the attacker sees.
    pub view_range: u32,
}

/// How far a fighter without a field of view of its own sees, for the
/// ambush rule.
pub const FIGHTER_VIEW_RANGE: u32 = 8;

/// How far the attacker sees: the range of its field of view, if it has one.
pub open spec fn attacker_view_range(viewshed_range: Option<u32>) -> u32 {
    match viewshed_range {
        Some(r) => r,
        None => FIGHTER_VIEW_RANGE,
    }
}

/// The cells of level `z` whose tiles block sight, as `(x, y)`, in query
/// order.
pub open spec fn sight_blockers(s: Seq<WorldEntity>, z: i32) -> Seq<(i32, i32)>
    decreases s.len(),
{
    if s.len() == 0 {
        seq![]
    } else {
        let prev = sight_blockers(s.drop_last(), z);
        let e = s.last();
        if e.position is Some && e.tile is Some && e.position->0.z == z && e.tile->0.blocks_sight {
            prev.push((e.position->0.x, e.position->0.y))
        } else {
            prev
        }
    }
}

/// What the combat system does with one pending action.
#[derive(Clone, Debug)]
pub enum AttackPlan {
    /// The action goes back to the queue.
    Return(PlayerAction),
    /// The action is used up and nothing happens.
    Drop,
    /// A fight is to be decided.
    Fight(FightRequest),
}

/// The name the player fights under: its actor's name, else "Player".
pub open spec fn fighter_name(e: WorldEntity) -> Seq<char> {
    match e.actor {
        Some(a) => a.name@,
        None => "Player"@,
    }
}

/// The cell an attack aims at, next to the first player, has coordinates
/// that fit `i32`.
pub open spec fn attack_step_fits(s: Seq<WorldEntity>, action: PlayerAction) -> bool {
    match action {
        PlayerAction::Attack(d) => match player_index(s) {
            Some(p) => match s[p].position {
                Some(pos) => step_fits(pos, d),
                None => true,
            },
            None => true,
        },
        _ => true,
    }
}

/// The plan for one action, given the entities: `Some(t)` is the first
/// enemy in the attacked cell, as `attack_target` finds it.
pub open spec fn plan_fits(s: Seq<WorldEntity>, action: PlayerAction, viewshed_range: Option<u32>, plan: AttackPlan) -> bool {
    match action {
        PlayerAction::Attack(d) => match player_index(s) {
            None => plan == AttackPlan::Return(action),
            Some(p) => match s[p].position {
                None => plan == AttackPlan::Return(action),
                Some(pos) => {
                    let cell = stepped(pos, d);
                    if exists|t: int| is_first_enemy_at(s, cell, t) {
                        match s[p].stats {
                            None => plan == AttackPlan::Drop,
                            Some(st) => match plan {
                                AttackPlan::Fight(req) => {
                                    &&& req.attacker == p
                                    &&& is_first_enemy_at(s, cell, req.defender as int)
                                    &&& req.attacker_id == s[p].id
                                    &&& req.defender_id == s[req.defender as int].id
                                    &&& req.attacker_pos == pos
                                    &&& req.defender_pos == cell
                                    &&& req.blocked@ == sight_blockers(s, pos.z)
                                    &&& req.view_range == attacker_view_range(viewshed_range)
                                    &&& req.attacker_stats == st
                                    &&& req.defender_stats == s[req.defender as int].stats->0
                                    &&& req.attacker_name@ == fighter_name(s[p])
                                    &&& req.defender_name@ == s[req.defender as int].actor->0.name@
                                },
                                _ => false,
                            },
                        }
                    } else {
                        plan == AttackPlan::Return(action)
                    }
                },
            },
        },
        _ => plan == AttackPlan::Return(action),
    }
}

/// Whether the plan reports an attack into a cell without an enemy.
pub open spec fn reports_no_enemy(s: Seq<WorldEntity>, action: PlayerAction) -> bool {
    match action {
        PlayerAction::Attack(d) => match player_index(s) {
            Some(p) => match s[p].position {
                Some(pos) => !exists|t: int| is_first_enemy_at(s, stepped(pos, d), t),
                None => false,
            },
            None => false,
        },
        _ => false,
    }
}

/// Resolves player attacks.
pub struct CombatSystem;

impl CombatSystem {
    pub fn name(&self) -> (s: &'static str)
        ensures
            s@ == "CombatSystem"@,
    {
        proof {
            reveal_strlit("CombatSystem");
        }
        "CombatSystem"
    }

    /// The first enemy in the cell next to the attacker in direction `d`.
    pub fn attack_target(world: &GameWorld, attacker: usize, d: Direction) -> (r: Option<usize>)
        requires
            attacker < world.entities@.len(),
            world.entities@[attacker as int].position is Some,
            step_fits(world.entities@[attacker as int].position->0, d),
        ensures
            ({
                let pos = stepped(world.entities@[attacker as int].position->0, d);
                match r {
                    Some(i) => is_first_enemy_at(world.entities@, pos, i as int),
                    None => forall|j: int| 0 <= j < world.entities@.len() ==> !is_enemy_at(#[trigger] world.entities@[j], pos),
                }
            }),
    {
        let p = match world.entities[attacker].position {
            Some(p) => p,
            None => {
                return None;
            },
        };
        let (dx, dy) = AISystem::direction_to_offset(d);
        let pos = Position::new(p.x + dx, p.y + dy, p.z);
        let n = world.entities.len();
        let mut i: usize = 0;
        while i < n
            invariant
                n == world.entities@.len(),
                0 <= i <= n,
                pos == stepped(world.entities@[attacker as int].position->0, d),
                forall|j: int| 0 <= j < i ==> !is_enemy_at(#[trigger] world.entities@[j], pos),
            decreases n - i,
        {
            let e = &world.entities[i];
            let enemy = match (&e.position, &e.actor, &e.stats) {
                (Some(q), Some(a), Some(_)) => *q == pos && a.faction == Faction::Enemy,
                _ => false,
            };
            if enemy {
                return Some(i);
            }
            i = i + 1;
        }
        None
    }

    /// Decides what to do with one pending action: anything but an attack,
    /// and an attack without a player or a player's position, goes back to
    /// the queue; an attack into a cell without an enemy is reported and
    /// goes back too; an attack by a player without statistics is used up;
    /// otherwise the fight with the first enemy in the attacked cell is
    /// handed to the combat rules, with the range of the attacker's field
    /// of view (`viewshed_range`, if it has one).
    pub fn plan_attack(ecs_world: &mut EcsWorld, action: PlayerAction, viewshed_range: Option<u32>) -> (plan: AttackPlan)
        requires
            old(ecs_world).events@.len() < usize::MAX,
            attack_step_fits(old(ecs_world).world.entities@, action),
        ensures
            plan_fits(old(ecs_world).world.entities@, action, viewshed_range, plan),
            plan matches AttackPlan::Fight(req) ==> req.attacker != req.defender,
            final(ecs_world).world == old(ecs_world).world,
            final(ecs_world).resources == old(ecs_world).resources,
            reports_no_enemy(old(ecs_world).world.entities@, action) ==> events_view(final(ecs_world).events@)
                == events_view(old(ecs_world).events@).push(
                EventView::LogMessage { message: "该位置没有敌人！"@, level: LogLevel::Info },
            ),
            !reports_no_enemy(old(ecs_world).world.entities@, action) ==> final(ecs_world).events@
                == old(ecs_world).events@,
    {
        let ghost s = ecs_world.world.entities@;
        let d = match action {
            PlayerAction::Attack(d) => d,
            _ => {
                return AttackPlan::Return(action);
            },
        };
        let p = match find_player_entity(&ecs_world.world) {
            Some(p) => p,
            None => {
                return AttackPlan::Return(action);
            },
        };
        proof {
            lemma_player_index(s);
        }
        let pos = match ecs_world.world.entities[p].position {
            Some(pos) => pos,
            None => {
                return AttackPlan::Return(action);
            },
        };
        let ghost cell = stepped(pos, d);
        match Self::attack_target(&ecs_world.world, p, d) {
            None => {
                let e = Self::no_enemy_event();
                ecs_world.events.push(e);
                proof {
                    assert(events_view(ecs_world.events@) =~= events_view(old(ecs_world).events@).push(
                        crate::events::event_view(e),
                    ));
                }
                AttackPlan::Return(action)
            },
            Some(t) => {
                match ecs_world.world.entities[p].stats {
                    None => AttackPlan::Drop,
                    Some(st) => {
                        let attacker_name = match &ecs_world.world.entities[p].actor {
                            Some(a) => a.name.clone(),
                            None => String::from_str("Player"),
                        };
                        let defender_name = match &ecs_world.world.entities[t].actor {
                            Some(a) => a.name.clone(),
                            None => String::new(),
                        };
                        let defender_stats = match ecs_world.world.entities[t].stats {
                            Some(ds) => ds,
                            None => st,
                        };
                        proof {
                            if s[p as int].actor is None {
                                reveal_strlit("Player");
                            }
                        }
                        let blocked = Self::sight_blocking_cells(&ecs_world.world, pos.z);
                        let (dx, dy) = AISystem::direction_to_offset(d);
                        let defender_pos = Position::new(pos.x + dx, pos.y + dy, pos.z);
                        AttackPlan::Fight(
                            FightRequest {
                                attacker: p,
                                defender: t,
                                attacker_id: ecs_world.world.entities[p].id,
                                defender_id: ecs_world.world.entities[t].id,
                                attacker_pos: pos,
                                defender_pos,
                                blocked,
                                view_range: match viewshed_range {
                                    Some(r) => r,
                                    None => FIGHTER_VIEW_RANGE,
                                },
                                attacker_stats: st,
                                defender_stats,
                                attacker_name,
                                defender_name,
                            },
                        )
                    },
                }
            },
        }
    }

    /// The cells of level `z` whose tiles block sight.
    pub fn sight_blocking_cells(world: &GameWorld, z: i32) -> (v: Vec<(i32, i32)>)
        ensures
            v@ == sight_blockers(world.entities@, z),
    {
        let n = world.entities.len();
        let mut v: Vec<(i32, i32)> = Vec::new();
        let mut i: usize = 0;
        while i < n
            invariant
                n == world.entities@.len(),
                0 <= i <= n,
                v@ == sight_blockers(world.entities@.take(i as int), z),
            decreases n - i,
        {
            assert(world.entities@.take(i as int + 1).drop_last() =~= world.entities@.take(i as int));
            match (&world.entities[i].position, &world.entities[i].tile) {
                (Some(q), Some(t)) => {
                    if q.z == z && t.blocks_sight {
                        v.push((q.x, q.y));
                    }
                },
                _ => {},
            }
            i = i + 1;
        }
        assert(world.entities@.take(n as int) =~= world.entities@);
        v
    }

    /// The event of one fight record.
    fn record_to_event(r: &CombatRecord, attacker_name: &String, defender_name: &String) -> (e: GameEvent)
        ensures
            crate::events::event_view(e) == record_event(*r, attacker_name@, defender_name@),
    {
        match r {
            CombatRecord::CombatStarted { attacker, defender } => GameEvent::CombatStarted {
                attacker: *attacker,
                defender: *defender,
            },
            CombatRecord::DamageDealt { attacker, victim, damage, is_critical } => GameEvent::DamageDealt {
                attacker: *attacker,
                victim: *victim,
                damage: *damage,
                is_critical: *is_critical,
            },
            CombatRecord::EntityDied { entity, entity_name } => GameEvent::EntityDied {
                entity: *entity,
                entity_name: entity_name.clone(),
            },
            CombatRecord::Ambush => {
                let mut m = String::from_str("伏击！");
                m.append(attacker_name.as_str());
                m.append(" -> ");
                m.append(defender_name.as_str());
                GameEvent::LogMessage { message: m, level: LogLevel::Info }
            },
        }
    }

    /// Applies the outcome of a fight between the attacker at `attacker`
    /// and the defender at `defender`: publishes what happened and the log
    /// lines, sets both hit points, charges the attacker a full action,
    /// removes a defender left without hit points and announces a game over
    /// when the attacker fell.
    pub fn apply_outcome(
        ecs_world: &mut EcsWorld,
        attacker: usize,
        defender: usize,
        outcome: &CombatOutcome,
        attacker_name: &String,
        defender_name: &String,
    )
        requires
            attacker < old(ecs_world).world.entities@.len(),
            defender < old(ecs_world).world.entities@.len(),
            attacker != defender,
            old(ecs_world).world.entities@[attacker as int].stats is Some,
            old(ecs_world).world.entities@[defender as int].stats is Some,
            old(ecs_world).events@.len() + outcome.records@.len() + outcome.logs@.len() + 1 <= usize::MAX,
        ensures
            final(ecs_world).world.entities@ == fight_entities(
                old(ecs_world).world.entities@,
                attacker as int,
                defender as int,
                *outcome,
            ),
            events_view(final(ecs_world).events@) == events_view(old(ecs_world).events@) + fight_events(
                *outcome,
                attacker_name@,
                defender_name@,
            ),
            final(ecs_world).world.next_id == old(ecs_world).world.next_id,
            final(ecs_world).resources == old(ecs_world).resources,
    {
        let ghost ev0 = events_view(ecs_world.events@);
        let ghost recs = outcome.records@.map_values(|r: CombatRecord| record_event(r, attacker_name@, defender_name@));
        let n = outcome.records.len();
        let mut i: usize = 0;
        while i < n
            invariant
                n == outcome.records@.len(),
                recs == outcome.records@.map_values(|r: CombatRecord| record_event(r, attacker_name@, defender_name@)),
                0 <= i <= n,
                ev0 == events_view(old(ecs_world).events@),
                ev0.len() + outcome.records@.len() + outcome.logs@.len() + 1 <= usize::MAX,
                events_view(ecs_world.events@) == ev0 + recs.take(i as int),
                ecs_world.events@.len() == ev0.len() + i,
                ecs_world.world == old(ecs_world).world,
                ecs_world.resources == old(ecs_world).resources,
            decreases n - i,
        {
            let e = Self::record_to_event(&outcome.records[i], attacker_name, defender_name);
            let ghost before = ecs_world.events@;
            ecs_world.events.push(e);
            assert(recs[i as int] == record_event(outcome.records@[i as int], attacker_name@, defender_name@));
            assert(events_view(ecs_world.events@) =~= events_view(before).push(crate::events::event_view(e)));
            assert(recs.take(i as int + 1) =~= recs.take(i as int).push(recs[i as int]));
            assert(events_view(ecs_world.events@) =~= ev0 + recs.take(i as int + 1));
            i = i + 1;
        }
        assert(recs.take(n as int) =~= recs);
        let ghost ev1 = events_view(ecs_world.events@);
        let ghost logs = outcome.logs@.map_values(|m: String| EventView::LogMessage { message: m@, level: LogLevel::Info });
        let m = outcome.logs.len();
        let mut j: usize = 0;
        while j < m
            invariant
                m == outcome.logs@.len(),
                logs == outcome.logs@.map_values(|m: String| EventView::LogMessage { message: m@, level: LogLevel::Info }),
                recs.len() == n,
                0 <= j <= m,
                ev1 == ev0 + recs,
                ev0.len() + outcome.records@.len() + outcome.logs@.len() + 1 <= usize::MAX,
                events_view(ecs_world.events@) == ev1 + logs.take(j as int),
                ecs_world.events@.len() == ev0.len() + n + j,
                ecs_world.world == old(ecs_world).world,
                ecs_world.resources == old(ecs_world).resources,
            decreases m - j,
        {
            let ghost before = ecs_world.events@;
            let line = outcome.logs[j].clone();
            ecs_world.events.push(GameEvent::LogMessage { message: line, level: LogLevel::Info });
            assert(logs[j as int] == (EventView::LogMessage { message: outcome.logs@[j as int]@, level: LogLevel::Info }));
            assert(events_view(ecs_world.events@) =~= events_view(before).push(logs[j as int]));
            assert(logs.take(j as int + 1) =~= logs.take(j as int).push(logs[j as int]));
            assert(events_view(ecs_world.events@) =~= ev1 + logs.take(j as int + 1));
            j = j + 1;
        }
        assert(logs.take(m as int) =~= logs);
        let ghost ev2 = events_view(ecs_world.events@);
        assert(ev2 == ev0 + recs + logs);
        if outcome.attacker_hp == 0 {
            ecs_world.events.push(GameEvent::GameOver { reason: String::from_str("你被击败了！") });
            assert(events_view(ecs_world.events@) =~= ev2.push(EventView::GameOver { reason: "你被击败了！"@ }));
        } else {
            assert(events_view(ecs_world.events@) =~= ev2);
        }
        assert(events_view(ecs_world.events@) =~= ev0 + fight_events(*outcome, attacker_name@, defender_name@));
        let ghost s = ecs_world.world.entities@;
        match ecs_world.world.entities[attacker].stats {
            Some(st) => {
                ecs_world.world.entities[attacker].stats = Some(Stats { hp: outcome.attacker_hp, ..st });
            },
            None => {},
        }
        match ecs_world.world.entities[attacker].energy {
            Some(en) => {
                ecs_world.world.entities[attacker].energy = Some(
                    crate::ecs::Energy { current: en.current.saturating_sub(FULL_ACTION), ..en },
                );
            },
            None => {},
        }
        match ecs_world.world.entities[defender].stats {
            Some(st) => {
                ecs_world.world.entities[defender].stats = Some(Stats { hp: outcome.defender_hp, ..st });
            },
            None => {},
        }
        if outcome.defender_hp == 0 {
            ecs_world.world.entities.remove(defender);
        }
        assert(ecs_world.world.entities@ =~= fight_entities(s, attacker as int, defender as int, *outcome));
    }

    /// The log line when no enemy stands in the attacked cell.
    pub fn no_enemy_event() -> (e: GameEvent)
        ensures
            crate::events::event_view(e) == (EventView::LogMessage { message: "该位置没有敌人！"@, level: LogLevel::Info }),
    {
        GameEvent::LogMessage { message: String::from_str("该位置没有敌人！"), level: LogLevel::Info }
    }
}

} // verus!

//! Hunger: every twenty clock turns a creature loses one point of satiety;
//! with none left it loses one hit point every turn.

use vstd::prelude::*;
use crate::ecs::{log_view, GameOverReason, GameStatus, Resources};
use crate::events::{events_view, EventView, GameEvent};
use crate::systems::{EcsWorld, SystemResult};
use crate::turn_system::sat_sub;
use crate::world::{GameWorld, Hunger, Stats, WorldEntity};

verus! {

/// Clock turns between two losses of satiety.
pub const HUNGER_INTERVAL: u32 = 20;

/// Clock turns between two hunger warnings.
pub const HUNGER_WARNING_INTERVAL: u32 = 40;

/// The entity has satiety and statistics, and a loss of satiety is due.
pub open spec fn hunger_due(e: WorldEntity, turn: u32) -> bool {
    &&& e.hunger is Some
    &&& e.stats is Some
    &&& turn > 0
    &&& turn - e.hunger->0.last_hunger_turn >= HUNGER_INTERVAL
}

/// Satiety after a due loss.
pub open spec fn hunger_after(h: Hunger, turn: u32) -> Hunger {
    Hunger { satiety: sat_sub(h.satiety, 1), last_hunger_turn: turn }
}

/// The hunger system acts on the entity this turn: it has satiety and
/// statistics, and either a loss of satiety is due or it is starving.
pub open spec fn hunger_acts(e: WorldEntity, turn: u32) -> bool {
    &&& e.hunger is Some
    &&& e.stats is Some
    &&& (hunger_due(e, turn) || e.hunger->0.satiety == 0)
}

/// Satiety after this turn: one point less when a loss is due.
pub open spec fn hunger_now(e: WorldEntity, turn: u32) -> Hunger {
    if hunger_due(e, turn) {
        hunger_after(e.hunger->0, turn)
    } else {
        e.hunger->0
    }
}

/// Statistics after this turn: a creature whose satiety is now gone loses a
/// hit point.
pub open spec fn stats_now(e: WorldEntity, turn: u32) -> Stats {
    let st = e.stats->0;
    if hunger_now(e, turn).satiety == 0 {
        Stats { hp: sat_sub(st.hp, 1), ..st }
    } else {
        st
    }
}

/// The entity after this turn's hunger.
pub open spec fn fed(e: WorldEntity, turn: u32) -> WorldEntity {
    WorldEntity { hunger: Some(hunger_now(e, turn)), stats: Some(stats_now(e, turn)), ..e }
}

/// Starvation kills the player this turn.
pub open spec fn starved_to_death(e: WorldEntity, turn: u32) -> bool {
    &&& hunger_acts(e, turn)
    &&& hunger_now(e, turn).satiety == 0
    &&& stats_now(e, turn).hp == 0
    &&& e.is_player
}

/// Reason published when the player starves to death.
pub open spec fn starved_reason() -> Seq<char> {
    "死于饥饿"@
}

/// The events published for an entity the system acts on, before a
/// possible game over: the change of satiety when a loss is due; starvation
/// and its damage when satiety is gone; else, on a loss at a warning turn, a
/// hunger warning for a hungry creature.
pub open spec fn hunger_events(e: WorldEntity, turn: u32) -> Seq<EventView> {
    let h = e.hunger->0;
    let h2 = hunger_now(e, turn);
    let changed = if hunger_due(e, turn) {
        seq![EventView::HungerChanged { entity: e.id, old_satiety: h.satiety, new_satiety: h2.satiety }]
    } else {
        seq![]
    };
    if h2.satiety == 0 {
        changed + seq![
            EventView::PlayerStarving { entity: e.id },
            EventView::StarvationDamage { entity: e.id, damage: 1 },
        ]
    } else if hunger_due(e, turn) && h2.satiety <= crate::world::HUNGRY_SATIETY && turn
        % HUNGER_WARNING_INTERVAL == 0 {
        changed + seq![EventView::PlayerHungry { entity: e.id, satiety: h2.satiety }]
    } else {
        changed
    }
}

/// Messages logged for an entity the system acts on, before a possible
/// death.
pub open spec fn hunger_messages(e: WorldEntity, turn: u32) -> Seq<Seq<char>> {
    let h2 = hunger_now(e, turn);
    if h2.satiety == 0 {
        seq!["你正在饿死！"@]
    } else if hunger_due(e, turn) && h2.satiety <= crate::world::HUNGRY_SATIETY && turn
        % HUNGER_WARNING_INTERVAL == 0 {
        seq!["你感到饥饿..."@]
    } else {
        seq![]
    }
}

/// The first `k` entities processed: the entities, and whether the player
/// starved to death (processing stops right after that entity).
pub open spec fn hunger_entities(s: Seq<WorldEntity>, turn: u32, k: nat) -> (Seq<WorldEntity>, bool)
    decreases k,
{
    if k == 0 {
        (s, false)
    } else {
        let (t, stop) = hunger_entities(s, turn, (k - 1) as nat);
        let e = s[k - 1];
        if stop || !hunger_acts(e, turn) {
            (t, stop)
        } else {
            (t.update(k - 1, fed(e, turn)), starved_to_death(e, turn))
        }
    }
}

/// The events of the first `k` entities.
pub open spec fn hunger_event_log(s: Seq<WorldEntity>, turn: u32, k: nat) -> Seq<EventView>
    decreases k,
{
    if k == 0 {
        seq![]
    } else {
        let ev = hunger_event_log(s, turn, (k - 1) as nat);
        let e = s[k - 1];
        if hunger_entities(s, turn, (k - 1) as nat).1 || !hunger_acts(e, turn) {
            ev
        } else if starved_to_death(e, turn) {
            ev + hunger_events(e, turn) + seq![EventView::GameOver { reason: starved_reason() }]
        } else {
            ev + hunger_events(e, turn)
        }
    }
}

/// The messages of the first `k` entities.
pub open spec fn hunger_message_log(s: Seq<WorldEntity>, turn: u32, k: nat) -> Seq<Seq<char>>
    decreases k,
{
    if k == 0 {
        seq![]
    } else {
        let ms = hunger_message_log(s, turn, (k - 1) as nat);
        let e = s[k - 1];
        if hunger_entities(s, turn, (k - 1) as nat).1 || !hunger_acts(e, turn) {
            ms
        } else if starved_to_death(e, turn) {
            ms + hunger_messages(e, turn) + seq!["你死于饥饿..."@]
        } else {
            ms + hunger_messages(e, turn)
        }
    }
}

/// No satiety counter lies ahead of the clock (the elapsed turns are then
/// never negative).
pub open spec fn hunger_clock_ok(s: Seq<WorldEntity>, turn: u32) -> bool {
    forall|i: int|
        0 <= i < s.len() && (#[trigger] s[i]).hunger is Some ==> s[i].hunger->0.last_hunger_turn
            <= turn
}

/// Processing keeps the number of entities, touches only those processed,
/// and adds at most four events and two messages per entity.
pub proof fn lemma_hunger_bounds(s: Seq<WorldEntity>, turn: u32, k: nat)
    requires
        k <= s.len(),
    ensures
        hunger_entities(s, turn, k).0.len() == s.len(),
        forall|j: int| k <= j < s.len() ==> hunger_entities(s, turn, k).0[j] == s[j],
        hunger_event_log(s, turn, k).len() <= 4 * k,
        hunger_message_log(s, turn, k).len() <= 2 * k,
    decreases k,
{
    if k > 0 {
        lemma_hunger_bounds(s, turn, (k - 1) as nat);
    }
}

/// Hunger only takes: after the system ran, no creature has more satiety or
/// more hit points than before, and one loses hit points only when its
/// satiety is gone.
pub proof fn lemma_hunger_only_takes(s: Seq<WorldEntity>, turn: u32, k: nat)
    requires
        k <= s.len(),
    ensures
        ({
            let t = hunger_entities(s, turn, k).0;
            &&& t.len() == s.len()
            &&& forall|i: int|
                0 <= i < s.len() && (#[trigger] s[i]).hunger is Some && s[i].stats is Some ==> {
                    &&& t[i].hunger is Some && t[i].stats is Some
                    &&& t[i].hunger->0.satiety <= s[i].hunger->0.satiety
                    &&& t[i].stats->0.hp <= s[i].stats->0.hp
                    &&& t[i].stats->0.hp < s[i].stats->0.hp ==> t[i].hunger->0.satiety == 0
                }
        }),
    decreases k,
{
    lemma_hunger_bounds(s, turn, k);
    if k > 0 {
        lemma_hunger_only_takes(s, turn, (k - 1) as nat);
        lemma_hunger_bounds(s, turn, (k - 1) as nat);
    }
}

/// The satiety system.
pub struct HungerSystem;

impl HungerSystem {
    pub fn name(&self) -> (s: &'static str)
        ensures
            s@ == "HungerSystem"@,
    {
        proof {
            reveal_strlit("HungerSystem");
        }
        "HungerSystem"
    }

    /// This turn's hunger for one entity, if the system acts on it: the new
    /// satiety and statistics, and whether a loss of satiety was due.
    fn due_update(e: &WorldEntity, turn: u32) -> (r: Option<(Hunger, Stats, bool)>)
        requires
            e.hunger is Some ==> e.hunger->0.last_hunger_turn <= turn,
        ensures
            r is Some <==> hunger_acts(*e, turn),
            r matches Some((h, st, due)) ==> h == hunger_now(*e, turn) && st == stats_now(*e, turn) && due
                == hunger_due(*e, turn),
    {
        match (e.hunger, e.stats) {
            (Some(h), Some(st)) => {
                let due = turn > 0 && turn - h.last_hunger_turn >= HUNGER_INTERVAL;
                if !due && h.satiety != 0 {
                    return None;
                }
                let h2 = if due {
                    Hunger { satiety: h.satiety.saturating_sub(1), last_hunger_turn: turn }
                } else {
                    h
                };
                let st2 = if h2.satiety == 0 {
                    Stats { hp: st.hp.saturating_sub(1), ..st }
                } else {
                    st
                };
                Some((h2, st2, due))
            },
            _ => None,
        }
    }

    /// Applies hunger to every entity in order: a loss of satiety every
    /// twenty turns, and a hit point lost every turn while satiety is gone;
    /// logs starvation and hunger warnings, and stops with a game over right
    /// after the player starves to death.
    pub fn run(&mut self, world: &mut GameWorld, resources: &mut Resources) -> (r: SystemResult)
        requires
            hunger_clock_ok(old(world).entities@, old(resources).clock.turn_count),
            old(resources).game_state.message_log@.len() + 2 * old(world).entities@.len() <= usize::MAX,
        ensures
            ({
                let s = old(world).entities@;
                let turn = old(resources).clock.turn_count;
                let (t, stop) = hunger_entities(s, turn, s.len());
                &&& final(world).entities@ == t
                &&& log_view(final(resources).game_state.message_log@) == log_view(
                    old(resources).game_state.message_log@,
                ) + hunger_message_log(s, turn, s.len())
                &&& final(resources).game_state.game_state == if stop {
                    GameStatus::GameOver { reason: GameOverReason::Died("死亡") }
                } else {
                    old(resources).game_state.game_state
                }
                &&& (r is Stop <==> stop)
                &&& (r is Continue <==> !stop)
            }),
            final(world).next_id == old(world).next_id,
            final(resources).input_buffer == old(resources).input_buffer,
            final(resources).clock == old(resources).clock,
            final(resources).config == old(resources).config,
            final(resources).game_state.depth == old(resources).game_state.depth,
            final(resources).game_state.selected_class == old(resources).game_state.selected_class,
            final(resources).game_state.frame_count == old(resources).game_state.frame_count,
    {
        let turn = resources.clock.turn_count;
        let ghost s = world.entities@;
        let ghost log0 = log_view(resources.game_state.message_log@);
        let n = world.entities.len();
        let mut i: usize = 0;
        while i < n
            invariant
                n == s.len(),
                s == old(world).entities@,
                turn == old(resources).clock.turn_count,
                0 <= i <= n,
                hunger_clock_ok(s, turn),
                log0 == log_view(old(resources).game_state.message_log@),
                log0.len() + 2 * n <= usize::MAX,
                !hunger_entities(s, turn, i as nat).1,
                world.entities@ == hunger_entities(s, turn, i as nat).0,
                log_view(resources.game_state.message_log@) == log0 + hunger_message_log(s, turn, i as nat),
                resources.game_state.game_state == old(resources).game_state.game_state,
                world.next_id == old(world).next_id,
                resources.input_buffer == old(resources).input_buffer,
                resources.clock == old(resources).clock,
                resources.config == old(resources).config,
                resources.game_state.depth == old(resources).game_state.depth,
                resources.game_state.selected_class == old(resources).game_state.selected_class,
                resources.game_state.frame_count == old(resources).game_state.frame_count,
            decreases n - i,
        {
            proof {
                lemma_hunger_bounds(s, turn, i as nat);
                lemma_hunger_bounds(s, turn, (i + 1) as nat);
            }
            let ghost log_before = log_view(resources.game_state.message_log@);
            assert(world.entities@[i as int] == s[i as int]);
            assert(s[i as int].hunger is Some ==> s[i as int].hunger->0.last_hunger_turn <= turn);
            let upd = Self::due_update(&world.entities[i], turn);
            match upd {
                Some((h, st, due)) => {
                    let is_player = world.entities[i].is_player;
                    world.entities[i].hunger = Some(h);
                    world.entities[i].stats = Some(st);
                    if h.satiety == 0 {
                        resources.game_state.message_log.push(String::from_str("你正在饿死！"));
                        if st.hp == 0 && is_player {
                            resources.game_state.game_state = GameStatus::GameOver {
                                reason: GameOverReason::Died("死亡"),
                            };
                            resources.game_state.message_log.push(String::from_str("你死于饥饿..."));
                            proof {
                                assert(log_view(resources.game_state.message_log@) =~= log_before
                                    + hunger_messages(s[i as int], turn) + seq!["你死于饥饿..."@]);
                                assert(world.entities@ =~= hunger_entities(s, turn, (i + 1) as nat).0);
                                lemma_hunger_done(s, turn, (i + 1) as nat);
                            }
                            return SystemResult::Stop;
                        }
                        proof {
                            assert(log_view(resources.game_state.message_log@) =~= log_before
                                + hunger_messages(s[i as int], turn));
                        }
                    } else if due && h.satiety <= crate::world::HUNGRY_SATIETY && turn % HUNGER_WARNING_INTERVAL == 0 {
                        resources.game_state.message_log.push(String::from_str("你感到饥饿..."));
                        proof {
                            assert(log_view(resources.game_state.message_log@) =~= log_before
                                + hunger_messages(s[i as int], turn));
                        }
                    } else {
                        assert(hunger_messages(s[i as int], turn) =~= seq![]);
                        assert(log_view(resources.game_state.message_log@) =~= log_before
                            + hunger_messages(s[i as int], turn));
                    }
                    assert(world.entities@ =~= hunger_entities(s, turn, (i + 1) as nat).0);
                },
                None => {},
            }
            i = i + 1;
        }
        SystemResult::Continue
    }

    /// Same rules as [`HungerSystem::run`], publishing events in place of
    /// messages: the change of satiety when a loss is due, starvation and its
    /// damage every turn while satiety is gone, hunger warnings, and a game
    /// over when the player starves to death.
    pub fn run_with_events(ecs_world: &mut EcsWorld) -> (r: SystemResult)
        requires
            hunger_clock_ok(old(ecs_world).world.entities@, old(ecs_world).resources.clock.turn_count),
            old(ecs_world).events@.len() + 4 * old(ecs_world).world.entities@.len() <= usize::MAX,
        ensures
            ({
                let s = old(ecs_world).world.entities@;
                let turn = old(ecs_world).resources.clock.turn_count;
                let (t, stop) = hunger_entities(s, turn, s.len());
                &&& final(ecs_world).world.entities@ == t
                &&& events_view(final(ecs_world).events@) == events_view(old(ecs_world).events@) + hunger_event_log(s, turn, s.len())
                &&& (r is Stop <==> stop)
                &&& (r is Continue <==> !stop)
            }),
            final(ecs_world).world.next_id == old(ecs_world).world.next_id,
            final(ecs_world).resources == old(ecs_world).resources,
    {
        let turn = ecs_world.resources.clock.turn_count;
        let ghost s = ecs_world.world.entities@;
        let ghost ev0 = events_view(ecs_world.events@);
        let n = ecs_world.world.entities.len();
        let mut i: usize = 0;
        while i < n
            invariant
                n == s.len(),
                s == old(ecs_world).world.entities@,
                turn == old(ecs_world).resources.clock.turn_count,
                0 <= i <= n,
                hunger_clock_ok(s, turn),
                ev0 == events_view(old(ecs_world).events@),
                ecs_world.events@.len() == ev0.len() + hunger_event_log(s, turn, i as nat).len(),
                ev0.len() + 4 * n <= usize::MAX,
                !hunger_entities(s, turn, i as nat).1,
                ecs_world.world.entities@ == hunger_entities(s, turn, i as nat).0,
                events_view(ecs_world.events@) == ev0 + hunger_event_log(s, turn, i as nat),
                ecs_world.world.next_id == old(ecs_world).world.next_id,
                ecs_world.resources == old(ecs_world).resources,
            decreases n - i,
        {
            proof {
                lemma_hunger_bounds(s, turn, i as nat);
                lemma_hunger_bounds(s, turn, (i + 1) as nat);
            }
            let ghost ev_before = events_view(ecs_world.events@);
            assert(ecs_world.world.entities@[i as int] == s[i as int]);
            let upd = Self::due_update(&ecs_world.world.entities[i], turn);
            match upd {
                Some((h, st, due)) => {
                    let id = ecs_world.world.entities[i].id;
                    let is_player = ecs_world.world.entities[i].is_player;
                    let old_satiety = ecs_world.world.entities[i].hunger.unwrap().satiety;
                    if due {
                        ecs_world.events.push(GameEvent::HungerChanged { entity: id, old_satiety, new_satiety: h.satiety });
                    }
                    ecs_world.world.entities[i].hunger = Some(h);
                    ecs_world.world.entities[i].stats = Some(st);
                    if h.satiety == 0 {
                        ecs_world.events.push(GameEvent::PlayerStarving { entity: id });
                        ecs_world.events.push(GameEvent::StarvationDamage { entity: id, damage: 1 });
                        if st.hp == 0 && is_player {
                            ecs_world.events.push(GameEvent::GameOver { reason: String::from_str("死于饥饿") });
                            proof {
                                assert(events_view(ecs_world.events@) =~= ev_before + hunger_events(s[i as int], turn)
                                    + seq![EventView::GameOver { reason: starved_reason() }]);
                                assert(ecs_world.world.entities@ =~= hunger_entities(s, turn, (i + 1) as nat).0);
                                lemma_hunger_done_events(s, turn, (i + 1) as nat);
                            }
                            return SystemResult::Stop;
                        }
                    } else if due && h.satiety <= crate::world::HUNGRY_SATIETY && turn % HUNGER_WARNING_INTERVAL == 0 {
                        ecs_world.events.push(GameEvent::PlayerHungry { entity: id, satiety: h.satiety });
                    }
                    assert(events_view(ecs_world.events@) =~= ev_before + hunger_events(s[i as int], turn));
                    assert(ecs_world.world.entities@ =~= hunger_entities(s, turn, (i + 1) as nat).0);
                },
                None => {},
            }
            i = i + 1;
        }
        SystemResult::Continue
    }
}

/// Once the player starved, processing the rest changes nothing.
pub proof fn lemma_hunger_done(s: Seq<WorldEntity>, turn: u32, k: nat)
    requires
        k <= s.len(),
        hunger_entities(s, turn, k).1,
    ensures
        hunger_entities(s, turn, s.len()) == hunger_entities(s, turn, k),
        hunger_message_log(s, turn, s.len()) == hunger_message_log(s, turn, k),
    decreases s.len() - k,
{
    if k < s.len() {
        lemma_hunger_done_step(s, turn, k);
        lemma_hunger_done(s, turn, k + 1);
    }
}

/// Once the player starved, processing the rest publishes nothing.
pub proof fn lemma_hunger_done_events(s: Seq<WorldEntity>, turn: u32, k: nat)
    requires
        k <= s.len(),
        hunger_entities(s, turn, k).1,
    ensures
        hunger_entities(s, turn, s.len()) == hunger_entities(s, turn, k),
        hunger_event_log(s, turn, s.len()) == hunger_event_log(s, turn, k),
    decreases s.len() - k,
{
    if k < s.len() {
        lemma_hunger_done_step(s, turn, k);
        lemma_hunger_done_events(s, turn, k + 1);
    }
}

proof fn lemma_hunger_done_step(s: Seq<WorldEntity>, turn: u32, k: nat)
    requires
        k < s.len(),
        hunger_entities(s, turn, k).1,
    ensures
        hunger_entities(s, turn, k + 1) == hunger_entities(s, turn, k),
        hunger_event_log(s, turn, k + 1) == hunger_event_log(s, turn, k),
        hunger_message_log(s, turn, k + 1) == hunger_message_log(s, turn, k),
{
}

} // verus!

//! Status effects: at the end of each clock turn they deal their damage and
//! run down; expired ones are removed, and a creature they kill is removed
//! from the world.

use vstd::prelude::*;
use crate::ecs::{log_view, Resources};
use crate::events::{events_view, EventView, GameEvent};
use crate::systems::{EcsWorld, SystemResult};
use crate::turn_system::sat_sub;
use crate::world::{
    entity_view, world_view, EffectType, EffectsView, EntityView, GameWorld, Stats, StatusEffect,
    StatusEffects, WorldEntity,
};

verus! {

/// When in the turn effects are processed.
#[derive(Clone, Copy, Debug, PartialEq, Eq, Structural)]
pub enum EffectPhase {
    StartOfTurn,
    EndOfTurn,
}

/// The name of an effect kind.
pub open spec fn effect_name(t: EffectType) -> Seq<char> {
    match t {
        EffectType::Burning => "Burning"@,
        EffectType::Poison => "Poison"@,
        EffectType::Bleeding => "Bleeding"@,
        EffectType::Paralysis => "Paralysis"@,
        EffectType::Frost => "Frost"@,
        EffectType::Rooted => "Rooted"@,
    }
}

/// An effect one turn further: one turn less (never below zero).
pub open spec fn run_down(x: StatusEffect) -> StatusEffect {
    StatusEffect { turns: sat_sub(x.turns, 1), ..x }
}

/// The effects still running after one turn, run down.
pub open spec fn still_running(fx: Seq<StatusEffect>) -> Seq<StatusEffect>
    decreases fx.len(),
{
    if fx.len() == 0 {
        seq![]
    } else {
        let rest = still_running(fx.drop_last());
        let x = run_down(fx.last());
        if x.turns > 0 {
            rest.push(x)
        } else {
            rest
        }
    }
}

/// The damage the effects deal in one turn.
pub open spec fn total_damage(fx: Seq<StatusEffect>) -> int
    decreases fx.len(),
{
    if fx.len() == 0 {
        0
    } else {
        total_damage(fx.drop_last()) + fx.last().damage
    }
}

/// No effects deal no damage.
pub proof fn lemma_total_damage_empty()
    ensures
        total_damage(Seq::<StatusEffect>::empty()) == 0,
{
}

/// A single effect deals its own damage.
pub proof fn lemma_total_damage_single(x: StatusEffect)
    ensures
        total_damage(seq![x]) == x.damage,
{
    assert(seq![x].drop_last() =~= Seq::<StatusEffect>::empty());
    assert(total_damage(seq![x].drop_last()) == 0);
}

/// The damage of two lists of effects together is the sum of their damages:
/// every effect deals its damage, whatever the others deal.
pub proof fn lemma_total_damage_concat(a: Seq<StatusEffect>, b: Seq<StatusEffect>)
    ensures
        total_damage(a + b) == total_damage(a) + total_damage(b),
    decreases b.len(),
{
    if b.len() == 0 {
        assert(a + b =~= a);
    } else {
        assert((a + b).drop_last() =~= a + b.drop_last());
        assert((a + b).last() == b.last());
        lemma_total_damage_concat(a, b.drop_last());
    }
}

/// At the end of a turn, a creature whose effects are due loses the damage
/// of all its effects from its hit points: it survives with the difference
/// when it had more hit points than that, and dies when the damage reaches
/// its hit points. Without damage nothing is taken.
pub proof fn lemma_effect_damage_taken(e: EntityView, turn: u32)
    requires
        effects_due(e, turn),
        total_damage(e.effects->0.effects) <= u32::MAX,
    ensures
        ({
            let hp = e.stats->0.hp;
            let total = total_damage(e.effects->0.effects);
            let r = effect_outcome(e, turn, true).0;
            &&& total < hp ==> r is Some && r->0.stats->0.hp == hp - total
            &&& 0 < total && hp <= total ==> r is None
            &&& total == 0 ==> r is Some && r->0.stats->0.hp == hp
        }),
{
    lemma_total_nonneg(e.effects->0.effects);
}

/// Events of the effects of one creature in one turn: each damaging effect
/// announces its damage, each expiring one its removal.
pub open spec fn effect_events(id: crate::ecs::EntityId, fx: Seq<StatusEffect>) -> Seq<EventView>
    decreases fx.len(),
{
    if fx.len() == 0 {
        seq![]
    } else {
        let x = fx.last();
        let name = effect_name(x.effect_type);
        let ticked = if x.damage > 0 {
            seq![EventView::StatusEffectTicked { entity: id, status: name, damage: x.damage, remaining_turns: x.turns }]
        } else {
            seq![]
        };
        let removed = if run_down(x).turns == 0 {
            seq![EventView::StatusRemoved { entity: id, status: name, reason: "expired"@ }]
        } else {
            seq![]
        };
        effect_events(id, fx.drop_last()) + ticked + removed
    }
}

/// Messages of the effects of one creature that expire this turn.
pub open spec fn expiry_messages(name: Seq<char>, fx: Seq<StatusEffect>) -> Seq<Seq<char>>
    decreases fx.len(),
{
    if fx.len() == 0 {
        seq![]
    } else {
        let x = fx.last();
        let rest = expiry_messages(name, fx.drop_last());
        if run_down(x).turns == 0 {
            rest.push(name + "的"@ + effect_name(x.effect_type) + "效果已消失"@)
        } else {
            rest
        }
    }
}

/// The name a creature is known by.
pub open spec fn known_name(e: EntityView) -> Seq<char> {
    match e.actor {
        Some(a) => a.name@,
        None => "Unknown"@,
    }
}

/// The entity takes part: it has effects and statistics and was not
/// processed this turn yet.
pub open spec fn effects_due(e: EntityView, turn: u32) -> bool {
    &&& e.effects is Some
    &&& e.stats is Some
    &&& e.effects->0.last_tick_turn < turn
}

/// What the effects do to one creature: the creature afterwards (none if
/// they killed it), and its events.
pub open spec fn effect_outcome(e: EntityView, turn: u32, end: bool) -> (Option<EntityView>, Seq<EventView>) {
    if !effects_due(e, turn) {
        (Some(e), seq![])
    } else {
        let fx = e.effects->0.effects;
        let st = e.stats->0;
        if !end {
            (Some(EntityView { effects: Some(EffectsView { effects: fx, last_tick_turn: turn }), ..e }), seq![])
        } else {
            let total = total_damage(fx);
            let events = effect_events(e.id, fx);
            let hp = if total > 0 { sat_sub(st.hp, total as u32) } else { st.hp };
            if total > 0 && hp == 0 {
                (
                    None,
                    events + seq![
                        EventView::EntityDied { entity: e.id, entity_name: known_name(e) },
                        EventView::StatusRemoved { entity: e.id, status: "所有效果"@, reason: "death"@ },
                    ],
                )
            } else {
                (
                    Some(
                        EntityView {
                            effects: Some(EffectsView { effects: still_running(fx), last_tick_turn: turn }),
                            stats: Some(Stats { hp, ..st }),
                            ..e
                        },
                    ),
                    events,
                )
            }
        }
    }
}

/// Messages of one creature (logging variant).
pub open spec fn effect_messages(e: EntityView, turn: u32, end: bool) -> Seq<Seq<char>> {
    if !effects_due(e, turn) || !end {
        seq![]
    } else {
        let fx = e.effects->0.effects;
        let msgs = expiry_messages(known_name(e), fx);
        match effect_outcome(e, turn, end).0 {
            None => msgs.push(known_name(e) + " 死亡"@),
            Some(_) => msgs,
        }
    }
}

/// Every creature processed in order: the creatures left, the events and
/// the messages.
pub open spec fn effects_world(s: Seq<EntityView>, turn: u32, end: bool) -> (Seq<EntityView>, Seq<EventView>, Seq<Seq<char>>)
    decreases s.len(),
{
    if s.len() == 0 {
        (seq![], seq![], seq![])
    } else {
        let (kept, events, msgs) = effects_world(s.drop_last(), turn, end);
        let (survivor, ev) = effect_outcome(s.last(), turn, end);
        (
            match survivor {
                Some(e) => kept.push(e),
                None => kept,
            },
            events + ev,
            msgs + effect_messages(s.last(), turn, end),
        )
    }
}

/// The damage of every creature's effects fits `u32`.
pub open spec fn damage_fits(s: Seq<EntityView>) -> bool {
    forall|i: int| 0 <= i < s.len() && (#[trigger] s[i]).effects is Some ==> total_damage(s[i].effects->0.effects) <= u32::MAX
}

/// Sizes of the per-effect lists.
proof fn lemma_effect_lists(id: crate::ecs::EntityId, name: Seq<char>, fx: Seq<StatusEffect>)
    ensures
        effect_events(id, fx).len() <= 2 * fx.len(),
        expiry_messages(name, fx).len() <= fx.len(),
        total_damage(fx) >= 0,
    decreases fx.len(),
{
    if fx.len() > 0 {
        lemma_effect_lists(id, name, fx.drop_last());
    }
}

/// Status effects never heal and never multiply: a creature that survives
/// its effects has at most the hit points it had, and no more effects.
pub proof fn lemma_effects_never_heal(e: EntityView, turn: u32, end: bool)
    ensures
        match effect_outcome(e, turn, end).0 {
            Some(e2) => {
                &&& e2.stats == e.stats || (e.stats is Some && e2.stats is Some && e2.stats->0.hp <= e.stats->0.hp)
                &&& e.effects is Some ==> e2.effects is Some && e2.effects->0.effects.len() <= e.effects->0.effects.len()
            },
            None => e.stats is Some,
        },
{
    match e.effects {
        Some(fx) => lemma_still_running_len(fx.effects),
        None => {},
    }
}

/// Running down keeps at most the effects there were.
pub proof fn lemma_still_running_len(fx: Seq<StatusEffect>)
    ensures
        still_running(fx).len() <= fx.len(),
    decreases fx.len(),
{
    if fx.len() > 0 {
        lemma_still_running_len(fx.drop_last());
    }
}

/// An effect with a single turn left expires at the end of the turn.
pub proof fn lemma_last_turn_expires(x: StatusEffect)
    requires
        x.turns <= 1,
    ensures
        still_running(seq![x]).len() == 0,
{
    assert(seq![x].drop_last() =~= Seq::<StatusEffect>::empty());
    assert(seq![x].last() == x);
    assert(still_running(Seq::<StatusEffect>::empty()).len() == 0);
    assert(run_down(x).turns == 0);
}

/// Runs status effects.
pub struct EffectSystem {
    pub phase: EffectPhase,
}

impl EffectSystem {
    /// A system for the end of the turn.
    pub fn new() -> (s: Self)
        ensures
            s.phase == EffectPhase::EndOfTurn,
    {
        EffectSystem { phase: EffectPhase::EndOfTurn }
    }

    pub fn name(&self) -> (s: &'static str)
        ensures
            s@ == "EffectSystem"@,
    {
        proof {
            reveal_strlit("EffectSystem");
        }
        "EffectSystem"
    }

    /// The name of an effect kind.
    fn effect_text(t: EffectType) -> (s: String)
        ensures
            s@ == effect_name(t),
    {
        match t {
            EffectType::Burning => String::from_str("Burning"),
            EffectType::Poison => String::from_str("Poison"),
            EffectType::Bleeding => String::from_str("Bleeding"),
            EffectType::Paralysis => String::from_str("Paralysis"),
            EffectType::Frost => String::from_str("Frost"),
            EffectType::Rooted => String::from_str("Rooted"),
        }
    }

    /// Runs down a list of effects: the effects still running, the damage,
    /// and the events and expiry messages.
    fn tick_list(id: crate::ecs::EntityId, name: &String, fx: &Vec<StatusEffect>, events: &mut Vec<GameEvent>, log: &mut Vec<String>) -> (r: (Vec<StatusEffect>, u32))
        requires
            total_damage(fx@) <= u32::MAX,
            old(events)@.len() + 2 * fx@.len() <= usize::MAX,
            old(log)@.len() + fx@.len() <= usize::MAX,
        ensures
            r.0@ == still_running(fx@),
            r.1 == total_damage(fx@),
            events_view(final(events)@) == events_view(old(events)@) + effect_events(id, fx@),
            log_view(final(log)@) == log_view(old(log)@) + expiry_messages(name@, fx@),
    {
        let ghost ev0 = events_view(events@);
        let ghost log0 = log_view(log@);
        let mut kept: Vec<StatusEffect> = Vec::new();
        let mut total: u32 = 0;
        let n = fx.len();
        let mut i: usize = 0;
        while i < n
            invariant
                n == fx@.len(),
                0 <= i <= n,
                total_damage(fx@) <= u32::MAX,
                ev0.len() + 2 * n <= usize::MAX,
                log0.len() + n <= usize::MAX,
                ev0 == events_view(old(events)@),
                log0 == log_view(old(log)@),
                kept@ == still_running(fx@.take(i as int)),
                total == total_damage(fx@.take(i as int)),
                events_view(events@) == ev0 + effect_events(id, fx@.take(i as int)),
                log_view(log@) == log0 + expiry_messages(name@, fx@.take(i as int)),
            decreases n - i,
        {
            proof {
                assert(fx@.take(i as int + 1).drop_last() =~= fx@.take(i as int));
                lemma_effect_lists(id, name@, fx@.take(i as int));
                lemma_total_prefix(fx@, i as int + 1);
            }
            let x = fx[i];
            let ghost evb = events_view(events@);
            let ghost logb = log_view(log@);
            let ghost nm = effect_name(x.effect_type);
            let ghost ticked: Seq<EventView> = if x.damage > 0 {
                seq![EventView::StatusEffectTicked { entity: id, status: nm, damage: x.damage, remaining_turns: x.turns }]
            } else {
                seq![]
            };
            let ghost removed: Seq<EventView> = if run_down(x).turns == 0 {
                seq![EventView::StatusRemoved { entity: id, status: nm, reason: "expired"@ }]
            } else {
                seq![]
            };
            if x.damage > 0 {
                total = total + x.damage;
                let st = Self::effect_text(x.effect_type);
                events.push(GameEvent::StatusEffectTicked {
                    entity: id,
                    status: st,
                    damage: x.damage,
                    remaining_turns: x.turns,
                });
                assert(events_view(events@) =~= evb + ticked);
            } else {
                assert(events_view(events@) =~= evb + ticked);
            }
            let ghost evt = events_view(events@);
            let y = StatusEffect { turns: x.turns.saturating_sub(1), ..x };
            if y.turns > 0 {
                kept.push(y);
                assert(events_view(events@) =~= evt + removed);
                assert(log_view(log@) =~= logb);
            } else {
                let st = Self::effect_text(x.effect_type);
                let reason = String::from_str("expired");
                events.push(GameEvent::StatusRemoved {
                    entity: id,
                    status: st,
                    reason,
                });
                assert(events_view(events@) =~= evt + removed);
                let mut text = name.clone();
                text.append("的");
                let t = Self::effect_text(x.effect_type);
                text.append(t.as_str());
                text.append("效果已消失");
                log.push(text);
                assert(log_view(log@) =~= logb.push(name@ + "的"@ + nm + "效果已消失"@));
            }
            proof {
                let last = fx@.take(i as int + 1).last();
                assert(last == x);
                assert(effect_events(id, fx@.take(i as int + 1)) == effect_events(id, fx@.take(i as int)) + ticked + removed);
                assert(events_view(events@) =~= ev0 + effect_events(id, fx@.take(i as int + 1)));
                assert(log_view(log@) =~= log0 + expiry_messages(name@, fx@.take(i as int + 1)));
            }
            i = i + 1;
        }
        assert(fx@.take(n as int) =~= fx@);
        (kept, total)
    }
}

/// Damage totals of prefixes never exceed the whole.
proof fn lemma_total_prefix(fx: Seq<StatusEffect>, k: int)
    requires
        0 <= k <= fx.len(),
    ensures
        0 <= total_damage(fx.take(k)) <= total_damage(fx),
    decreases fx.len() - k,
{
    if k < fx.len() {
        assert(fx.take(k + 1).drop_last() =~= fx.take(k));
        lemma_total_prefix(fx, k + 1);
        lemma_total_nonneg(fx.take(k));
    } else {
        assert(fx.take(k) =~= fx);
        lemma_total_nonneg(fx);
    }
}

proof fn lemma_total_nonneg(fx: Seq<StatusEffect>)
    ensures
        total_damage(fx) >= 0,
    decreases fx.len(),
{
    if fx.len() > 0 {
        lemma_total_nonneg(fx.drop_last());
    }
}

/// Effects and creatures counted together, to bound the events.
pub open spec fn effect_size(s: Seq<EntityView>) -> nat
    decreases s.len(),
{
    if s.len() == 0 {
        0
    } else {
        effect_size(s.drop_last()) + 1 + match s.last().effects {
            Some(fx) => fx.effects.len(),
            None => 0,
        }
    }
}

proof fn lemma_effect_size_prefix(s: Seq<EntityView>, k: int)
    requires
        0 <= k <= s.len(),
    ensures
        effect_size(s.take(k)) <= effect_size(s),
    decreases s.len() - k,
{
    if k < s.len() {
        assert(s.take(k + 1).drop_last() =~= s.take(k));
        lemma_effect_size_prefix(s, k + 1);
    } else {
        assert(s.take(k) =~= s);
    }
}

proof fn lemma_world_sizes(s: Seq<EntityView>, turn: u32, end: bool)
    ensures
        effects_world(s, turn, end).1.len() <= 2 * effect_size(s),
        effects_world(s, turn, end).2.len() <= effect_size(s),
    decreases s.len(),
{
    if s.len() > 0 {
        lemma_world_sizes(s.drop_last(), turn, end);
        let e = s.last();
        match e.effects {
            Some(fx) => {
                lemma_effect_lists(e.id, known_name(e), fx.effects);
            },
            None => {},
        }
    }
}

impl EffectSystem {
    /// Runs the effects of one creature; none comes back when they killed it.
    fn process_entity(e: WorldEntity, turn: u32, end: bool, events: &mut Vec<GameEvent>, log: &mut Vec<String>) -> (r: Option<WorldEntity>)
        requires
            e.effects is Some ==> total_damage(e.effects->0.effects@) <= u32::MAX,
            old(events)@.len() + 2 * (1 + match e.effects { Some(fx) => fx.effects@.len(), None => 0 }) <= usize::MAX,
            old(log)@.len() + 1 + match e.effects { Some(fx) => fx.effects@.len(), None => 0 } <= usize::MAX,
        ensures
            ({
                let (survivor, ev) = effect_outcome(entity_view(e), turn, end);
                &&& match r {
                    Some(x) => survivor == Some(entity_view(x)),
                    None => survivor is None,
                }
                &&& events_view(final(events)@) == events_view(old(events)@) + ev
                &&& log_view(final(log)@) == log_view(old(log)@) + effect_messages(entity_view(e), turn, end)
            }),
    {
        let ghost v = entity_view(e);
        let ghost ev0 = events_view(events@);
        let ghost log0 = log_view(log@);
        let mut e = e;
        let due = match (&e.effects, &e.stats) {
            (Some(fx), Some(_)) => fx.last_tick_turn < turn,
            _ => false,
        };
        if !due {
            assert(events_view(events@) =~= ev0 + seq![]);
            assert(log_view(log@) =~= log0 + seq![]);
            return Some(e);
        }
        let mut fx_opt: Option<StatusEffects> = None;
        std::mem::swap(&mut fx_opt, &mut e.effects);
        let fx = match fx_opt {
            Some(fx) => fx,
            None => {
                assert(false);
                return None;
            },
        };
        let st = match e.stats {
            Some(st) => st,
            None => {
                assert(false);
                return None;
            },
        };
        if !end {
            e.effects = Some(StatusEffects { effects: fx.effects, last_tick_turn: turn });
            assert(events_view(events@) =~= ev0 + seq![]);
            assert(log_view(log@) =~= log0 + seq![]);
            return Some(e);
        }
        let name: String = match &e.actor {
            Some(a) => a.name.clone(),
            None => String::from_str("Unknown"),
        };
        let (kept, total) = Self::tick_list(e.id, &name, &fx.effects, events, log);
        let hp = if total > 0 { st.hp.saturating_sub(total) } else { st.hp };
        if total > 0 && hp == 0 {
            let ghost evb = events_view(events@);
            let ghost logb = log_view(log@);
            events.push(GameEvent::EntityDied { entity: e.id, entity_name: name.clone() });
            events.push(GameEvent::StatusRemoved {
                entity: e.id,
                status: String::from_str("所有效果"),
                reason: String::from_str("death"),
            });
            let mut text = name.clone();
            text.append(" 死亡");
            log.push(text);
            assert(events_view(events@) =~= evb + seq![
                EventView::EntityDied { entity: v.id, entity_name: known_name(v) },
                EventView::StatusRemoved { entity: v.id, status: "所有效果"@, reason: "death"@ },
            ]);
            assert(log_view(log@) =~= logb.push(known_name(v) + " 死亡"@));
            return None;
        }
        e.effects = Some(StatusEffects { effects: kept, last_tick_turn: turn });
        e.stats = Some(Stats { hp, ..st });
        Some(e)
    }

    /// Runs the effects of every creature in order; publishes to `events`
    /// and logs to `log`.
    fn process_world(world: &mut GameWorld, turn: u32, end: bool, events: &mut Vec<GameEvent>, log: &mut Vec<String>)
        requires
            damage_fits(world_view(old(world).entities@)),
            old(events)@.len() + 2 * effect_size(world_view(old(world).entities@)) <= usize::MAX,
            old(log)@.len() + effect_size(world_view(old(world).entities@)) <= usize::MAX,
        ensures
            ({
                let (kept, ev, msgs) = effects_world(world_view(old(world).entities@), turn, end);
                &&& world_view(final(world).entities@) == kept
                &&& events_view(final(events)@) == events_view(old(events)@) + ev
                &&& log_view(final(log)@) == log_view(old(log)@) + msgs
            }),
            final(world).next_id == old(world).next_id,
    {
        let ghost s = world_view(world.entities@);
        let ghost ev0 = events_view(events@);
        let ghost log0 = log_view(log@);
        let mut rest: Vec<WorldEntity> = Vec::new();
        std::mem::swap(&mut rest, &mut world.entities);
        let ghost mut k: int = 0;
        while rest.len() > 0
            invariant
                0 <= k <= s.len(),
                s == world_view(old(world).entities@),
                damage_fits(s),
                ev0 == events_view(old(events)@),
                log0 == log_view(old(log)@),
                ev0.len() + 2 * effect_size(s) <= usize::MAX,
                log0.len() + effect_size(s) <= usize::MAX,
                world_view(rest@) == s.skip(k),
                world_view(world.entities@) == effects_world(s.take(k), turn, end).0,
                events_view(events@) == ev0 + effects_world(s.take(k), turn, end).1,
                log_view(log@) == log0 + effects_world(s.take(k), turn, end).2,
                world.next_id == old(world).next_id,
            decreases rest@.len(),
        {
            proof {
                assert(world_view(rest@).len() == rest@.len());
                assert(s.skip(k).len() == s.len() - k);
                assert(k < s.len());
                assert(s.take(k + 1).drop_last() =~= s.take(k));
                assert(world_view(rest@)[0] == s[k]);
                lemma_effect_size_prefix(s, k + 1);
                lemma_world_sizes(s.take(k), turn, end);
                assert(s.take(k + 1).last() == s[k]);
                assert(effect_size(s.take(k + 1)) == effect_size(s.take(k)) + 1 + match s[k].effects {
                    Some(fx) => fx.effects.len(),
                    None => 0,
                });
            }
            let ghost rest0 = rest@;
            let e = rest.remove(0);
            assert(entity_view(e) == s[k]);
            proof {
                assert(events_view(events@).len() == events@.len());
                assert(log_view(log@).len() == log@.len());
                assert(e.effects is Some ==> s[k].effects->0.effects == e.effects->0.effects@);
                assert(world_view(rest@) =~= world_view(rest0).subrange(1, rest0.len() as int));
                assert(world_view(rest0).subrange(1, rest0.len() as int) =~= s.skip(k + 1));
            }
            let r = Self::process_entity(e, turn, end, events, log);
            match r {
                Some(x) => {
                    world.entities.push(x);
                },
                None => {},
            }
            proof {
                assert(world_view(world.entities@) =~= effects_world(s.take(k + 1), turn, end).0);
                assert(events_view(events@) =~= ev0 + effects_world(s.take(k + 1), turn, end).1);
                assert(log_view(log@) =~= log0 + effects_world(s.take(k + 1), turn, end).2);
                k = k + 1;
            }
        }
        assert(s.take(k) =~= s);
    }

    /// Runs the status effects of every creature in order for the phase: at
    /// the end of the turn each effect deals its damage (announced) and runs
    /// down one turn, expired effects are removed (announced), and a
    /// creature killed by them leaves the world (announced); a creature is
    /// processed at most once per clock turn.
    pub fn run_with_events(ecs_world: &mut EcsWorld, phase: EffectPhase) -> (r: SystemResult)
        requires
            damage_fits(world_view(old(ecs_world).world.entities@)),
            old(ecs_world).events@.len() + 2 * effect_size(world_view(old(ecs_world).world.entities@)) <= usize::MAX,
            effect_size(world_view(old(ecs_world).world.entities@)) <= usize::MAX,
        ensures
            r is Continue,
            ({
                let (kept, ev, _) = effects_world(
                    world_view(old(ecs_world).world.entities@),
                    old(ecs_world).resources.clock.turn_count,
                    phase == EffectPhase::EndOfTurn,
                );
                &&& world_view(final(ecs_world).world.entities@) == kept
                &&& events_view(final(ecs_world).events@) == events_view(old(ecs_world).events@) + ev
            }),
            final(ecs_world).world.next_id == old(ecs_world).world.next_id,
            final(ecs_world).resources == old(ecs_world).resources,
    {
        let turn = ecs_world.resources.clock.turn_count;
        let end = match phase {
            EffectPhase::EndOfTurn => true,
            EffectPhase::StartOfTurn => false,
        };
        let mut scratch: Vec<String> = Vec::new();
        Self::process_world(&mut ecs_world.world, turn, end, &mut ecs_world.events, &mut scratch);
        SystemResult::Continue
    }

    /// Same rules as [`EffectSystem::run_with_events`] for the system's
    /// phase, logging expired effects and deaths in place of events.
    pub fn run(&mut self, world: &mut GameWorld, resources: &mut Resources) -> (r: SystemResult)
        requires
            damage_fits(world_view(old(world).entities@)),
            old(resources).game_state.message_log@.len() + effect_size(world_view(old(world).entities@)) <= usize::MAX,
            2 * effect_size(world_view(old(world).entities@)) <= usize::MAX,
        ensures
            r is Continue,
            ({
                let (kept, _, msgs) = effects_world(
                    world_view(old(world).entities@),
                    old(resources).clock.turn_count,
                    old(self).phase == EffectPhase::EndOfTurn,
                );
                &&& world_view(final(world).entities@) == kept
                &&& log_view(final(resources).game_state.message_log@) == log_view(
                    old(resources).game_state.message_log@,
                ) + msgs
            }),
            final(self).phase == old(self).phase,
            final(world).next_id == old(world).next_id,
            final(resources).input_buffer == old(resources).input_buffer,
            final(resources).clock == old(resources).clock,
            final(resources).config == old(resources).config,
            final(resources).game_state.game_state == old(resources).game_state.game_state,
            final(resources).game_state.depth == old(resources).game_state.depth,
            final(resources).game_state.selected_class == old(resources).game_state.selected_class,
            final(resources).game_state.frame_count == old(resources).game_state.frame_count,
    {
        let turn = resources.clock.turn_count;
        let end = match self.phase {
            EffectPhase::EndOfTurn => true,
            EffectPhase::StartOfTurn => false,
        };
        let mut scratch: Vec<GameEvent> = Vec::new();
        Self::process_world(world, turn, end, &mut scratch, &mut resources.game_state.message_log);
        SystemResult::Continue
    }
}

} // verus!

//! Events the systems publish for the user interface and the log.

use vstd::prelude::*;
use crate::ecs::EntityId;

verus! {

/// Severity of a log message.
#[derive(Clone, Copy, Debug, PartialEq, Eq, Structural)]
pub enum LogLevel {
    Debug,
    Info,
    Warning,
    Error,
}

/// Something that happened in the world.
#[derive(Clone, Debug)]
pub enum GameEvent {
    EntityMoved { entity: EntityId, from_x: i32, from_y: i32, to_x: i32, to_y: i32 },
    LevelChanged { old_level: usize, new_level: usize },
    HungerChanged { entity: EntityId, old_satiety: u32, new_satiety: u32 },
    PlayerHungry { entity: EntityId, satiety: u32 },
    PlayerStarving { entity: EntityId },
    StarvationDamage { entity: EntityId, damage: u32 },
    StatusEffectTicked { entity: EntityId, status: String, damage: u32, remaining_turns: u32 },
    StatusRemoved { entity: EntityId, status: String, reason: String },
    EntityDied { entity: EntityId, entity_name: String },
    AIDecisionMade { entity: EntityId, decision: String },
    AITargetChanged { entity: EntityId, old_target: Option<EntityId>, new_target: Option<EntityId> },
    CombatStarted { attacker: EntityId, defender: EntityId },
    DamageDealt { attacker: EntityId, victim: EntityId, damage: u32, is_critical: bool },
    LogMessage { message: String, level: LogLevel },
    GameOver { reason: String },
}

/// An event as the contracts see it: texts by their characters.
pub ghost enum EventView {
    EntityMoved { entity: EntityId, from_x: i32, from_y: i32, to_x: i32, to_y: i32 },
    LevelChanged { old_level: usize, new_level: usize },
    HungerChanged { entity: EntityId, old_satiety: u32, new_satiety: u32 },
    PlayerHungry { entity: EntityId, satiety: u32 },
    PlayerStarving { entity: EntityId },
    StarvationDamage { entity: EntityId, damage: u32 },
    StatusEffectTicked { entity: EntityId, status: Seq<char>, damage: u32, remaining_turns: u32 },
    StatusRemoved { entity: EntityId, status: Seq<char>, reason: Seq<char> },
    EntityDied { entity: EntityId, entity_name: Seq<char> },
    AIDecisionMade { entity: EntityId, decision: Seq<char> },
    AITargetChanged { entity: EntityId, old_target: Option<EntityId>, new_target: Option<EntityId> },
    CombatStarted { attacker: EntityId, defender: EntityId },
    DamageDealt { attacker: EntityId, victim: EntityId, damage: u32, is_critical: bool },
    LogMessage { message: Seq<char>, level: LogLevel },
    GameOver { reason: Seq<char> },
}

/// The view of an event.
pub open spec fn event_view(e: GameEvent) -> EventView {
    match e {
        GameEvent::EntityMoved { entity, from_x, from_y, to_x, to_y } => EventView::EntityMoved {
            entity,
            from_x,
            from_y,
            to_x,
            to_y,
        },
        GameEvent::LevelChanged { old_level, new_level } => EventView::LevelChanged {
            old_level,
            new_level,
        },
        GameEvent::HungerChanged { entity, old_satiety, new_satiety } => EventView::HungerChanged {
            entity,
            old_satiety,
            new_satiety,
        },
        GameEvent::PlayerHungry { entity, satiety } => EventView::PlayerHungry { entity, satiety },
        GameEvent::PlayerStarving { entity } => EventView::PlayerStarving { entity },
        GameEvent::StarvationDamage { entity, damage } => EventView::StarvationDamage {
            entity,
            damage,
        },
        GameEvent::StatusEffectTicked { entity, status, damage, remaining_turns } =>
            EventView::StatusEffectTicked { entity, status: status@, damage, remaining_turns },
        GameEvent::StatusRemoved { entity, status, reason } => EventView::StatusRemoved {
            entity,
            status: status@,
            reason: reason@,
        },
        GameEvent::EntityDied { entity, entity_name } => EventView::EntityDied {
            entity,
            entity_name: entity_name@,
        },
        GameEvent::AIDecisionMade { entity, decision } => EventView::AIDecisionMade {
            entity,
            decision: decision@,
        },
        GameEvent::AITargetChanged { entity, old_target, new_target } =>
            EventView::AITargetChanged { entity, old_target, new_target },
        GameEvent::CombatStarted { attacker, defender } => EventView::CombatStarted {
            attacker,
            defender,
        },
        GameEvent::DamageDealt { attacker, victim, damage, is_critical } =>
            EventView::DamageDealt { attacker, victim, damage, is_critical },
        GameEvent::LogMessage { message, level } => EventView::LogMessage {
            message: message@,
            level,
        },
        GameEvent::GameOver { reason } => EventView::GameOver { reason: reason@ },
    }
}

/// The views of a list of events.
pub open spec fn events_view(s: Seq<GameEvent>) -> Seq<EventView> {
    s.map_values(|e: GameEvent| event_view(e))
}

} // verus!

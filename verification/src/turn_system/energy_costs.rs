//! Canonical energy costs of every action, in energy units where 100 is one
//! full action.

use vstd::prelude::*;

use crate::ecs::PlayerAction;
use crate::turn_system::AIIntent;

verus! {

/// Full action energy cost (movement, attack, use item, ...).
pub const FULL_ACTION: u32 = 100;

/// Wait action energy cost (half of a full action).
pub const WAIT: u32 = 50;

/// No energy cost (quit, menu navigation, ...).
pub const FREE: u32 = 0;

/// What a player action costs.
pub open spec fn spec_player_action_cost(action: PlayerAction) -> u32 {
    match action {
        PlayerAction::Move(_)
        | PlayerAction::Attack(_)
        | PlayerAction::UseItem(_)
        | PlayerAction::DropItem(_)
        | PlayerAction::Descend
        | PlayerAction::Ascend => FULL_ACTION,
        PlayerAction::Wait => WAIT,
        _ => FREE,
    }
}

/// What an AI intent costs.
pub open spec fn spec_ai_action_cost(action: AIIntent) -> u32 {
    match action {
        AIIntent::Wait => WAIT,
        _ => FULL_ACTION,
    }
}

/// Get the energy cost for a player action.
pub fn player_action_cost(action: &PlayerAction) -> (cost: u32)
    ensures
        cost == spec_player_action_cost(*action),
{
    match action {
        PlayerAction::Move(_)
        | PlayerAction::Attack(_)
        | PlayerAction::UseItem(_)
        | PlayerAction::DropItem(_)
        | PlayerAction::Descend
        | PlayerAction::Ascend => FULL_ACTION,
        PlayerAction::Wait => WAIT,
        PlayerAction::Quit
        | PlayerAction::OpenInventory
        | PlayerAction::OpenOptions
        | PlayerAction::OpenHelp
        | PlayerAction::OpenCharacterInfo
        | PlayerAction::CloseMenu
        | PlayerAction::MenuNavigate(_)
        | PlayerAction::MenuSelect
        | PlayerAction::MenuBack => FREE,
    }
}

/// Get the energy cost for an AI action.
pub fn ai_action_cost(action: &AIIntent) -> (cost: u32)
    ensures
        cost == spec_ai_action_cost(*action),
{
    match action {
        AIIntent::Move => FULL_ACTION,
        AIIntent::Attack => FULL_ACTION,
        AIIntent::Wait => WAIT,
        AIIntent::Flee => FULL_ACTION,
        AIIntent::UseSkill => FULL_ACTION,
    }
}

/// Every action costs nothing, half an action or a full action, and waiting is
/// cheaper than any action that does something in the world.
pub proof fn lemma_costs_are_bounded(action: PlayerAction, intent: AIIntent)
    ensures
        spec_player_action_cost(action) == FREE || spec_player_action_cost(action) == WAIT
            || spec_player_action_cost(action) == FULL_ACTION,
        spec_ai_action_cost(intent) == WAIT || spec_ai_action_cost(intent) == FULL_ACTION,
        spec_player_action_cost(action) == FULL_ACTION ==> spec_player_action_cost(
            PlayerAction::Wait,
        ) < spec_player_action_cost(action),
{
}

} // verus!

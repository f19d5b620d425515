//! The game systems: each one reads the pending or completed player actions
//! and updates the world, the resources and the published events.

use vstd::prelude::*;
use crate::ecs::{Energy, Resources};
use crate::events::GameEvent;
use crate::world::{GameWorld, WorldEntity};

pub mod ai;
pub mod combat;
pub mod dungeon;
pub mod effects;
pub mod fov;
pub mod hunger;
pub mod inventory;
pub mod level;
pub mod menu;
pub mod movement;

verus! {

/// What a system tells the game loop after it ran.
#[derive(Clone, Debug)]
pub enum SystemResult {
    Continue,
    Stop,
    Error(String),
}

/// The world together with the shared resources and the events published
/// so far.
pub struct EcsWorld {
    pub world: GameWorld,
    pub resources: Resources,
    pub events: Vec<GameEvent>,
}

impl EcsWorld {
    /// Publishes an event.
    pub fn publish_event(&mut self, event: GameEvent)
        requires
            old(self).events@.len() < usize::MAX,
        ensures
            final(self).events@ == old(self).events@.push(event),
            final(self).world == old(self).world,
            final(self).resources == old(self).resources,
    {
        self.events.push(event);
    }
}

/// Reads player input; the actions themselves are queued by the input layer.
pub struct InputSystem;

impl InputSystem {
    pub fn name(&self) -> (s: &'static str)
        ensures
            s@ == "InputSystem"@,
    {
        proof {
            reveal_strlit("InputSystem");
        }
        "InputSystem"
    }

    /// Nothing to do: the game goes on.
    pub fn run(&mut self, world: &mut GameWorld, resources: &mut Resources) -> (r: SystemResult)
        ensures
            r is Continue,
            *final(world) == *old(world),
            *final(resources) == *old(resources),
    {
        SystemResult::Continue
    }
}

/// The energy pool after one clock tick: it regains its rate (at least one
/// point), never past the maximum.
pub open spec fn ticked(en: Energy) -> Energy {
    let regen = if en.regeneration_rate < 1 { 1 } else { en.regeneration_rate };
    Energy {
        current: if en.current + regen <= en.max {
            (en.current + regen) as u32
        } else {
            en.max
        },
        ..en
    }
}

/// The entity after one clock tick.
pub open spec fn entity_ticked(e: WorldEntity) -> WorldEntity {
    match e.energy {
        Some(en) => WorldEntity { energy: Some(ticked(en)), ..e },
        None => e,
    }
}

/// The energy sums of a clock tick fit `u32`.
pub open spec fn tick_fits(s: Seq<WorldEntity>) -> bool {
    forall|i: int|
        0 <= i < s.len() && (#[trigger] s[i]).energy is Some ==> s[i].energy->0.current + (if s[i].energy->0.regeneration_rate < 1 {
            1
        } else {
            s[i].energy->0.regeneration_rate
        }) <= u32::MAX
}

/// A clock tick never takes energy away from a pool that is within its
/// maximum, and never lifts it past the maximum.
pub proof fn lemma_tick_bounded(en: Energy)
    requires
        en.current <= en.max,
    ensures
        en.current <= ticked(en).current <= en.max,
        ticked(en).max == en.max,
{
}

/// Advances the game clock and lets every energy pool regain energy.
pub struct TimeSystem;

impl TimeSystem {
    pub fn name(&self) -> (s: &'static str)
        ensures
            s@ == "TimeSystem"@,
    {
        proof {
            reveal_strlit("TimeSystem");
        }
        "TimeSystem"
    }

    /// One clock tick: the turn counter goes up by one (stopping at the
    /// largest value) and every energy pool regains energy.
    pub fn run(&mut self, world: &mut GameWorld, resources: &mut Resources) -> (r: SystemResult)
        requires
            tick_fits(old(world).entities@),
        ensures
            r is Continue,
            final(resources).clock.turn_count == if old(resources).clock.turn_count == u32::MAX {
                u32::MAX
            } else {
                (old(resources).clock.turn_count + 1) as u32
            },
            final(world).entities@ == old(world).entities@.map_values(|e: WorldEntity| entity_ticked(e)),
            final(world).next_id == old(world).next_id,
            final(resources).input_buffer == old(resources).input_buffer,
            final(resources).game_state == old(resources).game_state,
            final(resources).config == old(resources).config,
    {
        resources.clock.turn_count = resources.clock.turn_count.saturating_add(1);
        let ghost s = world.entities@;
        let n = world.entities.len();
        let mut i: usize = 0;
        while i < n
            invariant
                n == s.len(),
                s == old(world).entities@,
                tick_fits(s),
                0 <= i <= n,
                world.entities@.len() == n,
                world.next_id == old(world).next_id,
                forall|j: int| 0 <= j < i ==> world.entities@[j] == entity_ticked(#[trigger] s[j]),
                forall|j: int| i <= j < n ==> world.entities@[j] == #[trigger] s[j],
            decreases n - i,
        {
            assert(world.entities@[i as int] == s[i as int]);
            match world.entities[i].energy {
                Some(en) => {
                    let regen = if en.regeneration_rate < 1 { 1 } else { en.regeneration_rate };
                    let sum = en.current + regen;
                    let current = if sum <= en.max { sum } else { en.max };
                    world.entities[i].energy = Some(Energy { current, ..en });
                },
                None => {},
            }
            i = i + 1;
        }
        assert(world.entities@ =~= s.map_values(|e: WorldEntity| entity_ticked(e)));
        SystemResult::Continue
    }
}

/// Refills every energy pool.
pub struct EnergySystem;

/// The entity with its energy pool full.
pub open spec fn entity_refilled(e: WorldEntity) -> WorldEntity {
    match e.energy {
        Some(en) => WorldEntity { energy: Some(Energy { current: en.max, ..en }), ..e },
        None => e,
    }
}

impl EnergySystem {
    pub fn name(&self) -> (s: &'static str)
        ensures
            s@ == "EnergySystem"@,
    {
        proof {
            reveal_strlit("EnergySystem");
        }
        "EnergySystem"
    }

    /// This system manages energy.
    pub fn is_energy_system(&self) -> (r: bool)
        ensures
            r,
    {
        true
    }

    /// Sets every energy pool to its maximum.
    pub fn run(&mut self, world: &mut GameWorld, resources: &mut Resources) -> (r: SystemResult)
        ensures
            r is Continue,
            final(world).entities@ == old(world).entities@.map_values(|e: WorldEntity| entity_refilled(e)),
            final(world).next_id == old(world).next_id,
            *final(resources) == *old(resources),
    {
        let ghost s = world.entities@;
        let n = world.entities.len();
        let mut i: usize = 0;
        while i < n
            invariant
                n == s.len(),
                s == old(world).entities@,
                0 <= i <= n,
                world.entities@.len() == n,
                world.next_id == old(world).next_id,
                forall|j: int| 0 <= j < i ==> world.entities@[j] == entity_refilled(#[trigger] s[j]),
                forall|j: int| i <= j < n ==> world.entities@[j] == #[trigger] s[j],
            decreases n - i,
        {
            match world.entities[i].energy {
                Some(en) => {
                    world.entities[i].energy = Some(Energy { current: en.max, ..en });
                },
                None => {},
            }
            i = i + 1;
        }
        assert(world.entities@ =~= s.map_values(|e: WorldEntity| entity_refilled(e)));
        SystemResult::Continue
    }
}

/// Keeps the frame counter of the renderer.
pub struct RenderingSystem;

impl RenderingSystem {
    pub fn name(&self) -> (s: &'static str)
        ensures
            s@ == "RenderingSystem"@,
    {
        proof {
            reveal_strlit("RenderingSystem");
        }
        "RenderingSystem"
    }

    /// Counts one more frame, wrapping around at the largest value.
    pub fn run(&mut self, world: &mut GameWorld, resources: &mut Resources) -> (r: SystemResult)
        ensures
            r is Continue,
            final(resources).game_state.frame_count == if old(resources).game_state.frame_count == u64::MAX {
                0
            } else {
                (old(resources).game_state.frame_count + 1) as u64
            },
            final(resources).game_state.game_state == old(resources).game_state.game_state,
            final(resources).game_state.message_log == old(resources).game_state.message_log,
            final(resources).game_state.depth == old(resources).game_state.depth,
            final(resources).game_state.selected_class == old(resources).game_state.selected_class,
            final(resources).input_buffer == old(resources).input_buffer,
            final(resources).clock == old(resources).clock,
            final(resources).config == old(resources).config,
            *final(world) == *old(world),
    {
        resources.game_state.frame_count = resources.game_state.frame_count.wrapping_add(1);
        SystemResult::Continue
    }
}

/// Interactions of the player with its surroundings.
pub struct InteractionSystem;

impl InteractionSystem {
    pub fn name(&self) -> (s: &'static str)
        ensures
            s@ == "InteractionSystem"@,
    {
        proof {
            reveal_strlit("InteractionSystem");
        }
        "InteractionSystem"
    }

    /// Looks at every actor of the player's faction; nothing changes yet.
    pub fn handle_interactions(world: &mut GameWorld)
        ensures
            *final(world) == *old(world),
    {
    }

    pub fn run(&mut self, world: &mut GameWorld, resources: &mut Resources) -> (r: SystemResult)
        ensures
            r is Continue,
            *final(world) == *old(world),
            *final(resources) == *old(resources),
    {
        Self::handle_interactions(world);
        SystemResult::Continue
    }
}

} // verus!

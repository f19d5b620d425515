//! The game's entities kept in a `hecs` world between frames. Every stored
//! entity is one `WorldEntity` component; the systems work on the list that
//! a query over that component yields, and the list is written back after.

use vstd::prelude::*;
use crate::world::{GameWorld, WorldEntity};

verus! {

#[verifier::external_type_specification]
#[verifier::external_body]
pub struct ExHecsWorld(hecs::World);

/// The `WorldEntity` components of a hecs world, in the order in which a
/// query for them visits them.
pub uninterp spec fn stored_entities(w: hecs::World) -> Seq<WorldEntity>;

/// Every entity of the hecs world was spawned with a `WorldEntity` as its
/// only component.
pub uninterp spec fn lone_entities(w: hecs::World) -> bool;

/// `hecs::World::new`: a world without entities.
#[verifier::external_body]
fn new_hecs_world() -> (w: hecs::World)
    ensures
        stored_entities(w) == Seq::<WorldEntity>::empty(),
        lone_entities(w),
{
    hecs::World::new()
}

/// `hecs::World::clear`: despawns every entity.
#[verifier::external_body]
fn clear_hecs_world(w: &mut hecs::World)
    ensures
        stored_entities(*final(w)) == Seq::<WorldEntity>::empty(),
        lone_entities(*final(w)),
{
    w.clear();
}

/// `hecs::World::spawn` of a one-component bundle `(e,)`. In a world whose
/// entities all hold a lone `WorldEntity`, they share one archetype, and
/// spawning allocates the next index of that archetype, so a query visits
/// the new entity last.
#[verifier::external_body]
fn spawn_hecs_entity(w: &mut hecs::World, e: WorldEntity)
    requires
        lone_entities(*old(w)),
    ensures
        stored_entities(*final(w)) == stored_entities(*old(w)).push(e),
        lone_entities(*final(w)),
{
    w.spawn((e,));
}

/// `hecs::World::query::<&WorldEntity>`, iterated, each component cloned.
#[verifier::external_body]
fn query_hecs_entities(w: &hecs::World) -> (v: Vec<WorldEntity>)
    ensures
        v@ == stored_entities(*w),
{
    w.query::<&WorldEntity>().iter().map(|(_, e)| e.clone()).collect()
}

/// The entity store: a hecs world holding each entity as one `WorldEntity`
/// component, and the identifier the next spawned entity gets.
pub struct EntityStore {
    world: hecs::World,
    next_id: u64,
}

impl EntityStore {
    /// The entities as stored, in query order.
    pub closed spec fn entities(self) -> Seq<WorldEntity> {
        stored_entities(self.world)
    }

    /// The identifier the next spawned entity gets.
    pub closed spec fn spec_next_id(self) -> u64 {
        self.next_id
    }

    /// The store's world holds lone `WorldEntity` components only.
    pub closed spec fn well_formed(self) -> bool {
        lone_entities(self.world)
    }

    /// An empty store whose first entity will get identifier one.
    pub fn new() -> (s: Self)
        ensures
            s.well_formed(),
            s.entities() == Seq::<WorldEntity>::empty(),
            s.spec_next_id() == 1,
    {
        EntityStore { world: new_hecs_world(), next_id: 1 }
    }

    /// The stored world, as a list of entities in query order.
    pub fn load(&self) -> (w: GameWorld)
        ensures
            w.entities@ == self.entities(),
            w.next_id == self.spec_next_id(),
    {
        GameWorld { entities: query_hecs_entities(&self.world), next_id: self.next_id }
    }

    /// Replaces the stored world with `world`: afterwards a query visits its
    /// entities in its order.
    pub fn save(&mut self, world: GameWorld)
        requires
            old(self).well_formed(),
        ensures
            final(self).well_formed(),
            final(self).entities() == world.entities@,
            final(self).spec_next_id() == world.next_id,
    {
        clear_hecs_world(&mut self.world);
        let ghost all = world.entities@;
        let n = world.entities.len();
        let mut rest = world.entities;
        let mut stack: Vec<WorldEntity> = Vec::new();
        while rest.len() > 0
            invariant
                n == all.len(),
                rest.len() + stack.len() == n,
                rest@ == all.take(rest.len() as int),
                forall|j: int| 0 <= j < stack.len() ==> #[trigger] stack@[j] == all[n - 1 - j],
            decreases rest.len(),
        {
            let e = rest.pop().unwrap();
            stack.push(e);
            assert(rest@ =~= all.take(rest.len() as int));
        }
        while stack.len() > 0
            invariant
                n == all.len(),
                stack.len() <= n,
                forall|j: int| 0 <= j < stack.len() ==> #[trigger] stack@[j] == all[n - 1 - j],
                lone_entities(self.world),
                stored_entities(self.world) == all.take(n - stack.len()),
            decreases stack.len(),
        {
            let ghost k = n - stack.len();
            let ghost before = stored_entities(self.world);
            let e = stack.pop().unwrap();
            assert(e == all[k]);
            spawn_hecs_entity(&mut self.world, e);
            assert(all.take(k + 1) =~= before.push(all[k]));
        }
        assert(all.take(n as int) =~= all);
        self.next_id = world.next_id;
    }
}

} // verus!

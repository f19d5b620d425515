//! Energy-driven turn scheduler orchestrating player and AI phases.
//!
//! Actors spend energy on actions (100 units for a full action). The player
//! acts first; once the player has spent energy, every AI actor with at least
//! a full action of energy acts, round after round, until the player's pool is
//! full again or no AI actor can act. Afterwards every pool regenerates and the
//! global turn counter advances.

use vstd::prelude::*;

use crate::ecs::{
    Energy, EntityId, Faction, GameStatus, PlayerAction, PlayerProgress, Resources, ReturnTo,
};

pub mod energy_costs;
pub mod intent_order;

use intent_order::{intent_ranks_below, ranks_below};

use energy_costs::{ai_action_cost, player_action_cost, spec_ai_action_cost, spec_player_action_cost, FULL_ACTION, WAIT};

verus! {

#[verifier::external_type_specification]
#[verifier::external_body]
pub struct ExAnyhowError(anyhow::Error);

/// AI action intents.
#[derive(Clone, Copy, Debug, PartialEq, Eq, Structural)]
pub enum AIIntent {
    Move,
    Attack,
    Wait,
    Flee,
    UseSkill,
}

/// Unified action type for both player and AI.
#[derive(Clone, Copy, Debug)]
pub enum Action {
    Player(PlayerAction),
    AI(AIIntent),
}

impl Action {
    pub open spec fn spec_cost(self) -> u32 {
        match self {
            Action::Player(pa) => spec_player_action_cost(pa),
            Action::AI(ai) => spec_ai_action_cost(ai),
        }
    }

    /// Get the energy cost for this action.
    pub fn cost(&self) -> (c: u32)
        ensures
            c == self.spec_cost(),
    {
        match self {
            Action::Player(pa) => player_action_cost(pa),
            Action::AI(ai) => ai_action_cost(ai),
        }
    }
}

/// Turn phase in the state machine.
#[derive(Clone, Copy, Debug, PartialEq, Eq, Structural)]
pub enum TurnPhase {
    /// Collecting input from player/AI.
    Input,
    /// Building intent queue from entities with sufficient energy.
    IntentQueue,
    /// Resolving actions in priority order.
    Resolution,
    /// Post-action phase: energy regen, status effects, etc.
    Aftermath,
}

/// Coarse turn state: whose turn it is.
#[derive(Clone, Copy, Debug, PartialEq, Eq, Structural)]
pub enum TurnState {
    /// Player-facing systems are allowed to enqueue or resolve actions.
    PlayerTurn,
    /// Reserved for multi-step player actions that span multiple frames.
    ProcessingPlayerAction,
    /// AI controllers resolve intents until the player regains full energy.
    AITurn,
    /// Reserved for scripted AI sequences that should not interleave with the player.
    ProcessingAIActions,
}

/// Turn metadata tracking global state.
#[derive(Clone, Copy, Debug)]
pub struct TurnMeta {
    /// Global turn counter (increments each full turn cycle).
    pub global_turn: u32,
    /// Sub-turn counter within a global turn (increments per action).
    pub sub_turn: u32,
    /// Last entity that took an action.
    pub last_actor: Option<EntityId>,
    /// Current phase in the turn state machine.
    pub phase: TurnPhase,
    /// Coarse state mirrored from the scheduler.
    pub legacy_state: TurnState,
}

impl TurnMeta {
    pub open spec fn initial() -> TurnMeta {
        TurnMeta {
            global_turn: 0,
            sub_turn: 0,
            last_actor: None,
            phase: TurnPhase::Input,
            legacy_state: TurnState::PlayerTurn,
        }
    }

    pub fn new() -> (m: Self)
        ensures
            m == TurnMeta::initial(),
    {
        TurnMeta {
            global_turn: 0,
            sub_turn: 0,
            last_actor: None,
            phase: TurnPhase::Input,
            legacy_state: TurnState::PlayerTurn,
        }
    }

    /// Advance to the next sub-turn.
    pub fn advance_sub_turn(&mut self)
        requires
            old(self).sub_turn < u32::MAX,
        ensures
            *final(self) == (TurnMeta { sub_turn: (old(self).sub_turn + 1) as u32, ..*old(self) }),
    {
        self.sub_turn = self.sub_turn + 1;
    }

    /// Advance to the next global turn; the sub-turn counter restarts.
    pub fn advance_global_turn(&mut self)
        requires
            old(self).global_turn < u32::MAX,
        ensures
            *final(self) == (TurnMeta {
                global_turn: (old(self).global_turn + 1) as u32,
                sub_turn: 0,
                ..*old(self)
            }),
    {
        self.global_turn = self.global_turn + 1;
        self.sub_turn = 0;
    }

    /// Record the last actor.
    pub fn set_last_actor(&mut self, entity: EntityId)
        ensures
            *final(self) == (TurnMeta { last_actor: Some(entity), ..*old(self) }),
    {
        self.last_actor = Some(entity);
    }

    /// Set the current phase.
    pub fn set_phase(&mut self, phase: TurnPhase)
        ensures
            *final(self) == (TurnMeta { phase: phase, ..*old(self) }),
    {
        self.phase = phase;
    }
}

impl Default for TurnMeta {
    fn default() -> (m: Self)
        ensures
            m == TurnMeta::initial(),
    {
        TurnMeta::new()
    }
}


/// One entity as the scheduler sees it: its actor faction (if it is an actor),
/// whether an AI controls it, its energy pool and its progress counters.
#[derive(Clone, Copy, Debug)]
pub struct TurnEntity {
    pub id: EntityId,
    pub actor: Option<Faction>,
    pub has_ai: bool,
    pub energy: Option<Energy>,
    pub progress: Option<PlayerProgress>,
}

/// The entities of the world, in query order.
#[derive(Clone, Debug)]
pub struct TurnWorld {
    pub entities: Vec<TurnEntity>,
}

/// The entity is the player (an actor of the player's faction).
pub open spec fn is_player_entity(e: TurnEntity) -> bool {
    e.actor == Some(Faction::Player)
}

/// Index of the first player entity, in query order.
pub open spec fn first_player(s: Seq<TurnEntity>) -> Option<int>
    decreases s.len(),
{
    if s.len() == 0 {
        None
    } else {
        match first_player(s.drop_last()) {
            Some(i) => Some(i),
            None => if is_player_entity(s.last()) {
                Some(s.len() - 1)
            } else {
                None
            },
        }
    }
}

pub proof fn lemma_first_player(s: Seq<TurnEntity>)
    ensures
        match first_player(s) {
            Some(i) => 0 <= i < s.len() && is_player_entity(s[i]) && forall|j: int|
                0 <= j < i ==> !is_player_entity(#[trigger] s[j]),
            None => forall|j: int| 0 <= j < s.len() ==> !is_player_entity(#[trigger] s[j]),
        },
    decreases s.len(),
{
    if s.len() > 0 {
        lemma_first_player(s.drop_last());
        assert forall|j: int| 0 <= j < s.len() - 1 implies s.drop_last()[j] == s[j] by {}
    }
}

/// `first_player` only depends on the factions of the entities.
pub proof fn lemma_first_player_same_actors(s: Seq<TurnEntity>, t: Seq<TurnEntity>)
    requires
        s.len() == t.len(),
        forall|i: int| 0 <= i < s.len() ==> (#[trigger] s[i]).actor == t[i].actor,
    ensures
        first_player(s) == first_player(t),
    decreases s.len(),
{
    if s.len() > 0 {
        assert forall|i: int| 0 <= i < s.len() - 1 implies (#[trigger] s.drop_last()[i]).actor
            == t.drop_last()[i].actor by {
            assert(s[i].actor == t[i].actor);
        }
        lemma_first_player_same_actors(s.drop_last(), t.drop_last());
    }
}

/// Helper function to find the player entity.
pub fn find_player(world: &TurnWorld) -> (r: Option<usize>)
    ensures
        match r {
            Some(i) => first_player(world.entities@) == Some(i as int) && i < world.entities@.len(),
            None => first_player(world.entities@) is None,
        },
{
    let n = world.entities.len();
    let mut i: usize = 0;
    while i < n
        invariant
            n == world.entities@.len(),
            0 <= i <= n,
            first_player(world.entities@.take(i as int)) is None,
        decreases n - i,
    {
        let ghost s = world.entities@.take(i as int + 1);
        assert(s.drop_last() =~= world.entities@.take(i as int));
        let is_player = match world.entities[i].actor {
            Some(Faction::Player) => true,
            _ => false,
        };
        if is_player {
            assert(first_player(s) == Some(i as int));
            proof {
                lemma_first_player_prefix(world.entities@, i as int + 1);
            }
            return Some(i);
        }
        i = i + 1;
    }
    assert(world.entities@.take(n as int) =~= world.entities@);
    None
}

/// A player found in a prefix is the first player of the whole sequence.
pub proof fn lemma_first_player_prefix(s: Seq<TurnEntity>, k: int)
    requires
        0 <= k <= s.len(),
        first_player(s.take(k)) is Some,
    ensures
        first_player(s) == first_player(s.take(k)),
    decreases s.len() - k,
{
    if k < s.len() {
        assert(s.take(k + 1).drop_last() =~= s.take(k));
        lemma_first_player_prefix(s, k + 1);
    } else {
        assert(s.take(k) =~= s);
    }
}

/// Helper function to check if an entity is the player.
pub fn is_player(world: &TurnWorld, index: usize) -> (r: bool)
    requires
        index < world.entities@.len(),
    ensures
        r == is_player_entity(world.entities@[index as int]),
{
    match world.entities[index].actor {
        Some(Faction::Player) => true,
        _ => false,
    }
}


/// The entity with its energy pool set to `current`.
pub open spec fn with_energy(e: TurnEntity, current: u32) -> TurnEntity {
    TurnEntity { energy: Some(Energy { current: current, ..e.energy.unwrap() }), ..e }
}

/// Saturating subtraction.
pub open spec fn sat_sub(a: u32, b: u32) -> u32 {
    if a >= b {
        (a - b) as u32
    } else {
        0
    }
}

/// Effect of charging the player for one completed action: the player's pool
/// loses the action's cost (saturating at zero); when energy was actually
/// spent, the player becomes the last actor and the sub-turn advances.
pub open spec fn spec_consume(meta: TurnMeta, taken: bool, s: Seq<TurnEntity>, action: PlayerAction) -> (TurnMeta, bool, Seq<TurnEntity>) {
    let cost = spec_player_action_cost(action);
    if cost == 0 {
        (meta, taken, s)
    } else {
        match first_player(s) {
            None => (meta, taken, s),
            Some(p) => match s[p].energy {
                None => (meta, taken, s),
                Some(en) => {
                    let cur = sat_sub(en.current, cost);
                    let s2 = s.update(p, with_energy(s[p], cur));
                    if cur < en.current {
                        (
                            TurnMeta {
                                sub_turn: (meta.sub_turn + 1) as u32,
                                last_actor: Some(s[p].id),
                                ..meta
                            },
                            true,
                            s2,
                        )
                    } else {
                        (meta, taken, s2)
                    }
                },
            },
        }
    }
}

/// The entity is controlled by an AI and can take part in the AI phase.
pub open spec fn ai_can_act(e: TurnEntity) -> bool {
    e.has_ai && e.actor is Some && e.energy is Some
}

/// The AI entity has at least a full action of energy.
pub open spec fn ai_ready(e: TurnEntity) -> bool {
    ai_can_act(e) && e.energy.unwrap().current >= FULL_ACTION
}

/// One AI round on one entity: a ready AI spends a full action.
pub open spec fn ai_round_entity(e: TurnEntity) -> TurnEntity {
    if ai_ready(e) {
        with_energy(e, (e.energy.unwrap().current - FULL_ACTION) as u32)
    } else {
        e
    }
}

/// One AI round: every ready AI acts once.
pub open spec fn ai_round(s: Seq<TurnEntity>) -> Seq<TurnEntity> {
    Seq::new(s.len(), |i: int| ai_round_entity(s[i]))
}

/// Number of AI entities ready to act.
pub open spec fn ready_count(s: Seq<TurnEntity>) -> nat
    decreases s.len(),
{
    if s.len() == 0 {
        0
    } else {
        ready_count(s.drop_last()) + if ai_ready(s.last()) {
            1nat
        } else {
            0nat
        }
    }
}

/// The last ready AI in query order, or `prev` when none is ready.
pub open spec fn last_ready(s: Seq<TurnEntity>, prev: Option<EntityId>) -> Option<EntityId>
    decreases s.len(),
{
    if s.len() == 0 {
        prev
    } else if ai_ready(s.last()) {
        Some(s.last().id)
    } else {
        last_ready(s.drop_last(), prev)
    }
}

/// Total energy held by AI entities.
pub open spec fn ai_total(s: Seq<TurnEntity>) -> nat
    decreases s.len(),
{
    if s.len() == 0 {
        0
    } else {
        ai_total(s.drop_last()) + if ai_can_act(s.last()) {
            s.last().energy.unwrap().current as nat
        } else {
            0nat
        }
    }
}

/// The AI phase stops when there is no player, when the player's pool is
/// full, or when no AI can act.
pub open spec fn ai_phase_done(s: Seq<TurnEntity>) -> bool {
    match first_player(s) {
        None => true,
        Some(p) => {
            ||| (match s[p].energy {
                Some(e) => e.current >= e.max,
                None => false,
            })
            ||| ready_count(s) == 0
        },
    }
}

pub proof fn lemma_ai_round_total(s: Seq<TurnEntity>)
    ensures
        ai_total(ai_round(s)) + FULL_ACTION * ready_count(s) == ai_total(s),
        ai_round(s).len() == s.len(),
    decreases s.len(),
{
    if s.len() > 0 {
        assert(ai_round(s).drop_last() =~= ai_round(s.drop_last()));
        lemma_ai_round_total(s.drop_last());
    }
}

pub proof fn lemma_ready_count_prefix(s: Seq<TurnEntity>, k: int)
    requires
        0 <= k <= s.len(),
    ensures
        ready_count(s.take(k)) <= ready_count(s),
    decreases s.len() - k,
{
    if k < s.len() {
        assert(s.take(k + 1).drop_last() =~= s.take(k));
        lemma_ready_count_prefix(s, k + 1);
    } else {
        assert(s.take(k) =~= s);
    }
}

/// The AI phase: rounds of AI actions until `ai_phase_done`. Returns the
/// world afterwards, the sub-turn counter and the last actor.
pub open spec fn run_ai(s: Seq<TurnEntity>, sub: nat, last: Option<EntityId>) -> (Seq<TurnEntity>, nat, Option<EntityId>)
    decreases ai_total(s),
{
    if ai_phase_done(s) {
        (s, sub, last)
    } else {
        proof {
            lemma_ai_round_total(s);
        }
        run_ai(ai_round(s), sub + ready_count(s), last_ready(s, last))
    }
}

/// `t` is `s` after some actors spent energy: nothing else changed.
pub open spec fn only_spent(s: Seq<TurnEntity>, t: Seq<TurnEntity>) -> bool {
    &&& s.len() == t.len()
    &&& forall|i: int| #![trigger t[i]] 0 <= i < s.len() ==> {
        &&& t[i].id == s[i].id
        &&& t[i].actor == s[i].actor
        &&& t[i].has_ai == s[i].has_ai
        &&& t[i].progress == s[i].progress
        &&& (t[i].energy is Some <==> s[i].energy is Some)
        &&& (s[i].energy is Some ==> {
            &&& t[i].energy.unwrap().max == s[i].energy.unwrap().max
            &&& t[i].energy.unwrap().regeneration_rate == s[i].energy.unwrap().regeneration_rate
            &&& t[i].energy.unwrap().current <= s[i].energy.unwrap().current
        })
    }
}

/// The AI phase ends in a state where it is done, and it only spends energy.
pub proof fn lemma_run_ai(s: Seq<TurnEntity>, sub: nat, last: Option<EntityId>)
    ensures
        ai_phase_done(run_ai(s, sub, last).0),
        only_spent(s, run_ai(s, sub, last).0),
        run_ai(s, sub, last).1 >= sub,
        FULL_ACTION * (run_ai(s, sub, last).1 - sub) + ai_total(run_ai(s, sub, last).0) == ai_total(s),
    decreases ai_total(s),
{
    if !ai_phase_done(s) {
        lemma_ai_round_total(s);
        let r = ai_round(s);
        lemma_run_ai(r, sub + ready_count(s), last_ready(s, last));
        let t = run_ai(r, sub + ready_count(s), last_ready(s, last)).0;
        assert forall|i: int| #![trigger t[i]] 0 <= i < s.len() implies {
            &&& t[i].id == s[i].id
            &&& t[i].actor == s[i].actor
            &&& t[i].has_ai == s[i].has_ai
            &&& t[i].progress == s[i].progress
            &&& (t[i].energy is Some <==> s[i].energy is Some)
            &&& (s[i].energy is Some ==> {
                &&& t[i].energy.unwrap().max == s[i].energy.unwrap().max
                &&& t[i].energy.unwrap().regeneration_rate == s[i].energy.unwrap().regeneration_rate
                &&& t[i].energy.unwrap().current <= s[i].energy.unwrap().current
            })
        } by {
            assert(r[i] == ai_round_entity(s[i]));
        }
    }
}

/// Energy regeneration of one entity: its pool refills by its rate, capped at
/// its maximum.
pub open spec fn regen_entity(e: TurnEntity) -> TurnEntity {
    match e.energy {
        Some(en) => with_energy(
            e,
            if en.current + en.regeneration_rate <= en.max {
                (en.current + en.regeneration_rate) as u32
            } else {
                en.max
            },
        ),
        None => e,
    }
}

/// Energy regeneration of the whole world.
pub open spec fn regen(s: Seq<TurnEntity>) -> Seq<TurnEntity> {
    Seq::new(s.len(), |i: int| regen_entity(s[i]))
}

/// Regeneration refills every pool by its rate but never past its maximum:
/// the new level is the smaller of the refilled level and the maximum, the
/// rate and the maximum stay, and nothing else about any entity changes.
pub proof fn lemma_regen_refills_to_cap(s: Seq<TurnEntity>)
    ensures
        regen(s).len() == s.len(),
        forall|i: int|
            0 <= i < s.len() ==> #[trigger] s[i].energy is None ==> regen(s)[i] == s[i],
        forall|i: int|
            0 <= i < s.len() && (#[trigger] s[i].energy) is Some ==> {
                let en = s[i].energy->0;
                let r = regen(s)[i].energy->0;
                &&& regen(s)[i].energy is Some
                &&& r.current <= en.max
                &&& r.current <= en.current + en.regeneration_rate
                &&& (r.current == en.current + en.regeneration_rate || r.current == en.max)
                &&& r.max == en.max
                &&& r.regeneration_rate == en.regeneration_rate
                &&& (TurnEntity { energy: s[i].energy, ..regen(s)[i] }) == s[i]
            },
{
}

/// Regeneration does not overflow any pool.
pub open spec fn regen_fits(s: Seq<TurnEntity>) -> bool {
    forall|i: int|
        #![trigger s[i]]
        0 <= i < s.len() && s[i].energy is Some ==> s[i].energy.unwrap().current
            + s[i].energy.unwrap().regeneration_rate <= u32::MAX
}

/// The player's turn counter advances by one, if the player tracks progress.
pub open spec fn advance_progress(s: Seq<TurnEntity>) -> Seq<TurnEntity> {
    match first_player(s) {
        Some(p) => match s[p].progress {
            Some(pp) => s.update(
                p,
                TurnEntity { progress: Some(PlayerProgress { turns: (pp.turns + 1) as u32 }), ..s[p] },
            ),
            None => s,
        },
        None => s,
    }
}

/// Advancing the player's progress does not overflow.
pub open spec fn progress_fits(s: Seq<TurnEntity>) -> bool {
    match first_player(s) {
        Some(p) => match s[p].progress {
            Some(pp) => pp.turns < u32::MAX,
            None => true,
        },
        None => true,
    }
}

/// The status the quit confirmation opens on top of `status`.
pub open spec fn quit_status(status: GameStatus) -> GameStatus {
    GameStatus::ConfirmQuit {
        return_to: if status is MainMenu {
            ReturnTo::MainMenu
        } else {
            ReturnTo::Running
        },
        selected_option: 1,
    }
}

/// The player's phase: completed actions are resolved in order; `Quit` opens
/// the quit confirmation, every other action is charged to the player.
pub open spec fn player_phase(
    meta: TurnMeta,
    taken: bool,
    s: Seq<TurnEntity>,
    status: GameStatus,
    actions: Seq<PlayerAction>,
) -> (TurnMeta, bool, Seq<TurnEntity>, GameStatus)
    decreases actions.len(),
{
    if actions.len() == 0 {
        (meta, taken, s, status)
    } else {
        let prev = player_phase(meta, taken, s, status, actions.drop_last());
        let a = actions.last();
        if a == PlayerAction::Quit {
            (prev.0, prev.1, prev.2, quit_status(prev.3))
        } else {
            let c = spec_consume(prev.0, prev.1, prev.2, a);
            (c.0, c.1, c.2, prev.3)
        }
    }
}

pub proof fn lemma_player_phase_sub_turn(
    meta: TurnMeta,
    taken: bool,
    s: Seq<TurnEntity>,
    status: GameStatus,
    actions: Seq<PlayerAction>,
)
    requires
        meta.sub_turn + actions.len() <= u32::MAX,
    ensures
        player_phase(meta, taken, s, status, actions).0.sub_turn <= meta.sub_turn + actions.len(),
    decreases actions.len(),
{
    if actions.len() > 0 {
        lemma_player_phase_sub_turn(meta, taken, s, status, actions.drop_last());
    }
}

/// Action intent with priority for queue ordering.
#[derive(Clone, Copy, Debug)]
pub struct ActionIntent {
    pub entity: EntityId,
    pub action: Action,
    pub energy_cost: u32,
    /// Higher priority acts first (for tie-breaking).
    pub priority: u32,
}

/// Priority of AI intents (the player, acting through input, outranks them).
pub const AI_PRIORITY: u32 = 100;

/// The intents queued for a world: one waiting intent per non-player entity
/// with a full action of energy, in query order.
pub open spec fn queued_intents(s: Seq<TurnEntity>) -> Seq<ActionIntent>
    decreases s.len(),
{
    if s.len() == 0 {
        seq![]
    } else {
        let rest = queued_intents(s.drop_last());
        let e = s.last();
        if e.energy is Some && e.energy->0.current >= FULL_ACTION && !is_player_entity(e) {
            rest.push(
                ActionIntent {
                    entity: e.id,
                    action: Action::AI(AIIntent::Wait),
                    energy_cost: WAIT,
                    priority: AI_PRIORITY,
                },
            )
        } else {
            rest
        }
    }
}

/// `i` is the first entity with identifier `id`.
pub open spec fn is_first_id(s: Seq<TurnEntity>, id: EntityId, i: int) -> bool {
    &&& 0 <= i < s.len()
    &&& s[i].id == id
    &&& forall|j: int| 0 <= j < i ==> (#[trigger] s[j]).id != id
}

/// The entity with its energy charged `cost` (saturating); found by
/// identifier, the first one; unchanged when none or without energy.
pub open spec fn charged(s: Seq<TurnEntity>, id: EntityId, cost: u32) -> Seq<TurnEntity> {
    if exists|i: int| is_first_id(s, id, i) {
        let i = choose|i: int| is_first_id(s, id, i);
        match s[i].energy {
            Some(en) => s.update(i, with_energy(s[i], sat_sub(en.current, cost))),
            None => s,
        }
    } else {
        s
    }
}

/// The place of the intent a priority queue hands out first: one of the
/// highest precedence, the latest queued among equals.
pub open spec fn top_index(q: Seq<ActionIntent>) -> int
    decreases q.len(),
{
    if q.len() <= 1 {
        0
    } else {
        let k = top_index(q.drop_last());
        if ranks_below(q.last(), q[k]) {
            k
        } else {
            q.len() - 1
        }
    }
}

/// The first place lies within a non-empty queue, and no queued intent
/// outranks the one there.
pub proof fn lemma_top_index(q: Seq<ActionIntent>)
    requires
        q.len() > 0,
    ensures
        0 <= top_index(q) < q.len(),
        forall|j: int| 0 <= j < q.len() ==> !ranks_below(q[top_index(q)], #[trigger] q[j]),
    decreases q.len(),
{
    if q.len() > 1 {
        lemma_top_index(q.drop_last());
        let k = top_index(q.drop_last());
        assert forall|j: int| 0 <= j < q.len() implies !ranks_below(q[top_index(q)], #[trigger] q[j]) by {
            if j < q.len() - 1 {
                assert(q.drop_last()[j] == q[j]);
                assert(!ranks_below(q.drop_last()[k], q.drop_last()[j]));
            }
        }
    }
}

/// Resolving a queue as a priority queue does: the intent of highest
/// precedence first.
pub open spec fn resolved(meta: TurnMeta, s: Seq<TurnEntity>, q: Seq<ActionIntent>) -> (TurnMeta, Seq<TurnEntity>)
    decreases q.len(),
{
    if q.len() == 0 {
        (meta, s)
    } else {
        proof {
            lemma_top_index(q);
        }
        let it = q[top_index(q)];
        resolved(
            TurnMeta { last_actor: Some(it.entity), sub_turn: (meta.sub_turn + 1) as u32, ..meta },
            charged(s, it.entity, it.energy_cost),
            q.remove(top_index(q)),
        )
    }
}

/// Finds the first entity with an identifier.
pub fn find_entity_by_id(world: &TurnWorld, id: EntityId) -> (r: Option<usize>)
    ensures
        r matches Some(i) ==> is_first_id(world.entities@, id, i as int),
        r is None ==> !exists|i: int| is_first_id(world.entities@, id, i),
{
    let n = world.entities.len();
    let mut i: usize = 0;
    while i < n
        invariant
            n == world.entities@.len(),
            0 <= i <= n,
            forall|j: int| 0 <= j < i ==> (#[trigger] world.entities@[j]).id != id,
        decreases n - i,
    {
        if world.entities[i].id == id {
            return Some(i);
        }
        i = i + 1;
    }
    None
}

/// There is at most one first entity with an identifier.
pub proof fn lemma_first_id_unique(s: Seq<TurnEntity>, id: EntityId, i: int, k: int)
    requires
        is_first_id(s, id, i),
        is_first_id(s, id, k),
    ensures
        i == k,
{
    if i < k {
        assert(s[i].id == id);
    } else if k < i {
        assert(s[k].id == id);
    }
}

impl ActionIntent {
    pub fn new(entity: EntityId, action: Action, priority: u32) -> (r: Self)
        ensures
            r.entity == entity,
            r.action == action,
            r.energy_cost == action.spec_cost(),
            r.priority == priority,
    {
        let energy_cost = action.cost();
        ActionIntent { entity, action, energy_cost, priority }
    }
}

/// Coordinates energy consumption and state transitions between player and AI.
pub struct TurnSystem {
    /// Current state of the turn system.
    pub state: TurnState,
    /// Turn metadata.
    pub meta: TurnMeta,
    /// Intent queue for action resolution.
    intent_queue: Vec<ActionIntent>,
    /// Whether the player has taken an action this turn.
    player_action_taken: bool,
}

impl TurnSystem {
    /// Current state.
    pub closed spec fn spec_state(&self) -> TurnState {
        self.state
    }

    /// Turn metadata.
    pub closed spec fn spec_meta(&self) -> TurnMeta {
        self.meta
    }

    /// Whether the player has taken an action this turn.
    pub closed spec fn spec_player_action_taken(&self) -> bool {
        self.player_action_taken
    }

    /// The pending intents.
    pub closed spec fn spec_intent_queue(&self) -> Seq<ActionIntent> {
        self.intent_queue@
    }

    pub fn new() -> (t: Self)
        ensures
            t.spec_state() == TurnState::PlayerTurn,
            t.spec_meta() == TurnMeta::initial(),
            t.spec_intent_queue().len() == 0,
            !t.spec_player_action_taken(),
    {
        TurnSystem {
            state: TurnState::PlayerTurn,
            meta: TurnMeta::new(),
            intent_queue: Vec::new(),
            player_action_taken: false,
        }
    }

    /// Deduct energy for a completed player action.
    pub fn consume_player_energy(&mut self, world: &mut TurnWorld, action: &PlayerAction) -> (r: Result<(), anyhow::Error>)
        requires
            old(self).spec_meta().sub_turn < u32::MAX,
        ensures
            r is Ok,
            (final(self).spec_meta(), final(self).spec_player_action_taken(), final(world).entities@)
                == spec_consume(old(self).spec_meta(), old(self).spec_player_action_taken(), old(world).entities@, *action),
            final(self).spec_state() == old(self).spec_state(),
            final(self).spec_intent_queue() == old(self).spec_intent_queue(),
    {
        let energy_cost = player_action_cost(action);
        if energy_cost > 0 {
            if let Some(p) = find_player(world) {
                if let Some(energy) = world.entities[p].energy {
                    let before = energy.current;
                    let current = energy.current.saturating_sub(energy_cost);
                    let mut entity = world.entities[p];
                    entity.energy = Some(Energy { current, ..energy });
                    world.entities.set(p, entity);
                    if current < before {
                        self.player_action_taken = true;
                        self.meta.set_last_actor(entity.id);
                        self.meta.advance_sub_turn();
                    }
                }
            }
        }
        Ok(())
    }

    /// Check if player has actions to process.
    pub fn has_pending_actions(&self, resources: &Resources) -> (r: bool)
        ensures
            r == (resources.input_buffer.pending_actions@.len() > 0),
    {
        resources.input_buffer.pending_actions.len() > 0
    }

    /// Whether some AI entity has a full action of energy.
    fn any_ai_ready(world: &TurnWorld) -> (r: bool)
        ensures
            r == (ready_count(world.entities@) > 0),
    {
        let n = world.entities.len();
        let mut i: usize = 0;
        while i < n
            invariant
                n == world.entities@.len(),
                0 <= i <= n,
                ready_count(world.entities@.take(i as int)) == 0,
            decreases n - i,
        {
            assert(world.entities@.take(i as int + 1).drop_last() =~= world.entities@.take(i as int));
            if ai_ready_exec(&world.entities[i]) {
                proof {
                    lemma_ready_count_prefix(world.entities@, i as int + 1);
                }
                return true;
            }
            i = i + 1;
        }
        assert(world.entities@.take(n as int) =~= world.entities@);
        false
    }

    /// One AI round: every ready AI spends a full action and is recorded as
    /// the last actor.
    fn ai_round_step(&mut self, world: &mut TurnWorld)
        requires
            old(self).spec_meta().sub_turn + ai_total(old(world).entities@) <= u32::MAX,
        ensures
            final(world).entities@ == ai_round(old(world).entities@),
            final(self).spec_meta() == (TurnMeta {
                sub_turn: (old(self).spec_meta().sub_turn + ready_count(old(world).entities@)) as u32,
                last_actor: last_ready(old(world).entities@, old(self).spec_meta().last_actor),
                ..old(self).spec_meta()
            }),
            final(self).spec_state() == old(self).spec_state(),
            final(self).spec_player_action_taken() == old(self).spec_player_action_taken(),
            final(self).spec_intent_queue() == old(self).spec_intent_queue(),
    {
        let ghost s0 = world.entities@;
        let ghost sub0 = self.meta.sub_turn;
        let ghost last0 = self.meta.last_actor;
        proof {
            lemma_ai_round_total(s0);
        }
        let n = world.entities.len();
        let mut i: usize = 0;
        while i < n
            invariant
                n == s0.len(),
                world.entities@.len() == n,
                0 <= i <= n,
                forall|j: int| 0 <= j < i ==> world.entities@[j] == ai_round_entity(s0[j]),
                forall|j: int| i <= j < n ==> world.entities@[j] == s0[j],
                self.meta == (TurnMeta {
                    sub_turn: (sub0 + ready_count(s0.take(i as int))) as u32,
                    last_actor: last_ready(s0.take(i as int), last0),
                    ..self.meta
                }),
                sub0 + ready_count(s0.take(i as int)) <= u32::MAX,
                sub0 + ready_count(s0) <= u32::MAX,
                self.meta.global_turn == old(self).spec_meta().global_turn,
                self.meta.phase == old(self).spec_meta().phase,
                self.meta.legacy_state == old(self).spec_meta().legacy_state,
                self.state == old(self).spec_state(),
                self.player_action_taken == old(self).player_action_taken,
                self.intent_queue@ == old(self).intent_queue@,
            decreases n - i,
        {
            assert(s0.take(i as int + 1).drop_last() =~= s0.take(i as int));
            let e = world.entities[i];
            if ai_ready_exec(&e) {
                proof {
                    lemma_ready_count_prefix(s0, i as int + 1);
                }
                let en = e.energy.unwrap();
                let mut e2 = e;
                e2.energy = Some(Energy { current: en.current - FULL_ACTION, ..en });
                world.entities.set(i, e2);
                self.meta.set_last_actor(e.id);
                self.meta.advance_sub_turn();
            }
            i = i + 1;
        }
        assert(s0.take(n as int) =~= s0);
        assert(world.entities@ =~= ai_round(s0));
    }

    /// Process AI turns until the player's energy is full again.
    pub fn process_ai_turns(&mut self, world: &mut TurnWorld, _resources: &mut Resources) -> (r: Result<(), anyhow::Error>)
        requires
            old(self).spec_meta().sub_turn + ai_total(old(world).entities@) <= u32::MAX,
        ensures
            r is Ok,
            ({
                let res = run_ai(old(world).entities@, old(self).spec_meta().sub_turn as nat, old(self).spec_meta().last_actor);
                &&& final(world).entities@ == res.0
                &&& final(self).spec_meta() == (TurnMeta {
                    sub_turn: res.1 as u32,
                    last_actor: res.2,
                    phase: TurnPhase::IntentQueue,
                    legacy_state: TurnState::PlayerTurn,
                    ..old(self).spec_meta()
                })
            }),
            final(self).spec_state() == TurnState::PlayerTurn,
            final(self).spec_player_action_taken() == old(self).spec_player_action_taken(),
            final(self).spec_intent_queue() == old(self).spec_intent_queue(),
            *final(_resources) == *old(_resources),
    {
        let ghost target = run_ai(old(world).entities@, old(self).spec_meta().sub_turn as nat, old(self).spec_meta().last_actor);
        self.meta.set_phase(TurnPhase::IntentQueue);
        loop
            invariant
                run_ai(world.entities@, self.meta.sub_turn as nat, self.meta.last_actor) == target,
                self.meta.sub_turn + ai_total(world.entities@) <= u32::MAX,
                self.meta.phase == TurnPhase::IntentQueue,
                self.meta.global_turn == old(self).spec_meta().global_turn,
                self.meta.legacy_state == old(self).spec_meta().legacy_state,
                self.state == old(self).spec_state(),
                self.player_action_taken == old(self).player_action_taken,
                self.intent_queue@ == old(self).intent_queue@,
            ensures
                ai_phase_done(world.entities@),
                run_ai(world.entities@, self.meta.sub_turn as nat, self.meta.last_actor) == target,
                self.meta.phase == TurnPhase::IntentQueue,
                self.meta.global_turn == old(self).spec_meta().global_turn,
                self.meta.legacy_state == old(self).spec_meta().legacy_state,
                self.state == old(self).spec_state(),
                self.player_action_taken == old(self).player_action_taken,
                self.intent_queue@ == old(self).intent_queue@,
            decreases ai_total(world.entities@),
        {
            match find_player(world) {
                None => break,
                Some(p) => {
                    if let Some(energy) = world.entities[p].energy {
                        if energy.current >= energy.max {
                            break;
                        }
                    }
                },
            }
            if !Self::any_ai_ready(world) {
                break;
            }
            proof {
                lemma_ai_round_total(world.entities@);
            }
            self.ai_round_step(world);
        }
        self.state = TurnState::PlayerTurn;
        self.meta.legacy_state = TurnState::PlayerTurn;
        Ok(())
    }

    /// Regenerate energy for all entities after a complete turn.
    pub fn regenerate_energy(&mut self, world: &mut TurnWorld)
        requires
            regen_fits(old(world).entities@),
        ensures
            final(world).entities@ == regen(old(world).entities@),
            final(self).spec_meta() == (TurnMeta { phase: TurnPhase::Aftermath, ..old(self).spec_meta() }),
            final(self).spec_state() == old(self).spec_state(),
            final(self).spec_player_action_taken() == old(self).spec_player_action_taken(),
            final(self).spec_intent_queue() == old(self).spec_intent_queue(),
    {
        self.meta.set_phase(TurnPhase::Aftermath);
        let ghost s0 = world.entities@;
        let n = world.entities.len();
        let mut i: usize = 0;
        while i < n
            invariant
                n == s0.len(),
                world.entities@.len() == n,
                0 <= i <= n,
                regen_fits(s0),
                forall|j: int| 0 <= j < i ==> world.entities@[j] == regen_entity(s0[j]),
                forall|j: int| i <= j < n ==> world.entities@[j] == s0[j],
            decreases n - i,
        {
            let e = world.entities[i];
            if let Some(en) = e.energy {
                assert(s0[i as int].energy is Some);
                let mut e2 = e;
                let sum = en.current + en.regeneration_rate;
                let current = if sum <= en.max { sum } else { en.max };
                e2.energy = Some(Energy { current, ..en });
                world.entities.set(i, e2);
            }
            i = i + 1;
        }
        assert(world.entities@ =~= regen(s0));
    }

    /// Advance player progress (turn counter).
    pub fn advance_player_progress(&mut self, world: &mut TurnWorld)
        requires
            progress_fits(old(world).entities@),
        ensures
            final(world).entities@ == advance_progress(old(world).entities@),
            *final(self) == *old(self),
    {
        if let Some(p) = find_player(world) {
            proof {
                lemma_first_player(world.entities@);
            }
            if let Some(progress) = world.entities[p].progress {
                let mut pp = progress;
                pp.advance_turn();
                let mut e = world.entities[p];
                e.progress = Some(pp);
                world.entities.set(p, e);
            }
        }
    }

    /// Process a complete turn cycle: in the player's turn, resolve the
    /// completed actions and hand over to the AI once the player has spent
    /// energy; in the AI turn, run the AI phase, regenerate energy, count the
    /// turn and hand back to the player.
    pub fn process_turn_cycle(&mut self, world: &mut TurnWorld, resources: &mut Resources) -> (r: Result<(), anyhow::Error>)
        requires
            old(self).spec_state() == TurnState::PlayerTurn ==> old(self).spec_meta().sub_turn
                + old(resources).input_buffer.completed_actions@.len() <= u32::MAX,
            old(self).spec_state() == TurnState::AITurn ==> {
                &&& old(self).spec_meta().sub_turn + ai_total(old(world).entities@) <= u32::MAX
                &&& regen_fits(old(world).entities@)
                &&& progress_fits(old(world).entities@)
                &&& old(self).spec_meta().global_turn < u32::MAX
            },
        ensures
            r is Ok,
            final(self).spec_intent_queue() == old(self).spec_intent_queue(),
            old(self).spec_state() == TurnState::PlayerTurn ==> {
                let res = player_phase(
                    TurnMeta { phase: TurnPhase::Input, ..old(self).spec_meta() },
                    old(self).spec_player_action_taken(),
                    old(world).entities@,
                    old(resources).game_state.game_state,
                    old(resources).input_buffer.completed_actions@,
                );
                &&& final(world).entities@ == res.2
                &&& final(resources).game_state.game_state == res.3
                &&& final(resources).input_buffer.completed_actions@.len() == 0
                &&& final(resources).input_buffer.pending_actions@ == old(resources).input_buffer.pending_actions@
                &&& final(resources).game_state.message_log@ == old(resources).game_state.message_log@
                &&& final(resources).game_state.depth == old(resources).game_state.depth
                &&& final(resources).game_state.selected_class == old(resources).game_state.selected_class
                &&& final(resources).clock == old(resources).clock
                &&& if res.1 {
                    &&& final(self).spec_state() == TurnState::AITurn
                    &&& final(self).spec_meta() == (TurnMeta {
                        phase: TurnPhase::IntentQueue,
                        legacy_state: TurnState::AITurn,
                        ..res.0
                    })
                    &&& !final(self).spec_player_action_taken()
                } else {
                    &&& final(self).spec_state() == TurnState::PlayerTurn
                    &&& final(self).spec_meta() == res.0
                    &&& !final(self).spec_player_action_taken()
                }
            },
            old(self).spec_state() == TurnState::AITurn ==> {
                let res = run_ai(old(world).entities@, old(self).spec_meta().sub_turn as nat, old(self).spec_meta().last_actor);
                &&& final(world).entities@ == advance_progress(regen(res.0))
                &&& final(self).spec_state() == TurnState::PlayerTurn
                &&& final(self).spec_meta() == (TurnMeta {
                    global_turn: (old(self).spec_meta().global_turn + 1) as u32,
                    sub_turn: 0,
                    last_actor: res.2,
                    phase: TurnPhase::Input,
                    legacy_state: TurnState::PlayerTurn,
                })
                &&& final(self).spec_player_action_taken() == old(self).spec_player_action_taken()
                &&& final(resources).clock.turn_count == final(self).spec_meta().global_turn
                &&& final(resources).input_buffer == old(resources).input_buffer
                &&& final(resources).game_state == old(resources).game_state
            },
            (old(self).spec_state() != TurnState::PlayerTurn && old(self).spec_state() != TurnState::AITurn) ==> {
                &&& final(self).spec_state() == old(self).spec_state()
                &&& final(self).spec_meta() == old(self).spec_meta()
                &&& final(self).spec_player_action_taken() == old(self).spec_player_action_taken()
                &&& final(world).entities@ == old(world).entities@
                &&& *final(resources) == *old(resources)
            },
    {
        match self.state {
            TurnState::PlayerTurn => {
                self.meta.set_phase(TurnPhase::Input);
                let mut completed: Vec<PlayerAction> = Vec::new();
                std::mem::swap(&mut completed, &mut resources.input_buffer.completed_actions);
                let ghost meta0 = self.meta;
                let ghost taken0 = self.player_action_taken;
                let ghost s0 = world.entities@;
                let ghost status0 = resources.game_state.game_state;
                let n = completed.len();
                let mut i: usize = 0;
                while i < n
                    invariant
                        n == completed@.len(),
                        0 <= i <= n,
                        meta0.sub_turn + n <= u32::MAX,
                        ({
                            let res = player_phase(meta0, taken0, s0, status0, completed@.take(i as int));
                            &&& self.meta == res.0
                            &&& self.player_action_taken == res.1
                            &&& world.entities@ == res.2
                            &&& resources.game_state.game_state == res.3
                        }),
                        self.state == old(self).spec_state(),
                        self.intent_queue@ == old(self).intent_queue@,
                        resources.input_buffer.completed_actions@.len() == 0,
                        resources.input_buffer.pending_actions@ == old(resources).input_buffer.pending_actions@,
                        resources.game_state.message_log@ == old(resources).game_state.message_log@,
                        resources.game_state.depth == old(resources).game_state.depth,
                        resources.game_state.selected_class == old(resources).game_state.selected_class,
                        resources.clock == old(resources).clock,
                    decreases n - i,
                {
                    let ghost pre = completed@.take(i as int);
                    assert(completed@.take(i as int + 1).drop_last() =~= pre);
                    proof {
                        lemma_player_phase_sub_turn(meta0, taken0, s0, status0, pre);
                    }
                    let action = completed[i];
                    if action == PlayerAction::Quit {
                        let return_to = match resources.game_state.game_state {
                            GameStatus::MainMenu { .. } => ReturnTo::MainMenu,
                            _ => ReturnTo::Running,
                        };
                        resources.game_state.game_state = GameStatus::ConfirmQuit {
                            return_to,
                            selected_option: 1,
                        };
                    } else {
                        let _ = self.consume_player_energy(world, &action);
                    }
                    i = i + 1;
                }
                assert(completed@.take(n as int) =~= completed@);
                if self.player_action_taken {
                    self.state = TurnState::AITurn;
                    self.meta.legacy_state = TurnState::AITurn;
                    self.meta.set_phase(TurnPhase::IntentQueue);
                    self.player_action_taken = false;
                }
            },
            TurnState::AITurn => {
                let ghost s0 = world.entities@;
                let _ = self.process_ai_turns(world, resources);
                proof {
                    lemma_run_ai(s0, old(self).spec_meta().sub_turn as nat, old(self).spec_meta().last_actor);
                    let t = world.entities@;
                    assert forall|i: int| #![trigger t[i]]
                        0 <= i < t.len() && t[i].energy is Some implies t[i].energy.unwrap().current
                        + t[i].energy.unwrap().regeneration_rate <= u32::MAX by {
                        assert(s0[i].energy is Some);
                    }
                    lemma_first_player_same_actors(s0, t);
                }
                self.regenerate_energy(world);
                proof {
                    let t = world.entities@;
                    let u = run_ai(s0, old(self).spec_meta().sub_turn as nat, old(self).spec_meta().last_actor).0;
                    assert forall|i: int| 0 <= i < t.len() implies (#[trigger] t[i]).actor == u[i].actor by {
                        assert(t[i] == regen_entity(u[i]));
                    }
                    lemma_first_player_same_actors(t, u);
                    lemma_first_player(u);
                    lemma_first_player(s0);
                    if first_player(u) is Some {
                        let p = first_player(u).unwrap();
                        assert(t[p] == regen_entity(u[p]));
                    }
                }
                self.advance_player_progress(world);
                self.meta.advance_global_turn();
                resources.clock.turn_count = self.meta.global_turn;
                self.state = TurnState::PlayerTurn;
                self.meta.legacy_state = TurnState::PlayerTurn;
                self.meta.set_phase(TurnPhase::Input);
            },
            _ => {},
        }
        Ok(())
    }

    /// Check if it's currently the player's turn.
    pub fn is_player_turn(&self) -> (r: bool)
        ensures
            r == (self.spec_state() == TurnState::PlayerTurn),
    {
        matches!(self.state, TurnState::PlayerTurn)
    }

    /// Check if it's currently an AI turn.
    pub fn is_ai_turn(&self) -> (r: bool)
        ensures
            r == (self.spec_state() == TurnState::AITurn),
    {
        matches!(self.state, TurnState::AITurn)
    }

    /// Get whether player has taken an action this turn.
    pub fn player_action_taken(&self) -> (r: bool)
        ensures
            r == self.spec_player_action_taken(),
    {
        self.player_action_taken
    }

    /// Set the turn system state from saved data.
    pub fn set_state(&mut self, state: TurnState, player_action_taken: bool)
        ensures
            final(self).spec_state() == state,
            final(self).spec_meta() == (TurnMeta { legacy_state: state, ..old(self).spec_meta() }),
            final(self).spec_player_action_taken() == player_action_taken,
            final(self).spec_intent_queue() == old(self).spec_intent_queue(),
    {
        self.state = state;
        self.meta.legacy_state = state;
        self.player_action_taken = player_action_taken;
    }

    /// Get entities in turn order: every entity with an energy pool, with its
    /// current energy, highest energy first; equal energies keep query order.
    pub fn get_turn_order(&self, world: &TurnWorld) -> (r: Vec<(EntityId, u32)>)
        ensures
            r@ == sort_by_energy(energy_pairs(world.entities@)),
            sorted_by_energy_desc(r@),
            r@.to_multiset() == energy_pairs(world.entities@).to_multiset(),
    {
        let ghost s = world.entities@;
        let mut r: Vec<(EntityId, u32)> = Vec::new();
        let n = world.entities.len();
        let mut i: usize = 0;
        while i < n
            invariant
                n == s.len(),
                s == world.entities@,
                0 <= i <= n,
                r@ == sort_by_energy(energy_pairs(s.take(i as int))),
            decreases n - i,
        {
            assert(s.take(i as int + 1).drop_last() =~= s.take(i as int));
            assert(s.take(i as int + 1).last() == s[i as int]);
            let e = world.entities[i];
            if let Some(en) = e.energy {
                let ghost p = energy_pairs(s.take(i as int + 1));
                assert(p == energy_pairs(s.take(i as int)).push((e.id, en.current)));
                proof {
                    lemma_sort_by_energy(energy_pairs(s.take(i as int)));
                    lemma_first_below(r@, en.current);
                }
                let m = r.len();
                let mut k: usize = 0;
                while k < m && r[k].1 >= en.current
                    invariant
                        m == r@.len(),
                        0 <= k <= m,
                        k <= first_below(r@, en.current),
                        0 <= first_below(r@, en.current) <= r@.len(),
                        forall|q: int| 0 <= q < first_below(r@, en.current) ==> r@[q].1 >= en.current,
                        forall|q: int| first_below(r@, en.current) <= q < r@.len() ==> r@[q].1 < en.current,
                    decreases m - k,
                {
                    k = k + 1;
                }
                assert(k == first_below(r@, en.current));
                assert(p.drop_last() =~= energy_pairs(s.take(i as int)));
                assert(p.last() == (e.id, en.current));
                r.insert(k, (e.id, en.current));
            } else {
                assert(energy_pairs(s.take(i as int + 1)) == energy_pairs(s.take(i as int)));
            }
            i = i + 1;
        }
        assert(s.take(n as int) =~= s);
        proof {
            lemma_sort_by_energy(energy_pairs(s));
        }
        r
    }

    /// Queues a waiting intent for every non-player entity with a full
    /// action of energy, in query order (the player acts through its input).
    fn build_intent_queue(&mut self, world: &TurnWorld)
        ensures
            final(self).spec_intent_queue() == queued_intents(world.entities@),
            final(self).spec_meta() == old(self).spec_meta(),
            final(self).spec_state() == old(self).spec_state(),
            final(self).spec_player_action_taken() == old(self).spec_player_action_taken(),
    {
        self.intent_queue.clear();
        let n = world.entities.len();
        let mut i: usize = 0;
        while i < n
            invariant
                n == world.entities@.len(),
                0 <= i <= n,
                self.intent_queue@ == queued_intents(world.entities@.take(i as int)),
                self.meta == old(self).meta,
                self.state == old(self).state,
                self.player_action_taken == old(self).player_action_taken,
            decreases n - i,
        {
            assert(world.entities@.take(i as int + 1).drop_last() =~= world.entities@.take(i as int));
            let e = world.entities[i];
            match e.energy {
                Some(en) => {
                    if en.current >= FULL_ACTION && !is_player(world, i) {
                        let intent = ActionIntent::new(e.id, Action::AI(AIIntent::Wait), AI_PRIORITY);
                        self.intent_queue.push(intent);
                    }
                },
                None => {},
            }
            i = i + 1;
        }
        assert(world.entities@.take(n as int) =~= world.entities@);
    }

    /// Resolves the queued intents in precedence order, as a priority queue
    /// hands them out (the highest priority first, the cheaper action first
    /// among equal priorities, the latest queued among equals): each actor
    /// pays the intent's cost (saturating at zero), becomes the last actor,
    /// and the sub-turn advances. The queue ends empty.
    fn resolve_intents(&mut self, world: &mut TurnWorld) -> (r: Result<(), anyhow::Error>)
        requires
            old(self).spec_meta().sub_turn + old(self).spec_intent_queue().len() <= u32::MAX,
        ensures
            r is Ok,
            (final(self).spec_meta(), final(world).entities@) == resolved(
                old(self).spec_meta(),
                old(world).entities@,
                old(self).spec_intent_queue(),
            ),
            final(self).spec_intent_queue().len() == 0,
            final(self).spec_state() == old(self).spec_state(),
            final(self).spec_player_action_taken() == old(self).spec_player_action_taken(),
    {
        while self.intent_queue.len() > 0
            invariant
                self.meta.sub_turn + self.intent_queue@.len() <= u32::MAX,
                resolved(self.meta, world.entities@, self.intent_queue@) == resolved(
                    old(self).meta,
                    old(world).entities@,
                    old(self).intent_queue@,
                ),
                self.state == old(self).state,
                self.player_action_taken == old(self).player_action_taken,
            decreases self.intent_queue@.len(),
        {
            let ghost q = self.intent_queue@;
            let n = self.intent_queue.len();
            let mut best: usize = 0;
            let mut j: usize = 1;
            assert(q.take(1).len() == 1);
            while j < n
                invariant
                    n == q.len(),
                    q == self.intent_queue@,
                    1 <= j <= n,
                    best == top_index(q.take(j as int)),
                decreases n - j,
            {
                proof {
                    lemma_top_index(q.take(j as int));
                    assert(q.take(j as int + 1).drop_last() =~= q.take(j as int));
                }
                if !intent_ranks_below(&self.intent_queue[j], &self.intent_queue[best]) {
                    best = j;
                }
                j = j + 1;
            }
            assert(q.take(n as int) =~= q);
            proof {
                lemma_top_index(q);
            }
            let intent = self.intent_queue.remove(best);
            assert(intent == q[top_index(q)]);
            let ghost s0 = world.entities@;
            match find_entity_by_id(world, intent.entity) {
                Some(i) => {
                    proof {
                        let k = choose|k: int| is_first_id(s0, intent.entity, k);
                        lemma_first_id_unique(s0, intent.entity, i as int, k);
                    }
                    let mut e = world.entities[i];
                    match e.energy {
                        Some(en) => {
                            e.energy = Some(Energy { current: en.current.saturating_sub(intent.energy_cost), ..en });
                            world.entities.set(i, e);
                        },
                        None => {},
                    }
                },
                None => {},
            }
            self.meta.set_last_actor(intent.entity);
            self.meta.advance_sub_turn();
        }
        Ok(())
    }

    /// Get current turn metadata.
    pub fn get_meta(&self) -> (r: &TurnMeta)
        ensures
            *r == self.spec_meta(),
    {
        &self.meta
    }
}

impl Default for TurnSystem {
    fn default() -> (t: Self)
        ensures
            t.spec_state() == TurnState::PlayerTurn,
            t.spec_meta() == TurnMeta::initial(),
            t.spec_intent_queue().len() == 0,
            !t.spec_player_action_taken(),
    {
        Self::new()
    }
}

/// (entity, current energy) of every entity with an energy pool, in query order.
pub open spec fn energy_pairs(s: Seq<TurnEntity>) -> Seq<(EntityId, u32)>
    decreases s.len(),
{
    if s.len() == 0 {
        Seq::empty()
    } else {
        let p = energy_pairs(s.drop_last());
        match s.last().energy {
            Some(e) => p.push((s.last().id, e.current)),
            None => p,
        }
    }
}

/// Ordered by energy, highest first.
pub open spec fn sorted_by_energy_desc(r: Seq<(EntityId, u32)>) -> bool {
    forall|i: int, j: int| 0 <= i < j < r.len() ==> r[i].1 >= r[j].1
}

/// Position at which an entry with energy `v` goes into a list ordered by
/// energy: after every entry with at least as much energy.
pub open spec fn first_below(r: Seq<(EntityId, u32)>, v: u32) -> int
    decreases r.len(),
{
    if r.len() == 0 {
        0
    } else if r[0].1 < v {
        0
    } else {
        1 + first_below(r.drop_first(), v)
    }
}

/// Stable insertion of one entry into a list ordered by energy.
pub open spec fn insert_by_energy(r: Seq<(EntityId, u32)>, x: (EntityId, u32)) -> Seq<(EntityId, u32)> {
    r.insert(first_below(r, x.1), x)
}

/// Stable ordering by energy, highest first.
pub open spec fn sort_by_energy(p: Seq<(EntityId, u32)>) -> Seq<(EntityId, u32)>
    decreases p.len(),
{
    if p.len() == 0 {
        Seq::empty()
    } else {
        insert_by_energy(sort_by_energy(p.drop_last()), p.last())
    }
}

pub proof fn lemma_first_below(r: Seq<(EntityId, u32)>, v: u32)
    requires
        sorted_by_energy_desc(r),
    ensures
        0 <= first_below(r, v) <= r.len(),
        forall|i: int| 0 <= i < first_below(r, v) ==> r[i].1 >= v,
        forall|i: int| first_below(r, v) <= i < r.len() ==> r[i].1 < v,
    decreases r.len(),
{
    if r.len() > 0 && r[0].1 >= v {
        lemma_first_below(r.drop_first(), v);
        assert forall|i: int| 1 <= i < r.len() implies r.drop_first()[i - 1] == r[i] by {}
    }
}

/// Ordering by energy keeps every entry and puts the highest energy first.
pub proof fn lemma_sort_by_energy(p: Seq<(EntityId, u32)>)
    ensures
        sorted_by_energy_desc(sort_by_energy(p)),
        sort_by_energy(p).to_multiset() == p.to_multiset(),
        sort_by_energy(p).len() == p.len(),
    decreases p.len(),
{
    broadcast use vstd::seq_lib::group_to_multiset_ensures;
    if p.len() > 0 {
        let r = sort_by_energy(p.drop_last());
        lemma_sort_by_energy(p.drop_last());
        lemma_first_below(r, p.last().1);
        let k = first_below(r, p.last().1);
        let t = r.insert(k, p.last());
        assert forall|i: int, j: int| 0 <= i < j < t.len() implies t[i].1 >= t[j].1 by {
            if j < k {
            } else if j == k {
            } else if i < k {
                assert(t[j] == r[j - 1]);
            } else if i == k {
                assert(t[j] == r[j - 1]);
            } else {
                assert(t[j] == r[j - 1]);
                assert(t[i] == r[i - 1]);
            }
        }
        assert(p =~= p.drop_last().push(p.last()));
    }
}

/// Executable test of `ai_ready`.
pub fn ai_ready_exec(e: &TurnEntity) -> (r: bool)
    ensures
        r == ai_ready(*e),
{
    match (e.actor, e.energy) {
        (Some(_), Some(en)) => e.has_ai && en.current >= FULL_ACTION,
        _ => false,
    }
}

} // verus!

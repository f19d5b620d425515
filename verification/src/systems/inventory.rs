//! Using, dropping and picking up items.

use vstd::prelude::*;
use crate::dice::roll_range;
use crate::ecs::{capped_push_view, log_view, EntityId, GameState, PlayerAction, Resources};
use crate::systems::SystemResult;
use crate::text::{decimal, push_decimal, push_signed_decimal, signed_decimal};
use crate::turn_system::sat_sub;
use crate::world::{
    entity_view, find_player_entity, player_index, world_view, ConsumableEffect, EcsItem,
    EntityView, GameWorld, Inventory, InventoryView, ItemSlot, ItemType, Position, StatType,
    Stats, TerrainType, Tile, WorldEntity,
};

verus! {

/// Lowest coordinate a teleport can land on.
pub const TELEPORT_BASE: i32 = 5;

/// Number of columns (and of rows) a teleport can land on.
pub const TELEPORT_SPAN: u32 = 15;

/// Statistics after a heal: up by the amount, never past the maximum.
pub open spec fn healed(st: Stats, amount: u32) -> Stats {
    Stats {
        hp: if st.hp + amount <= st.max_hp {
            (st.hp + amount) as u32
        } else {
            st.max_hp
        },
        ..st
    }
}

/// A statistic moved by a signed amount, as a signed number, and read back
/// as unsigned.
pub open spec fn shifted(v: u32, by: i32) -> u32 {
    ((v as i32) + by) as u32
}

/// Statistics after a buff.
pub open spec fn buffed(st: Stats, stat: StatType, value: i32) -> Stats {
    match stat {
        StatType::Hp => Stats { max_hp: shifted(st.max_hp, value), ..st },
        StatType::Attack => Stats { attack: shifted(st.attack, value), ..st },
        StatType::Defense => Stats { defense: shifted(st.defense, value), ..st },
        StatType::Accuracy => Stats { accuracy: shifted(st.accuracy, value), ..st },
        StatType::Evasion => Stats { evasion: shifted(st.evasion, value), ..st },
    }
}

/// The statistic a buff moves.
pub open spec fn stat_value(st: Stats, stat: StatType) -> u32 {
    match stat {
        StatType::Hp => st.max_hp,
        StatType::Attack => st.attack,
        StatType::Defense => st.defense,
        StatType::Accuracy => st.accuracy,
        StatType::Evasion => st.evasion,
    }
}

/// Statistics after drinking a consumable that acts on them.
pub open spec fn affected(st: Stats, effect: ConsumableEffect) -> Stats {
    match effect {
        ConsumableEffect::Healing { amount } => healed(st, amount),
        ConsumableEffect::Damage { amount } => Stats { hp: sat_sub(st.hp, amount), ..st },
        ConsumableEffect::Buff { stat, value, .. } => buffed(st, stat, value),
        _ => st,
    }
}

/// The arithmetic of a consumable fits the statistic types.
pub open spec fn effect_fits(st: Stats, effect: ConsumableEffect) -> bool {
    match effect {
        ConsumableEffect::Healing { amount } => st.hp + amount <= u32::MAX,
        ConsumableEffect::Buff { stat, value, .. } => i32::MIN <= (stat_value(st, stat) as i32)
            + value <= i32::MAX,
        _ => true,
    }
}

/// A buff moves exactly the statistic it names, by its value (read as a
/// signed number), and leaves every other statistic, the hit points, the
/// level and the experience as they were.
pub proof fn lemma_buff_moves_its_stat(st: Stats, stat: StatType, value: i32, duration: u32, other: StatType)
    requires
        effect_fits(st, ConsumableEffect::Buff { stat, value, duration }),
    ensures
        ({
            let r = affected(st, ConsumableEffect::Buff { stat, value, duration });
            &&& (stat_value(r, stat) as i32) == (stat_value(st, stat) as i32) + value
            &&& other != stat ==> stat_value(r, other) == stat_value(st, other)
            &&& r.hp == st.hp
            &&& r.level == st.level
            &&& r.experience == st.experience
        }),
{
    let x = stat_value(st, stat);
    assert((((x as i32) + value) as u32) as i32 == (x as i32) + value) by (bit_vector)
        requires
            i32::MIN <= (x as i32) + value <= i32::MAX,
    ;
}

/// A heal raises hit points by its amount, but never past the maximum; a
/// damage lowers them by its amount, down to zero at most. Neither touches
/// any other statistic.
pub proof fn lemma_heal_and_damage(st: Stats, amount: u32)
    ensures
        ({
            let h = affected(st, ConsumableEffect::Healing { amount });
            &&& st.hp + amount <= st.max_hp ==> h.hp == st.hp + amount
            &&& st.hp + amount > st.max_hp ==> h.hp == st.max_hp
            &&& (Stats { hp: st.hp, ..h }) == st
        }),
        ({
            let d = affected(st, ConsumableEffect::Damage { amount });
            &&& d.hp + amount >= st.hp
            &&& d.hp <= st.hp
            &&& (d.hp == 0 || d.hp + amount == st.hp)
            &&& (Stats { hp: st.hp, ..d }) == st
        }),
{
}

/// A heal never raises hit points past the maximum, nor lowers them.
pub proof fn lemma_heal_capped(st: Stats, amount: u32)
    requires
        st.hp <= st.max_hp,
    ensures
        st.hp <= healed(st, amount).hp <= st.max_hp,
{
}

/// The word of a buff message.
pub open spec fn buff_word(stat: StatType) -> Seq<char> {
    match stat {
        StatType::Hp => "healthier ("@,
        StatType::Attack => "stronger ("@,
        StatType::Defense => "tougher ("@,
        StatType::Accuracy => "more accurate ("@,
        StatType::Evasion => "more evasive ("@,
    }
}

/// The message of drinking a consumable named `name`.
pub open spec fn effect_message(name: Seq<char>, effect: ConsumableEffect) -> Seq<char> {
    match effect {
        ConsumableEffect::Healing { amount } => "You drink a "@ + name + ", healing "@ + decimal(
            amount as nat,
        ) + " HP."@,
        ConsumableEffect::Damage { amount } => "You drink a "@ + name + ", taking "@ + decimal(
            amount as nat,
        ) + " damage!"@,
        ConsumableEffect::Buff { stat, value, .. } => "You feel "@ + buff_word(stat)
            + signed_decimal(value as int) + ")!"@,
        ConsumableEffect::Teleport => "You teleport randomly!"@,
        ConsumableEffect::Identify => "You feel more perceptive."@,
    }
}

/// The parts of the player that item actions touch: statistics, backpack
/// and position.
pub type PlayerParts = (Option<Stats>, Option<InventoryView>, Option<Position>);

/// What one item action does to the player: the new parts, the message
/// logged (if any), whether the action is handed back, and the item dropped
/// (if any).
pub type ItemOutcome = (PlayerParts, Option<Seq<char>>, bool, Option<EcsItem>);

/// Using the item in `slot`; `roll` gives the offsets of a teleport.
pub open spec fn use_outcome(parts: PlayerParts, slot: usize, roll: (u32, u32)) -> ItemOutcome {
    let (stats, inv, pos) = parts;
    match inv {
        None => (parts, None, true, None),
        Some(iv) => if slot < iv.items.len() {
            match iv.items[slot as int].item {
                Some(item) => match item.item_type {
                    ItemType::Consumable { effect } => {
                        let inv2 = Some(
                            InventoryView {
                                items: iv.items.remove(slot as int),
                                max_slots: iv.max_slots,
                            },
                        );
                        let message = Some(effect_message(item.name@, effect));
                        match effect {
                            ConsumableEffect::Teleport => match pos {
                                Some(p) => (
                                    (
                                        stats,
                                        inv2,
                                        Some(
                                            Position {
                                                x: (TELEPORT_BASE + roll.0) as i32,
                                                y: (TELEPORT_BASE + roll.1) as i32,
                                                z: p.z,
                                            },
                                        ),
                                    ),
                                    message,
                                    false,
                                    None,
                                ),
                                None => ((stats, inv2, pos), None, false, None),
                            },
                            ConsumableEffect::Identify => ((stats, inv2, pos), message, false, None),
                            _ => match stats {
                                Some(st) => ((Some(affected(st, effect)), inv2, pos), message, false, None),
                                None => ((stats, inv2, pos), None, false, None),
                            },
                        }
                    },
                    _ => (parts, Some("Cannot use this item."@), false, None),
                },
                None => (parts, Some("No item in this slot."@), false, None),
            }
        } else {
            (parts, Some("Invalid inventory slot."@), true, None)
        },
    }
}

/// Dropping the item in `slot`.
pub open spec fn drop_outcome(parts: PlayerParts, slot: usize) -> ItemOutcome {
    let (stats, inv, pos) = parts;
    match pos {
        None => (parts, None, true, None),
        Some(_) => match inv {
            None => (parts, None, true, None),
            Some(iv) => if slot < iv.items.len() {
                let inv2 = Some(
                    InventoryView { items: iv.items.remove(slot as int), max_slots: iv.max_slots },
                );
                match iv.items[slot as int].item {
                    Some(item) => (
                        (stats, inv2, pos),
                        Some("You dropped "@ + item.name@ + "."@),
                        false,
                        Some(item),
                    ),
                    None => ((stats, inv2, pos), Some("No item in this slot to drop."@), true, None),
                }
            } else {
                (parts, Some("Invalid inventory slot."@), true, None)
            },
        },
    }
}

/// The arithmetic of using `slot` fits.
pub open spec fn use_fits(parts: PlayerParts, slot: usize) -> bool {
    match (parts.0, parts.1) {
        (Some(st), Some(iv)) => slot < iv.items.len() ==> match iv.items[slot as int].item {
            Some(item) => match item.item_type {
                ItemType::Consumable { effect } => effect_fits(st, effect),
                _ => true,
            },
            None => true,
        },
        _ => true,
    }
}

/// The player parts of an entity.
pub open spec fn parts_of(e: EntityView) -> PlayerParts {
    (e.stats, e.inventory, e.position)
}

/// The entity with the given player parts.
pub open spec fn with_parts(e: EntityView, p: PlayerParts) -> EntityView {
    EntityView { stats: p.0, inventory: p.1, position: p.2, ..e }
}

/// A dropped item lying on the floor.
pub open spec fn dropped_entity(id: u64, pos: Position, item: EcsItem) -> EntityView {
    EntityView {
        id: EntityId(id),
        is_player: false,
        position: Some(pos),
        tile: Some(floor_item_tile()),
        actor: None,
        stats: None,
        energy: None,
        hunger: None,
        inventory: None,
        item: Some(item),
        ai: None,
        effects: None,
    }
}

/// The tile under an item lying on the floor.
pub open spec fn floor_item_tile() -> Tile {
    Tile {
        terrain_type: TerrainType::Empty,
        is_passable: true,
        blocks_sight: false,
        has_items: true,
        has_monster: false,
    }
}

/// The entities, the next identifier, the message texts and the actions
/// handed back.
pub type ItemState = (Seq<EntityView>, u64, Seq<Seq<char>>, Seq<PlayerAction>);

/// `i` is the first entity with the player component.
pub open spec fn first_player_at(s: Seq<EntityView>, i: int) -> bool {
    &&& 0 <= i < s.len()
    &&& s[i].is_player
    &&& forall|j: int| 0 <= j < i ==> !(#[trigger] s[j]).is_player
}

/// The first player entity, if any: the one whose items are used and dropped.
pub open spec fn first_player(s: Seq<EntityView>) -> Option<int> {
    if exists|i: int| first_player_at(s, i) {
        Some(choose|i: int| first_player_at(s, i))
    } else {
        None
    }
}

/// The outcome of an item action on the player parts.
pub open spec fn item_outcome(parts: PlayerParts, a: PlayerAction, roll: (u32, u32)) -> ItemOutcome {
    match a {
        PlayerAction::UseItem(slot) => use_outcome(parts, slot, roll),
        PlayerAction::DropItem(slot) => drop_outcome(parts, slot),
        _ => (parts, None, true, None),
    }
}

/// One action of the item system.
pub open spec fn item_step(v: ItemState, a: PlayerAction, roll: (u32, u32)) -> ItemState {
    let (ents, next, log, back) = v;
    let is_item_action = a is UseItem || a is DropItem;
    match first_player(ents) {
        Some(p) if is_item_action => {
            let (parts, message, hand_back, dropped) = item_outcome(parts_of(ents[p]), a, roll);
            let ents2 = ents.update(p, with_parts(ents[p], parts));
            let (ents3, next3) = match dropped {
                Some(item) => (ents2.push(dropped_entity(next, parts.2->0, item)), (next + 1) as u64),
                None => (ents2, next),
            };
            (
                ents3,
                next3,
                match message {
                    Some(m) => capped_push_view(log, m),
                    None => log,
                },
                if hand_back {
                    back.push(a)
                } else {
                    back
                },
            )
        },
        _ => (ents, next, log, back.push(a)),
    }
}

/// The actions handled in order, with one teleport roll per action.
pub open spec fn item_run(v: ItemState, actions: Seq<PlayerAction>, rolls: Seq<(u32, u32)>) -> ItemState
    decreases actions.len(),
{
    if actions.len() == 0 {
        v
    } else {
        item_step(
            item_run(v, actions.drop_last(), rolls.drop_last()),
            actions.last(),
            rolls.last(),
        )
    }
}

/// No teleport offsets at all.
pub open spec fn no_rolls(n: nat) -> Seq<(u32, u32)> {
    Seq::new(n, |i: int| (0u32, 0u32))
}

/// The arithmetic of every action fits.
pub open spec fn item_run_fits(v: ItemState, actions: Seq<PlayerAction>) -> bool
    decreases actions.len(),
{
    if actions.len() == 0 {
        true
    } else {
        let before = item_run(v, actions.drop_last(), no_rolls((actions.len() - 1) as nat));
        &&& item_run_fits(v, actions.drop_last())
        &&& match (first_player(before.0), actions.last()) {
            (Some(p), PlayerAction::UseItem(slot)) => use_fits(parts_of(before.0[p]), slot),
            _ => true,
        }
    }
}

/// Free slots of a backpack (none without one).
pub open spec fn room_of(inv: Option<InventoryView>) -> nat {
    match inv {
        Some(iv) => sat_sub_usize(iv.max_slots, iv.items.len()),
        None => 0,
    }
}

pub open spec fn sat_sub_usize(a: usize, b: nat) -> nat {
    if a >= b {
        (a - b) as nat
    } else {
        0
    }
}

/// A player that picks up: it has a position and acts.
pub open spec fn is_picker(e: EntityView) -> bool {
    e.is_player && e.position is Some && e.actor is Some
}

/// The indices, among the first `k` entities, of the items lying at `pos`,
/// in order, as many as `room` allows.
pub open spec fn picks(s: Seq<EntityView>, pos: Position, room: nat, k: int) -> Seq<int>
    decreases k,
{
    if k <= 0 {
        seq![]
    } else {
        let t = picks(s, pos, room, k - 1);
        if s[k - 1].position == Some(pos) && s[k - 1].item is Some && t.len() < room {
            t.push(k - 1)
        } else {
            t
        }
    }
}

/// The pickups planned for the players among the first `k` entities: pairs
/// of a player and an item, player by player.
pub open spec fn plan(s: Seq<EntityView>, k: int) -> Seq<(int, int)>
    decreases k,
{
    if k <= 0 {
        seq![]
    } else {
        let pl = plan(s, k - 1);
        let e = s[k - 1];
        if is_picker(e) && room_of(e.inventory) > 0 {
            pl + picks(s, e.position->0, room_of(e.inventory), s.len() as int).map_values(
                |j: int| (k - 1, j),
            )
        } else {
            pl
        }
    }
}

/// The log after telling each of the players among the first `k` entities
/// whose backpack has no room that it is full.
pub open spec fn full_log(s: Seq<EntityView>, log: Seq<Seq<char>>, k: int) -> Seq<Seq<char>>
    decreases k,
{
    if k <= 0 {
        log
    } else {
        let l = full_log(s, log, k - 1);
        let e = s[k - 1];
        if is_picker(e) && room_of(e.inventory) == 0 {
            capped_push_view(l, "Your inventory is full!"@)
        } else {
            l
        }
    }
}

/// Entities, which of them are gone, and the log, while pickups are carried out.
pub type PickupState = (Seq<EntityView>, Seq<bool>, Seq<Seq<char>>);

/// One planned pickup of item `j` (as it lay in `orig`) by player `p`: a
/// player already gone picks up nothing; one with room takes the item, which
/// is then gone; one without room is told its backpack is full.
pub open spec fn pickup_pair(orig: Seq<EntityView>, st: PickupState, pair: (int, int)) -> PickupState {
    let (cur, gone, log) = st;
    let (p, j) = pair;
    if gone[p] {
        st
    } else {
        match cur[p].inventory {
            Some(iv) => if iv.items.len() < iv.max_slots {
                (
                    cur.update(
                        p,
                        EntityView {
                            inventory: Some(
                                InventoryView {
                                    items: iv.items.push(ItemSlot { item: orig[j].item, quantity: 1 }),
                                    max_slots: iv.max_slots,
                                },
                            ),
                            ..cur[p]
                        },
                    ),
                    gone.update(j, true),
                    capped_push_view(log, "You picked up "@ + orig[j].item->0.name@ + "."@),
                )
            } else {
                (cur, gone, capped_push_view(log, "Your inventory is full!"@))
            },
            None => st,
        }
    }
}

/// The planned pickups carried out in order.
pub open spec fn pickup_run(orig: Seq<EntityView>, pairs: Seq<(int, int)>, st: PickupState) -> PickupState
    decreases pairs.len(),
{
    if pairs.len() == 0 {
        st
    } else {
        pickup_pair(orig, pickup_run(orig, pairs.drop_last(), st), pairs.last())
    }
}

/// The entities not gone, in order.
pub open spec fn survivors(s: Seq<EntityView>, gone: Seq<bool>) -> Seq<EntityView>
    decreases s.len(),
{
    if s.len() == 0 || gone.len() == 0 {
        s
    } else {
        let rest = survivors(s.skip(1), gone.skip(1));
        if gone[0] {
            rest
        } else {
            seq![s[0]] + rest
        }
    }
}

/// Every player standing on items picks up, in order of the entities, as
/// many of the items at its place as its backpack has room for (the items
/// are chosen before any is taken); a player without room is told its
/// backpack is full. Items taken leave the world.
pub open spec fn pickup(v: ItemState) -> (Seq<EntityView>, Seq<Seq<char>>) {
    let (ents, _, log, _) = v;
    let n = ents.len() as int;
    let done = pickup_run(ents, plan(ents, n), (ents, Seq::new(n as nat, |i: int| false), full_log(ents, log, n)));
    (survivors(done.0, done.1), done.2)
}

/// Two item states that differ at most in where things stand (a teleport
/// roll changes only positions).
pub open spec fn entities_agree(a: EntityView, b: EntityView) -> bool {
    &&& EntityView { position: None, ..a } == EntityView { position: None, ..b }
    &&& (a.position is Some <==> b.position is Some)
}

pub open spec fn states_agree(v: ItemState, w: ItemState) -> bool {
    &&& v.0.len() == w.0.len()
    &&& forall|i: int| 0 <= i < v.0.len() ==> entities_agree(#[trigger] v.0[i], w.0[i])
    &&& v.1 == w.1
    &&& v.2 == w.2
    &&& v.3 == w.3
}

/// The first player is unique.
pub proof fn lemma_first_player_at_unique(s: Seq<EntityView>, i: int, k: int)
    requires
        first_player_at(s, i),
        first_player_at(s, k),
    ensures
        i == k,
{
    if i < k {
        assert(!s[i].is_player);
    } else if k < i {
        assert(!s[k].is_player);
    }
}

/// `first_player` names the first player entity.
pub proof fn lemma_first_player(s: Seq<EntityView>, i: int)
    requires
        first_player_at(s, i),
    ensures
        first_player(s) == Some(i),
{
    let k = choose|k: int| first_player_at(s, k);
    lemma_first_player_at_unique(s, i, k);
}

/// Two worlds whose entities are players at the same places have the same
/// first player.
pub proof fn lemma_first_player_agree(a: Seq<EntityView>, b: Seq<EntityView>)
    requires
        a.len() == b.len(),
        forall|i: int| 0 <= i < a.len() ==> (#[trigger] a[i]).is_player == b[i].is_player,
    ensures
        first_player(a) == first_player(b),
{
    if exists|i: int| first_player_at(a, i) {
        let i = choose|i: int| first_player_at(a, i);
        assert forall|j: int| 0 <= j < i implies !(#[trigger] b[j]).is_player by {
            assert(!a[j].is_player);
        }
        assert(b[i].is_player == a[i].is_player);
        lemma_first_player(a, i);
        lemma_first_player(b, i);
    } else if exists|i: int| first_player_at(b, i) {
        let i = choose|i: int| first_player_at(b, i);
        assert forall|j: int| 0 <= j < i implies !(#[trigger] a[j]).is_player by {
            assert(!b[j].is_player);
        }
        assert(a[i].is_player == b[i].is_player);
        assert(first_player_at(a, i));
    }
}

/// Two states that agree step to states that agree, whatever the rolls.
pub proof fn lemma_item_step_agree(v: ItemState, w: ItemState, a: PlayerAction, r1: (u32, u32), r2: (u32, u32))
    requires
        states_agree(v, w),
    ensures
        states_agree(item_step(v, a, r1), item_step(w, a, r2)),
{
    assert forall|i: int| 0 <= i < v.0.len() implies (#[trigger] v.0[i]).is_player == w.0[i].is_player by {
        assert(entities_agree(v.0[i], w.0[i]));
        assert(EntityView { position: None, ..v.0[i] }.is_player == EntityView { position: None, ..w.0[i] }.is_player);
    }
    lemma_first_player_agree(v.0, w.0);
    if first_player(v.0) is Some {
        let p = first_player(v.0)->0;
        assert(entities_agree(v.0[p], w.0[p]));
        let sv = item_step(v, a, r1);
        let sw = item_step(w, a, r2);
        assert forall|k: int| 0 <= k < sv.0.len() implies entities_agree(#[trigger] sv.0[k], sw.0[k]) by {
            assert(entities_agree(v.0[p], w.0[p]));
            if k < v.0.len() {
                assert(entities_agree(v.0[k], w.0[k]));
            }
        }
    }
}

/// Runs from the same state with different rolls agree.
pub proof fn lemma_item_run_agree(v: ItemState, acts: Seq<PlayerAction>, r1: Seq<(u32, u32)>, r2: Seq<(u32, u32)>)
    requires
        r1.len() == acts.len(),
        r2.len() == acts.len(),
    ensures
        states_agree(item_run(v, acts, r1), item_run(v, acts, r2)),
    decreases acts.len(),
{
    if acts.len() > 0 {
        lemma_item_run_agree(v, acts.drop_last(), r1.drop_last(), r2.drop_last());
        lemma_item_step_agree(
            item_run(v, acts.drop_last(), r1.drop_last()),
            item_run(v, acts.drop_last(), r2.drop_last()),
            acts.last(),
            r1.last(),
            r2.last(),
        );
    } else {
        assert forall|i: int| 0 <= i < v.0.len() implies entities_agree(#[trigger] v.0[i], v.0[i]) by {}
    }
}

/// The fit condition of the step at index `k`, read from the whole run.
pub proof fn lemma_fits_at(v: ItemState, acts: Seq<PlayerAction>, k: int)
    requires
        item_run_fits(v, acts),
        0 <= k < acts.len(),
    ensures
        match (first_player(item_run(v, acts.take(k), no_rolls(k as nat)).0), acts[k]) {
            (Some(p), PlayerAction::UseItem(slot)) => use_fits(
                parts_of(item_run(v, acts.take(k), no_rolls(k as nat)).0[p]),
                slot,
            ),
            _ => true,
        },
    decreases acts.len(),
{
    if acts.len() == k + 1 {
        assert(acts.drop_last() =~= acts.take(k));
    } else {
        assert(acts.drop_last().take(k) =~= acts.take(k));
        lemma_fits_at(v, acts.drop_last(), k);
    }
}

/// The teleport offsets lie in the landing span.
pub open spec fn rolls_in_span(rolls: Seq<(u32, u32)>) -> bool {
    forall|i: int| 0 <= i < rolls.len() ==> (#[trigger] rolls[i]).0 < TELEPORT_SPAN && rolls[i].1 < TELEPORT_SPAN
}

/// The item state of a world and game state.
pub open spec fn item_state(world: GameWorld, gs: GameState, back: Seq<PlayerAction>) -> ItemState {
    (world_view(world.entities@), world.next_id, log_view(gs.message_log@), back)
}

/// Over the views of a world, `first_player` is `player_index`.
pub proof fn lemma_first_player_view(s: Seq<WorldEntity>)
    ensures
        first_player(world_view(s)) == player_index(s),
{
    crate::world::lemma_player_index(s);
    let vs = world_view(s);
    match player_index(s) {
        Some(i) => {
            assert forall|j: int| 0 <= j < i implies !(#[trigger] vs[j]).is_player by {
                assert(!s[j].is_player);
            }
            lemma_first_player(vs, i);
        },
        None => {
            if exists|i: int| first_player_at(vs, i) {
                let i = choose|i: int| first_player_at(vs, i);
                assert(s[i].is_player);
            }
        },
    }
}

/// Handles item use and drop by the first player, then lets every player
/// pick up what lies under it.
pub struct InventorySystem;

impl InventorySystem {
    pub fn name(&self) -> (s: &'static str)
        ensures
            s@ == "InventorySystem"@,
    {
        proof {
            reveal_strlit("InventorySystem");
        }
        "InventorySystem"
    }

    /// Statistics after drinking a consumable.
    fn apply_effect(st: Stats, effect: ConsumableEffect) -> (r: Stats)
        requires
            effect_fits(st, effect),
        ensures
            r == affected(st, effect),
    {
        match effect {
            ConsumableEffect::Healing { amount } => {
                let hp = st.hp + amount;
                Stats { hp: if hp <= st.max_hp { hp } else { st.max_hp }, ..st }
            },
            ConsumableEffect::Damage { amount } => Stats { hp: st.hp.saturating_sub(amount), ..st },
            ConsumableEffect::Buff { stat, value, .. } => match stat {
                StatType::Hp => Stats { max_hp: ((st.max_hp as i32) + value) as u32, ..st },
                StatType::Attack => Stats { attack: ((st.attack as i32) + value) as u32, ..st },
                StatType::Defense => Stats { defense: ((st.defense as i32) + value) as u32, ..st },
                StatType::Accuracy => Stats { accuracy: ((st.accuracy as i32) + value) as u32, ..st },
                StatType::Evasion => Stats { evasion: ((st.evasion as i32) + value) as u32, ..st },
            },
            _ => st,
        }
    }

    /// The message of drinking a consumable.
    fn effect_text(name: &String, effect: ConsumableEffect) -> (s: String)
        ensures
            s@ == effect_message(name@, effect),
    {
        match effect {
            ConsumableEffect::Healing { amount } => {
                let mut s = String::from_str("You drink a ");
                s.append(name.as_str());
                s.append(", healing ");
                push_decimal(&mut s, amount as u64);
                s.append(" HP.");
                s
            },
            ConsumableEffect::Damage { amount } => {
                let mut s = String::from_str("You drink a ");
                s.append(name.as_str());
                s.append(", taking ");
                push_decimal(&mut s, amount as u64);
                s.append(" damage!");
                s
            },
            ConsumableEffect::Buff { stat, value, .. } => {
                let mut s = String::from_str("You feel ");
                let word = match stat {
                    StatType::Hp => "healthier (",
                    StatType::Attack => "stronger (",
                    StatType::Defense => "tougher (",
                    StatType::Accuracy => "more accurate (",
                    StatType::Evasion => "more evasive (",
                };
                s.append(word);
                push_signed_decimal(&mut s, value);
                s.append(")!");
                s
            },
            ConsumableEffect::Teleport => String::from_str("You teleport randomly!"),
            ConsumableEffect::Identify => String::from_str("You feel more perceptive."),
        }
    }

    /// Takes the player's backpack out of the world, leaving none in its place.
    fn take_inventory(world: &mut GameWorld, p: usize) -> (inv: Option<Inventory>)
        requires
            p < old(world).entities@.len(),
        ensures
            inv == old(world).entities@[p as int].inventory,
            final(world).entities@ == old(world).entities@.update(
                p as int,
                WorldEntity { inventory: None, ..old(world).entities@[p as int] },
            ),
            final(world).next_id == old(world).next_id,
    {
        let mut inv: Option<Inventory> = None;
        std::mem::swap(&mut inv, &mut world.entities[p].inventory);
        inv
    }

    /// One item action on the world. Returns the teleport offsets it rolled
    /// (zero when it rolled none).
    fn step(world: &mut GameWorld, gs: &mut GameState, back: &mut Vec<PlayerAction>, a: PlayerAction) -> (roll: (u32, u32))
        requires
            old(world).next_id < u64::MAX,
            old(gs).message_log@.len() < usize::MAX,
            old(back)@.len() < usize::MAX,
            match (first_player(world_view(old(world).entities@)), a) {
                (Some(p), PlayerAction::UseItem(slot)) => use_fits(parts_of(world_view(old(world).entities@)[p]), slot),
                _ => true,
            },
        ensures
            roll.0 < TELEPORT_SPAN && roll.1 < TELEPORT_SPAN,
            item_state(*final(world), *final(gs), final(back)@) == item_step(
                item_state(*old(world), *old(gs), old(back)@),
                a,
                roll,
            ),
            final(gs).game_state == old(gs).game_state,
            final(gs).depth == old(gs).depth,
            final(gs).selected_class == old(gs).selected_class,
            final(gs).frame_count == old(gs).frame_count,
    {
        let ghost v = item_state(*world, *gs, back@);
        let (slot, is_use) = match a {
            PlayerAction::UseItem(slot) => (slot, true),
            PlayerAction::DropItem(slot) => (slot, false),
            _ => {
                back.push(a);
                return (0, 0);
            },
        };
        proof {
            lemma_first_player_view(world.entities@);
        }
        let p = match find_player_entity(world) {
            Some(p) => p,
            None => {
                back.push(a);
                return (0, 0);
            },
        };
        let ghost e0 = world.entities@[p as int];
        let ghost parts0 = parts_of(entity_view(e0));
        assert(world_view(world.entities@)[p as int] == entity_view(e0));
        if is_use {
            let inv_opt = Self::take_inventory(world, p);
            let mut inv = match inv_opt {
                Some(inv) => inv,
                None => {
                    world.entities[p].inventory = None;
                    assert(world.entities@ =~= old(world).entities@);
                    back.push(a);
                    return (0, 0);
                },
            };
            if slot >= inv.items.len() {
                world.entities[p].inventory = Some(inv);
                assert(world.entities@ =~= old(world).entities@);
                back.push(a);
                gs.push_message(String::from_str("Invalid inventory slot."));
                return (0, 0);
            }
            let kind: Option<(ItemType, String)> = match &inv.items[slot].item {
                Some(it) => Some((it.item_type, it.name.clone())),
                None => None,
            };
            match kind {
                None => {
                    world.entities[p].inventory = Some(inv);
                    assert(world.entities@ =~= old(world).entities@);
                    gs.push_message(String::from_str("No item in this slot."));
                    return (0, 0);
                },
                Some((ItemType::Consumable { effect }, name)) => {
                    let mut roll: (u32, u32) = (0, 0);
                    let message: Option<String> = match effect {
                        ConsumableEffect::Teleport => match world.entities[p].position {
                            Some(pos) => {
                                let rx = roll_range(0, TELEPORT_SPAN - 1);
                                let ry = roll_range(0, TELEPORT_SPAN - 1);
                                world.entities[p].position = Some(
                                    Position::new(TELEPORT_BASE + rx as i32, TELEPORT_BASE + ry as i32, pos.z),
                                );
                                roll = (rx, ry);
                                Some(Self::effect_text(&name, effect))
                            },
                            None => None,
                        },
                        ConsumableEffect::Identify => Some(Self::effect_text(&name, effect)),
                        _ => match world.entities[p].stats {
                            Some(st) => {
                                world.entities[p].stats = Some(Self::apply_effect(st, effect));
                                Some(Self::effect_text(&name, effect))
                            },
                            None => None,
                        },
                    };
                    let ghost items0 = inv.items@;
                    inv.items.remove(slot);
                    world.entities[p].inventory = Some(inv);
                    proof {
                        let o = item_outcome(parts0, a, roll);
                        assert(inv.items@ == items0.remove(slot as int));
                        assert(world_view(world.entities@) =~= v.0.update(p as int, with_parts(v.0[p as int], o.0)));
                    }
                    match message {
                        Some(m) => gs.push_message(m),
                        None => {},
                    }
                    return roll;
                },
                Some(_) => {
                    world.entities[p].inventory = Some(inv);
                    assert(world.entities@ =~= old(world).entities@);
                    gs.push_message(String::from_str("Cannot use this item."));
                    return (0, 0);
                },
            }
        } else {
            let pos = match world.entities[p].position {
                Some(pos) => pos,
                None => {
                    back.push(a);
                    return (0, 0);
                },
            };
            let inv_opt = Self::take_inventory(world, p);
            let mut inv = match inv_opt {
                Some(inv) => inv,
                None => {
                    world.entities[p].inventory = None;
                    assert(world.entities@ =~= old(world).entities@);
                    back.push(a);
                    return (0, 0);
                },
            };
            if slot >= inv.items.len() {
                world.entities[p].inventory = Some(inv);
                assert(world.entities@ =~= old(world).entities@);
                gs.push_message(String::from_str("Invalid inventory slot."));
                back.push(a);
                return (0, 0);
            }
            let ghost items0 = inv.items@;
            let removed = inv.items.remove(slot);
            world.entities[p].inventory = Some(inv);
            let ghost mid = world.entities@;
            proof {
                assert(world_view(mid) =~= v.0.update(
                    p as int,
                    with_parts(v.0[p as int], item_outcome(parts0, a, (0, 0)).0),
                ));
            }
            match removed.item {
                Some(item) => {
                    let mut text = String::from_str("You dropped ");
                    text.append(item.name.as_str());
                    text.append(".");
                    let id = world.next_id;
                    world.entities.push(
                        WorldEntity {
                            id: EntityId(id),
                            is_player: false,
                            position: Some(pos),
                            tile: Some(
                                Tile {
                                    terrain_type: TerrainType::Empty,
                                    is_passable: true,
                                    blocks_sight: false,
                                    has_items: true,
                                    has_monster: false,
                                },
                            ),
                            actor: None,
                            stats: None,
                            energy: None,
                            hunger: None,
                            inventory: None,
                            item: Some(item),
                            ai: None,
                            effects: None,
                        },
                    );
                    world.next_id = id + 1;
                    proof {
                        assert(world_view(world.entities@) =~= world_view(mid).push(
                            dropped_entity(id, pos, items0[slot as int].item->0),
                        ));
                    }
                    gs.push_message(text);
                },
                None => {
                    gs.push_message(String::from_str("No item in this slot to drop."));
                    back.push(a);
                },
            }
            return (0, 0);
        }
    }
}

impl EcsItem {
    /// A copy of the item.
    pub fn duplicate(&self) -> (r: Self)
        ensures
            r == *self,
    {
        EcsItem {
            name: self.name.clone(),
            item_type: self.item_type,
            value: self.value,
            identified: self.identified,
            quantity: self.quantity,
            level: self.level,
            cursed: self.cursed,
            charges: self.charges,
        }
    }
}

/// An item step grows the log only up to the cap, adds at most one entity
/// identifier and hands back at most one action.
proof fn lemma_item_step_sizes(v: ItemState, a: PlayerAction, r: (u32, u32))
    ensures
        item_step(v, a, r).2.len() <= if v.2.len() < 10 { 10 } else { v.2.len() as int },
        item_step(v, a, r).1 <= v.1 + 1,
        item_step(v, a, r).3.len() <= v.3.len() + 1,
{
    let (parts, message, hand_back, dropped) = item_outcome(parts_of(v.0[first_player(v.0)->0]), a, r);
    match message {
        Some(m) => crate::ecs::lemma_capped_push_len(v.2, m),
        None => {},
    }
}

/// The fit condition carries over between agreeing states.
proof fn lemma_fits_transfer(v: ItemState, w: ItemState, a: PlayerAction)
    requires
        states_agree(v, w),
        match (first_player(w.0), a) {
            (Some(p), PlayerAction::UseItem(slot)) => use_fits(parts_of(w.0[p]), slot),
            _ => true,
        },
    ensures
        match (first_player(v.0), a) {
            (Some(p), PlayerAction::UseItem(slot)) => use_fits(parts_of(v.0[p]), slot),
            _ => true,
        },
{
    assert forall|i: int| 0 <= i < v.0.len() implies (#[trigger] v.0[i]).is_player == w.0[i].is_player by {
        assert(entities_agree(v.0[i], w.0[i]));
        assert(EntityView { position: None, ..v.0[i] }.is_player == EntityView { position: None, ..w.0[i] }.is_player);
    }
    lemma_first_player_agree(v.0, w.0);
    if first_player(v.0) is Some {
        let p = first_player(v.0)->0;
        assert(entities_agree(v.0[p], w.0[p]));
        assert(EntityView { position: None, ..v.0[p] }.stats == EntityView { position: None, ..w.0[p] }.stats);
        assert(EntityView { position: None, ..v.0[p] }.inventory == EntityView { position: None, ..w.0[p] }.inventory);
    }
}

/// The bound the log stays within while messages are added to a log of
/// length `l0`.
pub open spec fn log_bound(l0: int) -> int {
    if l0 < 10 {
        10
    } else {
        l0
    }
}

/// The pairs of indices of a plan, as integers.
pub open spec fn pair_view(v: Seq<(usize, usize)>) -> Seq<(int, int)> {
    v.map_values(|q: (usize, usize)| (q.0 as int, q.1 as int))
}

/// Every pair of a plan names entities of the world, the second an item.
pub open spec fn plan_valid(s: Seq<EntityView>, pl: Seq<(int, int)>) -> bool {
    forall|m: int|
        0 <= m < pl.len() ==> 0 <= (#[trigger] pl[m]).0 < s.len() && 0 <= pl[m].1 < s.len() && s[pl[m].1].item is Some
}

/// The items picked name items, among the first `k` entities, within the room.
proof fn lemma_picks(s: Seq<EntityView>, pos: Position, room: nat, k: int)
    requires
        0 <= k <= s.len(),
    ensures
        picks(s, pos, room, k).len() <= room,
        forall|m: int|
            0 <= m < picks(s, pos, room, k).len() ==> 0 <= #[trigger] picks(s, pos, room, k)[m] < k
                && s[picks(s, pos, room, k)[m]].item is Some,
    decreases k,
{
    if k > 0 {
        lemma_picks(s, pos, room, k - 1);
        let t = picks(s, pos, room, k - 1);
        assert forall|m: int| 0 <= m < picks(s, pos, room, k).len() implies 0 <= #[trigger] picks(s, pos, room, k)[m] < k
            && s[picks(s, pos, room, k)[m]].item is Some by {
            if m < t.len() {
                assert(t[m] < k - 1);
            }
        }
    }
}

/// A plan names entities of the world, the second of each pair an item.
proof fn lemma_plan_valid(s: Seq<EntityView>, k: int)
    requires
        0 <= k <= s.len(),
    ensures
        plan_valid(s, plan(s, k)),
    decreases k,
{
    if k > 0 {
        lemma_plan_valid(s, k - 1);
        let e = s[k - 1];
        if is_picker(e) && room_of(e.inventory) > 0 {
            let pos = e.position->0;
            let room = room_of(e.inventory);
            lemma_picks(s, pos, room, s.len() as int);
            let pl = plan(s, k - 1);
            let ps = picks(s, pos, room, s.len() as int);
            let add = ps.map_values(|j: int| (k - 1, j));
            assert forall|m: int| 0 <= m < plan(s, k).len() implies 0 <= (#[trigger] plan(s, k)[m]).0 < s.len()
                && 0 <= plan(s, k)[m].1 < s.len() && s[plan(s, k)[m].1].item is Some by {
                if m < pl.len() {
                    assert(plan(s, k)[m] == pl[m]);
                } else {
                    assert(plan(s, k)[m] == add[m - pl.len()]);
                    assert(ps[m - pl.len()] < s.len());
                }
            }
        }
    }
}

/// Telling full backpacks keeps the log within its bound.
proof fn lemma_full_log_len(s: Seq<EntityView>, log: Seq<Seq<char>>, k: int)
    ensures
        full_log(s, log, k).len() <= log_bound(log.len() as int),
    decreases k,
{
    if k > 0 {
        lemma_full_log_len(s, log, k - 1);
        crate::ecs::lemma_capped_push_len(full_log(s, log, k - 1), "Your inventory is full!"@);
    }
}

/// Carrying out pickups keeps the number of entities, what item each entity
/// is, and the log within its bound.
proof fn lemma_pickup_run_shape(orig: Seq<EntityView>, pairs: Seq<(int, int)>, st: PickupState)
    requires
        st.0.len() == orig.len(),
        st.1.len() == orig.len(),
        plan_valid(orig, pairs),
    ensures
        pickup_run(orig, pairs, st).0.len() == orig.len(),
        pickup_run(orig, pairs, st).1.len() == orig.len(),
        forall|i: int| 0 <= i < orig.len() ==> (#[trigger] pickup_run(orig, pairs, st).0[i]).item == st.0[i].item,
        pickup_run(orig, pairs, st).2.len() <= log_bound(st.2.len() as int),
    decreases pairs.len(),
{
    if pairs.len() > 0 {
        assert(plan_valid(orig, pairs.drop_last())) by {
            assert forall|m: int| 0 <= m < pairs.drop_last().len() implies 0 <= (#[trigger] pairs.drop_last()[m]).0
                < orig.len() && 0 <= pairs.drop_last()[m].1 < orig.len() && orig[pairs.drop_last()[m].1].item is Some by {
                assert(pairs.drop_last()[m] == pairs[m]);
            }
        }
        lemma_pickup_run_shape(orig, pairs.drop_last(), st);
        let mid = pickup_run(orig, pairs.drop_last(), st);
        assert(pairs.last() == pairs[pairs.len() - 1]);
        crate::ecs::lemma_capped_push_len(mid.2, "Your inventory is full!"@);
        crate::ecs::lemma_capped_push_len(mid.2, "You picked up "@ + orig[pairs.last().1].item->0.name@ + "."@);
    }
}

/// The entities kept when the last `n - r` of them are filtered.
proof fn lemma_survivors_step(cur: Seq<EntityView>, gone: Seq<bool>, r: int)
    requires
        0 <= r < cur.len(),
        gone.len() == cur.len(),
    ensures
        survivors(cur.skip(r), gone.skip(r)) == if gone[r] {
            survivors(cur.skip(r + 1), gone.skip(r + 1))
        } else {
            seq![cur[r]] + survivors(cur.skip(r + 1), gone.skip(r + 1))
        },
{
    assert(cur.skip(r).skip(1) =~= cur.skip(r + 1));
    assert(gone.skip(r).skip(1) =~= gone.skip(r + 1));
    assert(cur.skip(r)[0] == cur[r]);
    assert(gone.skip(r)[0] == gone[r]);
}

impl InventorySystem {
    /// Plans the pickups: each player with room, in order, takes the items
    /// lying where it stands as far as its room goes; each player without
    /// room is told so.
    fn plan_pickups(world: &GameWorld, gs: &mut GameState) -> (pairs: Vec<(usize, usize)>)
        requires
            old(gs).message_log@.len() < usize::MAX,
        ensures
            pair_view(pairs@) == plan(world_view(world.entities@), world.entities@.len() as int),
            log_view(final(gs).message_log@) == full_log(
                world_view(world.entities@),
                log_view(old(gs).message_log@),
                world.entities@.len() as int,
            ),
            final(gs).message_log@.len() <= log_bound(old(gs).message_log@.len() as int),
            final(gs).game_state == old(gs).game_state,
            final(gs).depth == old(gs).depth,
            final(gs).selected_class == old(gs).selected_class,
            final(gs).frame_count == old(gs).frame_count,
    {
        let ghost s = world_view(world.entities@);
        let ghost log0 = log_view(gs.message_log@);
        let ghost l0 = gs.message_log@.len() as int;
        let n = world.entities.len();
        let mut pairs: Vec<(usize, usize)> = Vec::new();
        let mut i: usize = 0;
        while i < n
            invariant
                n == s.len(),
                s == world_view(world.entities@),
                0 <= i <= n,
                l0 == log0.len(),
                l0 < usize::MAX,
                pair_view(pairs@) == plan(s, i as int),
                log_view(gs.message_log@) == full_log(s, log0, i as int),
                gs.game_state == old(gs).game_state,
                gs.depth == old(gs).depth,
                gs.selected_class == old(gs).selected_class,
                gs.frame_count == old(gs).frame_count,
            decreases n - i,
        {
            proof {
                lemma_full_log_len(s, log0, i as int);
            }
            let e = &world.entities[i];
            assert(s[i as int] == entity_view(world.entities@[i as int]));
            let pos_opt: Option<Position> = if e.is_player {
                match (&e.position, &e.actor) {
                    (Some(q), Some(_)) => Some(*q),
                    _ => None,
                }
            } else {
                None
            };
            match pos_opt {
                Some(pos) => {
                    let room: usize = match &e.inventory {
                        Some(inv) => inv.max_slots.saturating_sub(inv.items.len()),
                        None => 0,
                    };
                    assert(room as nat == room_of(s[i as int].inventory));
                    if room == 0 {
                        gs.push_message(String::from_str("Your inventory is full!"));
                        assert(pair_view(pairs@) == plan(s, i as int + 1));
                    } else {
                        let ghost base = pairs@;
                        let mut cnt: usize = 0;
                        let mut j: usize = 0;
                        while j < n
                            invariant
                                n == s.len(),
                                s == world_view(world.entities@),
                                0 <= i < n,
                                0 <= j <= n,
                                room > 0,
                                pair_view(base) == plan(s, i as int),
                                pair_view(pairs@) == plan(s, i as int) + picks(s, pos, room as nat, j as int).map_values(
                                    |x: int| (i as int, x),
                                ),
                                cnt == picks(s, pos, room as nat, j as int).len(),
                            decreases n - j,
                        {
                            proof {
                                lemma_picks(s, pos, room as nat, j as int);
                            }
                            let f = &world.entities[j];
                            assert(s[j as int] == entity_view(world.entities@[j as int]));
                            let hit = match (&f.position, &f.item) {
                                (Some(q), Some(_)) => *q == pos && cnt < room,
                                _ => false,
                            };
                            let ghost before = pairs@;
                            let ghost pk = picks(s, pos, room as nat, j as int);
                            if hit {
                                pairs.push((i, j));
                                cnt = cnt + 1;
                                proof {
                                    assert(picks(s, pos, room as nat, j as int + 1) == pk.push(j as int));
                                    assert(pk.push(j as int).map_values(|x: int| (i as int, x)) =~= pk.map_values(
                                        |x: int| (i as int, x),
                                    ).push((i as int, j as int)));
                                    assert(pair_view(pairs@) =~= pair_view(before).push((i as int, j as int)));
                                }
                            } else {
                                assert(picks(s, pos, room as nat, j as int + 1) == pk);
                            }
                            j = j + 1;
                        }
                    }
                },
                None => {
                    assert(!is_picker(s[i as int]));
                },
            }
            i = i + 1;
        }
        proof {
            lemma_full_log_len(s, log0, n as int);
        }
        pairs
    }

    /// The world with the gone entities removed.
    fn remove_gone(world: &mut GameWorld, gone: &Vec<bool>)
        requires
            gone@.len() == old(world).entities@.len(),
        ensures
            world_view(final(world).entities@) == survivors(world_view(old(world).entities@), gone@),
            final(world).next_id == old(world).next_id,
    {
        let ghost cur = world_view(world.entities@);
        let n = world.entities.len();
        let mut r: usize = n;
        proof {
            assert(cur.skip(n as int) =~= seq![]);
            assert(cur.take(n as int) =~= cur);
        }
        while r > 0
            invariant
                n == cur.len(),
                gone@.len() == n,
                0 <= r <= n,
                world.next_id == old(world).next_id,
                world_view(world.entities@) == cur.take(r as int) + survivors(cur.skip(r as int), gone@.skip(r as int)),
            decreases r,
        {
            r = r - 1;
            proof {
                lemma_survivors_step(cur, gone@, r as int);
            }
            let ghost w = world_view(world.entities@);
            assert(w.len() == world.entities@.len());
            let ghost rest = survivors(cur.skip(r as int + 1), gone@.skip(r as int + 1));
            assert(cur.take(r as int + 1) =~= cur.take(r as int).push(cur[r as int]));
            if gone[r] {
                world.entities.remove(r);
                proof {
                    assert(world_view(world.entities@) =~= w.remove(r as int));
                    assert(w.remove(r as int) =~= cur.take(r as int) + rest);
                }
            } else {
                assert(w =~= cur.take(r as int) + (seq![cur[r as int]] + rest));
            }
        }
        proof {
            assert(cur.skip(0) =~= cur);
            assert(gone@.skip(0) =~= gone@);
            assert(cur.take(0) + survivors(cur, gone@) =~= survivors(cur, gone@));
        }
    }

    /// Every player picks up what lies under it.
    fn pickup_items(world: &mut GameWorld, gs: &mut GameState)
        requires
            old(gs).message_log@.len() < usize::MAX,
        ensures
            (world_view(final(world).entities@), log_view(final(gs).message_log@)) == pickup(
                item_state(*old(world), *old(gs), seq![]),
            ),
            final(world).next_id == old(world).next_id,
            final(gs).game_state == old(gs).game_state,
            final(gs).depth == old(gs).depth,
            final(gs).selected_class == old(gs).selected_class,
            final(gs).frame_count == old(gs).frame_count,
    {
        let ghost v = item_state(*world, *gs, seq![]);
        let ghost orig = v.0;
        let ghost l0 = gs.message_log@.len() as int;
        let n = world.entities.len();
        let pairs = Self::plan_pickups(world, gs);
        proof {
            lemma_plan_valid(orig, n as int);
            lemma_full_log_len(orig, v.2, n as int);
        }
        let mut gone: Vec<bool> = Vec::new();
        let mut i: usize = 0;
        while i < n
            invariant
                0 <= i <= n,
                gone@ =~= Seq::new(i as nat, |k: int| false),
            decreases n - i,
        {
            gone.push(false);
            i = i + 1;
        }
        let ghost init: PickupState = (orig, gone@, log_view(gs.message_log@));
        assert(init == (orig, Seq::new(n as nat, |k: int| false), full_log(orig, v.2, n as int)));
        let m = pairs.len();
        let mut k: usize = 0;
        while k < m
            invariant
                n == orig.len(),
                m == pairs@.len(),
                0 <= k <= m,
                init.0 == orig,
                init.1.len() == n,
                init.2.len() <= log_bound(l0),
                l0 < usize::MAX,
                pair_view(pairs@) == plan(orig, n as int),
                plan_valid(orig, pair_view(pairs@)),
                (world_view(world.entities@), gone@, log_view(gs.message_log@)) == pickup_run(
                    orig,
                    pair_view(pairs@).take(k as int),
                    init,
                ),
                world.next_id == old(world).next_id,
                gs.game_state == old(gs).game_state,
                gs.depth == old(gs).depth,
                gs.selected_class == old(gs).selected_class,
                gs.frame_count == old(gs).frame_count,
            decreases m - k,
        {
            let ghost pv = pair_view(pairs@);
            proof {
                assert(pv.take(k as int + 1).drop_last() =~= pv.take(k as int));
                assert(plan_valid(orig, pv.take(k as int))) by {
                    assert forall|q: int| 0 <= q < pv.take(k as int).len() implies 0 <= (#[trigger] pv.take(
                        k as int,
                    )[q]).0 < orig.len() && 0 <= pv.take(k as int)[q].1 < orig.len() && orig[pv.take(
                        k as int,
                    )[q].1].item is Some by {
                        assert(pv.take(k as int)[q] == pv[q]);
                    }
                }
                lemma_pickup_run_shape(orig, pv.take(k as int), init);
                assert(pv[k as int] == (pairs@[k as int].0 as int, pairs@[k as int].1 as int));
            }
            let ghost st = pickup_run(orig, pv.take(k as int), init);
            let (p, j) = pairs[k];
            assert(pv.take(k as int + 1).last() == (p as int, j as int));
            if !gone[p] {
                assert(world_view(world.entities@)[j as int] == entity_view(world.entities@[j as int]));
                let item = match &world.entities[j].item {
                    Some(it) => it.duplicate(),
                    None => {
                        assert(false);
                        return;
                    },
                };
                let mut text = String::from_str("You picked up ");
                text.append(item.name.as_str());
                text.append(".");
                assert(world_view(world.entities@)[p as int] == entity_view(world.entities@[p as int]));
                let inv_opt = Self::take_inventory(world, p);
                match inv_opt {
                    Some(mut inv) => {
                        if inv.items.len() < inv.max_slots {
                            let ghost items0 = inv.items@;
                            let ghost slot = ItemSlot { item: Some(item), quantity: 1 };
                            inv.items.push(ItemSlot { item: Some(item), quantity: 1 });
                            world.entities[p].inventory = Some(inv);
                            gone.set(j, true);
                            gs.push_message(text);
                            proof {
                                assert(slot == ItemSlot { item: orig[j as int].item, quantity: 1 });
                                assert(world_view(world.entities@) =~= st.0.update(
                                    p as int,
                                    EntityView {
                                        inventory: Some(
                                            InventoryView { items: items0.push(slot), max_slots: inv.max_slots },
                                        ),
                                        ..st.0[p as int]
                                    },
                                ));
                            }
                        } else {
                            world.entities[p].inventory = Some(inv);
                            assert(world_view(world.entities@) =~= st.0);
                            gs.push_message(String::from_str("Your inventory is full!"));
                        }
                    },
                    None => {
                        world.entities[p].inventory = None;
                        assert(world_view(world.entities@) =~= st.0);
                    },
                }
            }
            k = k + 1;
        }
        proof {
            assert(pair_view(pairs@).take(m as int) =~= pair_view(pairs@));
            lemma_pickup_run_shape(orig, pair_view(pairs@), init);
        }
        Self::remove_gone(world, &gone);
    }

    /// Handles the use and drop actions among the pending actions in order,
    /// for the first player, handing back every other action and those that
    /// could not be carried out; then every player picks up the items under
    /// it. Teleports land on
    /// random offsets: the contract holds for the offsets that were rolled.
    pub fn run(&mut self, world: &mut GameWorld, resources: &mut Resources) -> (r: SystemResult)
        requires
            old(world).next_id + old(resources).input_buffer.pending_actions@.len() <= u64::MAX,
            old(resources).game_state.message_log@.len() < usize::MAX,
            item_run_fits(
                item_state(*old(world), old(resources).game_state, seq![]),
                old(resources).input_buffer.pending_actions@,
            ),
        ensures
            r is Continue,
            exists|rolls: Seq<(u32, u32)>|
                #![trigger item_run(item_state(*old(world), old(resources).game_state, seq![]), old(resources).input_buffer.pending_actions@, rolls)]
                rolls.len() == old(resources).input_buffer.pending_actions@.len() && rolls_in_span(rolls)
                    && ({
                    let after = item_run(
                        item_state(*old(world), old(resources).game_state, seq![]),
                        old(resources).input_buffer.pending_actions@,
                        rolls,
                    );
                    &&& (world_view(final(world).entities@), log_view(final(resources).game_state.message_log@))
                        == pickup(after)
                    &&& final(world).next_id == after.1
                    &&& final(resources).input_buffer.pending_actions@ == after.3
                }),
            final(resources).input_buffer.completed_actions == old(resources).input_buffer.completed_actions,
            final(resources).game_state.game_state == old(resources).game_state.game_state,
            final(resources).game_state.depth == old(resources).game_state.depth,
            final(resources).game_state.selected_class == old(resources).game_state.selected_class,
            final(resources).game_state.frame_count == old(resources).game_state.frame_count,
            final(resources).clock == old(resources).clock,
            final(resources).config == old(resources).config,
    {
        let mut actions: Vec<PlayerAction> = Vec::new();
        std::mem::swap(&mut actions, &mut resources.input_buffer.pending_actions);
        let ghost acts = actions@;
        let ghost v0 = item_state(*world, resources.game_state, seq![]);
        let ghost l0 = v0.2.len();
        let ghost mut rolls: Seq<(u32, u32)> = seq![];
        let mut back: Vec<PlayerAction> = Vec::new();
        let n = actions.len();
        let mut i: usize = 0;
        while i < n
            invariant
                n == acts.len(),
                acts == actions@,
                0 <= i <= n,
                v0 == item_state(*old(world), old(resources).game_state, seq![]),
                item_run_fits(v0, acts),
                l0 == v0.2.len(),
                l0 < usize::MAX,
                old(world).next_id + n <= u64::MAX,
                rolls.len() == i,
                rolls_in_span(rolls),
                item_state(*world, resources.game_state, back@) == item_run(v0, acts.take(i as int), rolls),
                resources.game_state.message_log@.len() <= if l0 < 10 { 10 } else { l0 as int },
                world.next_id <= old(world).next_id + i,
                back@.len() <= i,
                resources.input_buffer.completed_actions == old(resources).input_buffer.completed_actions,
                resources.game_state.game_state == old(resources).game_state.game_state,
                resources.game_state.depth == old(resources).game_state.depth,
                resources.game_state.selected_class == old(resources).game_state.selected_class,
                resources.game_state.frame_count == old(resources).game_state.frame_count,
                resources.clock == old(resources).clock,
                resources.config == old(resources).config,
            decreases n - i,
        {
            proof {
                assert(acts.take(i as int + 1).drop_last() =~= acts.take(i as int));
                lemma_item_run_agree(v0, acts.take(i as int), rolls, no_rolls(i as nat));
                lemma_item_run_agree(v0, acts.take(i as int), no_rolls(i as nat), rolls);
                lemma_fits_at(v0, acts, i as int);
                lemma_fits_transfer(
                    item_run(v0, acts.take(i as int), rolls),
                    item_run(v0, acts.take(i as int), no_rolls(i as nat)),
                    acts[i as int],
                );
                lemma_item_step_sizes(item_run(v0, acts.take(i as int), rolls), acts[i as int], (0, 0));
            }
            let a = actions[i];
            let roll = Self::step(world, &mut resources.game_state, &mut back, a);
            proof {
                lemma_item_step_sizes(item_run(v0, acts.take(i as int), rolls), a, roll);
                let rs = rolls.push(roll);
                assert(rs.drop_last() =~= rolls);
                assert(rs.last() == roll);
                assert forall|k: int| 0 <= k < rs.len() implies (#[trigger] rs[k]).0 < TELEPORT_SPAN && rs[k].1
                    < TELEPORT_SPAN by {
                    if k < rolls.len() {
                        assert(rs[k] == rolls[k]);
                    }
                }
                rolls = rs;
            }
            i = i + 1;
        }
        assert(acts.take(n as int) =~= acts);
        resources.input_buffer.pending_actions = back;
        Self::pickup_items(world, &mut resources.game_state);
        SystemResult::Continue
    }
}

} // verus!

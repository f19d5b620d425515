//! End of the game (the player died, or reached the bottom of the dungeon)
//! and what blocks sight.

use vstd::prelude::*;
use crate::ecs::{log_view, Faction, GameOverReason, GameStatus, Resources};
use crate::systems::SystemResult;
use crate::world::{is_first_tile_at, GameWorld, Position, WorldEntity};

verus! {

/// A dead actor of the player's faction.
pub open spec fn is_dead_player_actor(e: WorldEntity) -> bool {
    &&& e.actor is Some
    &&& e.actor->0.faction == Faction::Player
    &&& e.stats is Some
    &&& e.stats->0.hp == 0
}

/// An actor of the player's faction standing on the given level.
pub open spec fn is_player_actor_on(e: WorldEntity, level: usize) -> bool {
    &&& e.actor is Some
    &&& e.actor->0.faction == Faction::Player
    &&& e.position is Some
    &&& e.position->0.z as usize == level
}

/// The game ended in death.
pub open spec fn player_died(s: Seq<WorldEntity>) -> bool {
    exists|i: int| 0 <= i < s.len() && is_dead_player_actor(#[trigger] s[i])
}

/// The game ended in victory at the bottom level.
pub open spec fn player_won(s: Seq<WorldEntity>, depth: usize, max_depth: usize) -> bool {
    &&& depth >= max_depth
    &&& exists|i: int| 0 <= i < s.len() && is_player_actor_on(#[trigger] s[i], max_depth)
}

/// A cell blocks sight: the first tile found there does (no tile does not).
pub open spec fn blocks_sight_at(s: Seq<WorldEntity>, pos: Position) -> bool {
    exists|i: int| is_first_tile_at(s, pos, i) && s[i].tile->0.blocks_sight
}

/// The distance between two coordinates.
pub open spec fn span(a: int, b: int) -> int {
    if b >= a {
        b - a
    } else {
        a - b
    }
}

/// The unit step from one coordinate towards another (backwards when they
/// are equal).
pub open spec fn toward(a: int, b: int) -> int {
    if a < b {
        1
    } else {
        -1
    }
}

/// One step of Bresenham's walk: the cell `(w.0, w.1)` and the error term
/// `w.2` after moving along a line of extents `dx`, `dy` with directions
/// `sx`, `sy`.
pub open spec fn bresenham_step(w: (int, int, int), dx: int, dy: int, sx: int, sy: int) -> (int, int, int) {
    let e2 = 2 * w.2;
    let x1 = if e2 > -dy { w.0 + sx } else { w.0 };
    let err1 = if e2 > -dy { w.2 - dy } else { w.2 };
    let y1 = if e2 < dx { w.1 + sy } else { w.1 };
    let err2 = if e2 < dx { err1 + dx } else { err1 };
    (x1, y1, err2)
}

/// Bresenham's walk from `(fx, fy)` towards `(tx, ty)`: the cell and the
/// error term after `k` steps.
pub open spec fn line_walk(fx: int, fy: int, tx: int, ty: int, k: nat) -> (int, int, int)
    decreases k,
{
    if k == 0 {
        (fx, fy, span(fx, tx) - span(fy, ty))
    } else {
        bresenham_step(line_walk(fx, fy, tx, ty, (k - 1) as nat), span(fx, tx), span(fy, ty), toward(fx, tx), toward(fy, ty))
    }
}

/// The `k`-th cell of the line from `from` to `to`, on the level of `from`.
pub open spec fn line_cell(from: Position, to: Position, k: nat) -> Position {
    let w = line_walk(from.x as int, from.y as int, to.x as int, to.y as int, k);
    Position { x: w.0 as i32, y: w.1 as i32, z: from.z }
}

/// The walk has reached the column and row of `to` after `k` steps.
pub open spec fn line_reached(from: Position, to: Position, k: nat) -> bool {
    let w = line_walk(from.x as int, from.y as int, to.x as int, to.y as int, k);
    w.0 == to.x && w.1 == to.y
}

/// `to` is in sight of `from`: no cell of Bresenham's line between them
/// blocks sight (the cell of `from` itself and the cells from `to` on do
/// not count).
pub open spec fn sight_clear(s: Seq<WorldEntity>, from: Position, to: Position) -> bool {
    forall|k: nat|
        #![trigger line_cell(from, to, k)]
        1 <= k && (forall|j: nat| j <= k ==> !line_reached(from, to, j)) ==> !blocks_sight_at(s, line_cell(from, to, k))
}

/// Largest extent of a line whose walk stays within `i32` arithmetic.
pub const LINE_LIMIT: i32 = 0x2000_0000;

/// The line from `from` to `to` is short enough for the walk's arithmetic.
pub open spec fn line_fits(from: Position, to: Position) -> bool {
    &&& span(from.x as int, to.x as int) < LINE_LIMIT
    &&& span(from.y as int, to.y as int) < LINE_LIMIT
}

/// A step of the walk that has not yet reached its end moves at least one
/// coordinate, and neither coordinate past its end. `cx` and `cy` count the
/// moves made along each axis; the error term is determined by them.
proof fn lemma_walk_progress(dx: int, dy: int, cx: int, cy: int, err: int)
    requires
        0 <= cx <= dx,
        0 <= cy <= dy,
        !(cx == dx && cy == dy),
        err == dx * (cy + 1) - dy * (cx + 1),
    ensures
        2 * err > -dy ==> cx + 1 <= dx,
        2 * err < dx ==> cy + 1 <= dy,
        2 * err > -dy || 2 * err < dx,
{
    if cx == dx {
        assert(dx * (cy + 1) <= dx * dy) by (nonlinear_arith)
            requires
                cy + 1 <= dy,
                0 <= dx,
        ;
        assert(dy * (cx + 1) == dy * dx + dy) by (nonlinear_arith)
            requires
                cx == dx,
        ;
        assert(dx * dy == dy * dx) by (nonlinear_arith);
    }
    if cy == dy {
        assert(dy * (cx + 1) <= dy * dx) by (nonlinear_arith)
            requires
                cx + 1 <= dx,
                0 <= dy,
        ;
        assert(dx * (cy + 1) == dx * dy + dx) by (nonlinear_arith)
            requires
                cy == dy,
        ;
        assert(dx * dy == dy * dx) by (nonlinear_arith);
    }
}

/// How the error term changes with a move along each axis.
proof fn lemma_walk_error(dx: int, dy: int, cx: int, cy: int)
    ensures
        dx * (cy + 1) - dy * (cx + 1 + 1) == dx * (cy + 1) - dy * (cx + 1) - dy,
        dx * (cy + 1 + 1) - dy * (cx + 1) == dx * (cy + 1) - dy * (cx + 1) + dx,
{
    assert(dy * (cx + 1 + 1) == dy * (cx + 1) + dy) by (nonlinear_arith);
    assert(dx * (cy + 1 + 1) == dx * (cy + 1) + dx) by (nonlinear_arith);
}

/// The cell `(dx, dy)` away from `pos`, on its level.
pub open spec fn offset_cell(pos: Position, dx: int, dy: int) -> Position {
    Position { x: (pos.x + dx) as i32, y: (pos.y + dy) as i32, z: pos.z }
}

/// The offset `(dx, dy)` lies within the circle of radius `r`.
pub open spec fn in_circle(dx: int, dy: int, r: int) -> bool {
    dx * dx + dy * dy <= r * r
}

/// The cell `(dx, dy)` away from `pos` is seen by ray casting with radius `r`.
pub open spec fn ray_seen(s: Seq<WorldEntity>, pos: Position, r: int, dx: int, dy: int) -> bool {
    in_circle(dx, dy, r) && sight_clear(s, pos, offset_cell(pos, dx, dy))
}

/// The cells seen in column `dx`, for `dy` from `-r` up to `upto`
/// (excluded), in order.
pub open spec fn ray_column(s: Seq<WorldEntity>, pos: Position, r: int, dx: int, upto: int) -> Seq<Position>
    decreases upto + r,
{
    if upto <= -r {
        seq![]
    } else {
        let prev = ray_column(s, pos, r, dx, upto - 1);
        if ray_seen(s, pos, r, dx, upto - 1) {
            prev.push(offset_cell(pos, dx, upto - 1))
        } else {
            prev
        }
    }
}

/// The cells seen in the columns `dx` from `-r` up to `upto` (excluded),
/// column by column.
pub open spec fn ray_columns(s: Seq<WorldEntity>, pos: Position, r: int, upto: int) -> Seq<Position>
    decreases upto + r,
{
    if upto <= -r {
        seq![]
    } else {
        ray_columns(s, pos, r, upto - 1) + ray_column(s, pos, r, upto - 1, r + 1)
    }
}

/// A cell is always in sight of itself and of each of its eight
/// neighbours: the line reaches them in at most one step.
pub proof fn lemma_neighbours_in_sight(s: Seq<WorldEntity>, from: Position, to: Position)
    requires
        -1 <= to.x - from.x <= 1,
        -1 <= to.y - from.y <= 1,
    ensures
        sight_clear(s, from, to),
{
    reveal_with_fuel(line_walk, 2);
    let w1 = line_walk(from.x as int, from.y as int, to.x as int, to.y as int, 1);
    assert(w1.0 == to.x && w1.1 == to.y);
    assert(line_reached(from, to, 1));
    assert forall|k: nat|
        1 <= k && (forall|j: nat| j <= k ==> !line_reached(from, to, j)) implies !blocks_sight_at(
        s,
        #[trigger] line_cell(from, to, k),
    ) by {
        assert(!line_reached(from, to, 1));
    }
}

/// Field of view and the end of the game.
pub struct FOVSystem;

impl FOVSystem {
    pub fn name(&self) -> (s: &'static str)
        ensures
            s@ == "FOVSystem"@,
    {
        proof {
            reveal_strlit("FOVSystem");
        }
        "FOVSystem"
    }

    /// Ends the game when an actor of the player's faction has died, or when
    /// at the bottom depth one stands on the bottom level; says so in the log.
    pub fn check_game_end(world: &GameWorld, resources: &mut Resources) -> (r: SystemResult)
        requires
            old(resources).game_state.message_log@.len() < usize::MAX,
        ensures
            player_died(world.entities@) ==> r is Stop && final(resources).game_state.game_state == (GameStatus::GameOver {
                reason: GameOverReason::Died("死亡"),
            }) && log_view(final(resources).game_state.message_log@) == log_view(
                old(resources).game_state.message_log@,
            ).push("You have died... Game Over!"@),
            !player_died(world.entities@) && player_won(
                world.entities@,
                old(resources).game_state.depth,
                old(resources).config.max_depth,
            ) ==> r is Stop && final(resources).game_state.game_state == GameStatus::Victory && log_view(
                final(resources).game_state.message_log@,
            ) == log_view(old(resources).game_state.message_log@).push("Congratulations! You won the game!"@),
            !player_died(world.entities@) && !player_won(
                world.entities@,
                old(resources).game_state.depth,
                old(resources).config.max_depth,
            ) ==> r is Continue && *final(resources) == *old(resources),
            final(resources).game_state.depth == old(resources).game_state.depth,
            final(resources).game_state.selected_class == old(resources).game_state.selected_class,
            final(resources).game_state.frame_count == old(resources).game_state.frame_count,
            final(resources).input_buffer == old(resources).input_buffer,
            final(resources).clock == old(resources).clock,
            final(resources).config == old(resources).config,
    {
        let n = world.entities.len();
        let mut i: usize = 0;
        while i < n
            invariant
                n == world.entities@.len(),
                0 <= i <= n,
                forall|j: int| 0 <= j < i ==> !is_dead_player_actor(#[trigger] world.entities@[j]),
                *resources == *old(resources),
            decreases n - i,
        {
            let dead = match (&world.entities[i].actor, &world.entities[i].stats) {
                (Some(a), Some(st)) => a.faction == Faction::Player && st.hp == 0,
                _ => false,
            };
            if dead {
                assert(is_dead_player_actor(world.entities@[i as int]));
                resources.game_state.game_state = GameStatus::GameOver { reason: GameOverReason::Died("死亡") };
                let ghost before = resources.game_state.message_log@;
                resources.game_state.message_log.push(String::from_str("You have died... Game Over!"));
                assert(log_view(resources.game_state.message_log@) =~= log_view(before).push(
                    "You have died... Game Over!"@,
                ));
                return SystemResult::Stop;
            }
            i = i + 1;
        }
        let max_depth = resources.config.max_depth;
        if resources.game_state.depth >= max_depth {
            let mut k: usize = 0;
            while k < n
                invariant
                    n == world.entities@.len(),
                    0 <= k <= n,
                    max_depth == resources.config.max_depth,
                    forall|j: int| 0 <= j < k ==> !is_player_actor_on(#[trigger] world.entities@[j], max_depth),
                    forall|j: int| 0 <= j < n ==> !is_dead_player_actor(#[trigger] world.entities@[j]),
                    *resources == *old(resources),
                    resources.game_state.depth >= max_depth,
                decreases n - k,
            {
                let on_bottom = match (&world.entities[k].actor, &world.entities[k].position) {
                    (Some(a), Some(p)) => a.faction == Faction::Player && p.z as usize == max_depth,
                    _ => false,
                };
                if on_bottom {
                    assert(is_player_actor_on(world.entities@[k as int], max_depth));
                    resources.game_state.game_state = GameStatus::Victory;
                    let ghost before = resources.game_state.message_log@;
                    resources.game_state.message_log.push(String::from_str("Congratulations! You won the game!"));
                    assert(log_view(resources.game_state.message_log@) =~= log_view(before).push(
                        "Congratulations! You won the game!"@,
                    ));
                    return SystemResult::Stop;
                }
                k = k + 1;
            }
        }
        SystemResult::Continue
    }

    /// Ray casting field of view: the viewer's own cell, then, column by
    /// column and row by row over the square of radius `range`, every cell
    /// within the circle of that radius that Bresenham's line from the viewer
    /// reaches unblocked (the viewer's cell comes again among them).
    pub fn ray_casting_fov(pos: &Position, range: u8, world: &GameWorld) -> (v: Vec<Position>)
        requires
            pos.x - range >= i32::MIN,
            pos.x + range <= i32::MAX,
            pos.y - range >= i32::MIN,
            pos.y + range <= i32::MAX,
        ensures
            v@ == seq![*pos] + ray_columns(world.entities@, *pos, range as int, range as int + 1),
    {
        let ghost s = world.entities@;
        let r = range as i32;
        let mut visible: Vec<Position> = Vec::new();
        visible.push(*pos);
        assert(visible@ =~= seq![*pos] + ray_columns(s, *pos, r as int, -r as int));
        let mut dx: i32 = -r;
        while dx <= r
            invariant
                r == range as i32,
                0 <= r <= 255,
                -r <= dx <= r + 1,
                s == world.entities@,
                pos.x - range >= i32::MIN,
                pos.x + range <= i32::MAX,
                pos.y - range >= i32::MIN,
                pos.y + range <= i32::MAX,
                visible@ == seq![*pos] + ray_columns(s, *pos, r as int, dx as int),
            decreases r + 1 - dx,
        {
            let ghost before = visible@;
            let mut dy: i32 = -r;
            while dy <= r
                invariant
                    r == range as i32,
                    0 <= r <= 255,
                    -r <= dx <= r,
                    -r <= dy <= r + 1,
                    s == world.entities@,
                    pos.x - range >= i32::MIN,
                    pos.x + range <= i32::MAX,
                    pos.y - range >= i32::MIN,
                    pos.y + range <= i32::MAX,
                    before == seq![*pos] + ray_columns(s, *pos, r as int, dx as int),
                    visible@ == before + ray_column(s, *pos, r as int, dx as int, dy as int),
                decreases r + 1 - dy,
            {
                assert(dx * dx <= 65025 && dy * dy <= 65025 && r * r <= 65025) by (nonlinear_arith)
                    requires
                        -255 <= dx <= 255,
                        -255 <= dy <= 255,
                        0 <= r <= 255,
                ;
                assert(0 <= dx * dx && 0 <= dy * dy) by (nonlinear_arith);
                let d2 = dx * dx + dy * dy;
                if d2 <= r * r {
                    let target = Position::new(pos.x + dx, pos.y + dy, pos.z);
                    assert(target == offset_cell(*pos, dx as int, dy as int));
                    if Self::bresenham_line_of_sight(pos, &target, world) {
                        visible.push(target);
                    }
                }
                assert(visible@ =~= before + ray_column(s, *pos, r as int, dx as int, dy as int + 1));
                dy = dy + 1;
            }
            assert(visible@ =~= seq![*pos] + ray_columns(s, *pos, r as int, dx as int + 1));
            dx = dx + 1;
        }
        visible
    }

    /// Whether `to` is in sight of `from` along Bresenham's line: walks the
    /// line and fails at the first cell, other than the start, that blocks
    /// sight before the target is reached.
    pub fn bresenham_line_of_sight(from: &Position, to: &Position, world: &GameWorld) -> (r: bool)
        requires
            line_fits(*from, *to),
        ensures
            r == sight_clear(world.entities@, *from, *to),
    {
        let ghost s = world.entities@;
        let ghost fx = from.x as int;
        let ghost fy = from.y as int;
        let ghost tx = to.x as int;
        let ghost ty = to.y as int;
        let mut x = from.x;
        let mut y = from.y;
        let dx = if to.x >= from.x { to.x - from.x } else { from.x - to.x };
        let dy = if to.y >= from.y { to.y - from.y } else { from.y - to.y };
        let sx: i32 = if from.x < to.x { 1 } else { -1 };
        let sy: i32 = if from.y < to.y { 1 } else { -1 };
        let mut err = dx - dy;
        let ghost mut k: nat = 0;
        let ghost mut cx: int = 0;
        let ghost mut cy: int = 0;
        assert(err == dx * (cy + 1) - dy * (cx + 1)) by (nonlinear_arith)
            requires
                err == dx - dy,
                cx == 0,
                cy == 0,
        ;
        loop
            invariant
                dx == span(fx, tx),
                dy == span(fy, ty),
                sx == toward(fx, tx),
                sy == toward(fy, ty),
                fx == from.x,
                fy == from.y,
                tx == to.x,
                ty == to.y,
                s == world.entities@,
                0 <= dx < LINE_LIMIT,
                0 <= dy < LINE_LIMIT,
                0 <= cx <= dx,
                0 <= cy <= dy,
                x == (if sx == 1 { fx + cx } else { fx - cx }),
                y == (if sy == 1 { fy + cy } else { fy - cy }),
                err == dx * (cy + 1) - dy * (cx + 1),
                -2 * dy <= err <= 2 * dx,
                cx + cy >= k,
                line_walk(fx, fy, tx, ty, k) == (x as int, y as int, err as int),
                forall|j: nat| j < k ==> !line_reached(*from, *to, j),
                forall|j: nat| 1 <= j < k ==> !blocks_sight_at(s, #[trigger] line_cell(*from, *to, j)),
            decreases (dx - cx) + (dy - cy),
        {
            if x == to.x && y == to.y {
                proof {
                    assert(line_reached(*from, *to, k));
                    assert forall|kk: nat|
                        1 <= kk && (forall|j: nat| j <= kk ==> !line_reached(*from, *to, j)) implies !blocks_sight_at(
                        s,
                        #[trigger] line_cell(*from, *to, kk),
                    ) by {
                        if kk >= k {
                            assert(!line_reached(*from, *to, k));
                        }
                    }
                }
                return true;
            }
            proof {
                assert(!line_reached(*from, *to, k));
            }
            if x != from.x || y != from.y {
                let here = Position::new(x, y, from.z);
                if Self::is_blocked(&here, world) {
                    proof {
                        assert(k >= 1);
                        assert(line_cell(*from, *to, k) == here);
                        assert forall|j: nat| j <= k implies !line_reached(*from, *to, j) by {
                            if j < k {
                            }
                        }
                    }
                    return false;
                }
                proof {
                    assert(line_cell(*from, *to, k) == here);
                }
            } else {
                proof {
                    if k >= 1 {
                        assert(cx + cy >= 1);
                    }
                }
            }
            proof {
                lemma_walk_progress(dx as int, dy as int, cx, cy, err as int);
                lemma_walk_error(dx as int, dy as int, cx, cy);
            }
            let e2 = 2 * err;
            if e2 > -dy {
                err = err - dy;
                x = x + sx;
                proof {
                    cx = cx + 1;
                }
            }
            if e2 < dx {
                err = err + dx;
                y = y + sy;
                proof {
                    cy = cy + 1;
                }
            }
            proof {
                assert(line_walk(fx, fy, tx, ty, k + 1) == bresenham_step(
                    line_walk(fx, fy, tx, ty, k),
                    span(fx, tx),
                    span(fy, ty),
                    toward(fx, tx),
                    toward(fy, ty),
                ));
                k = k + 1;
            }
        }
    }

    /// Whether a cell blocks sight.
    pub fn is_blocked(pos: &Position, world: &GameWorld) -> (r: bool)
        ensures
            r == blocks_sight_at(world.entities@, *pos),
    {
        let n = world.entities.len();
        let mut i: usize = 0;
        while i < n
            invariant
                n == world.entities@.len(),
                0 <= i <= n,
                forall|j: int|
                    0 <= j < i ==> !((#[trigger] world.entities@[j]).position == Some(*pos)
                        && world.entities@[j].tile is Some),
            decreases n - i,
        {
            match (&world.entities[i].position, &world.entities[i].tile) {
                (Some(p), Some(t)) => {
                    if *p == *pos {
                        assert(is_first_tile_at(world.entities@, *pos, i as int));
                        proof {
                            if !t.blocks_sight {
                                assert forall|k: int|
                                    is_first_tile_at(world.entities@, *pos, k) implies !world.entities@[k].tile->0.blocks_sight by {
                                    if k < i {
                                        assert(world.entities@[k].position == Some(*pos));
                                    } else if k > i {
                                        assert(world.entities@[i as int].position == Some(*pos));
                                    }
                                }
                            }
                        }
                        return t.blocks_sight;
                    }
                },
                _ => {},
            }
            i = i + 1;
        }
        false
    }
}

} // verus!

//! Properties of the engine stated on their own: the invariants every
//! reachable session state keeps, and that following a clear path to the
//! goal wins in exactly as many accepted moves as the path has steps.

use vstd::prelude::*;

use crate::engine::{clamped_target, move_target, Direction, GameView};
use crate::grid::{blocked, cell, grid_fits, grid_rect, grid_set, in_grid, is_solid, Point, EMPTY, PLAYER};

verus! {

/// In every well-formed session state the player stands inside the grid.
pub proof fn lemma_player_in_bounds(v: GameView)
    requires
        v.wf(),
    ensures
        0 <= v.player.y < v.grid.len(),
        0 <= v.player.x < v.grid[v.player.y as int].len(),
{
}

/// In every well-formed session state the player's cell is not solid.
pub proof fn lemma_player_cell_not_solid(v: GameView)
    requires
        v.wf(),
    ensures
        !blocked(v.grid, v.player),
{
}

/// In every well-formed session state exactly one cell holds `PLAYER`: the
/// player's own.
pub proof fn lemma_single_occupant(v: GameView)
    requires
        v.wf(),
    ensures
        forall|q: Point|
            in_grid(v.grid, q) ==> ((#[trigger] cell(v.grid, q) == PLAYER) <==> q == v.player),
{
}

/// Two points are adjacent: they differ by one step along exactly one axis.
pub open spec fn adjacent(a: Point, b: Point) -> bool {
    ||| a.x == b.x && (b.y == a.y - 1 || b.y == a.y + 1)
    ||| a.y == b.y && (b.x == a.x - 1 || b.x == a.x + 1)
}

/// The direction that moves `a` to an adjacent `b`.
pub open spec fn dir_between(a: Point, b: Point) -> Direction {
    if a.x == b.x && b.y == a.y - 1 {
        Direction::Up
    } else if a.x == b.x && b.y == a.y + 1 {
        Direction::Down
    } else if a.y == b.y && b.x == a.x - 1 {
        Direction::Left
    } else if a.y == b.y && b.x == a.x + 1 {
        Direction::Right
    } else {
        Direction::Stay
    }
}

/// Every cell of the path lies in the grid and is not blocked, and each
/// step of the path moves to an adjacent cell.
pub open spec fn is_clear_path(g: Seq<Seq<i32>>, path: Seq<Point>) -> bool {
    &&& forall|i: int|
        0 <= i < path.len() ==> in_grid(g, #[trigger] path[i]) && !blocked(g, path[i])
    &&& forall|i: int| 0 <= i < path.len() - 1 ==> adjacent(#[trigger] path[i], path[i + 1])
}

/// The directions that walk along the path, one per step.
pub open spec fn dirs_of(path: Seq<Point>) -> Seq<Direction> {
    Seq::new((path.len() - 1) as nat, |i: int| dir_between(path[i], path[i + 1]))
}

/// The state after processing a whole sequence of moves, first to last.
pub open spec fn run_moves(v: GameView, ds: Seq<Direction>) -> GameView
    decreases ds.len(),
{
    if ds.len() == 0 {
        v
    } else {
        run_moves(v.step_v(ds[0]), ds.skip(1))
    }
}

/// The two grids have the same extents and block movement at the same
/// cells.
pub open spec fn same_footprint(g1: Seq<Seq<i32>>, g2: Seq<Seq<i32>>) -> bool {
    &&& g1.len() == g2.len()
    &&& forall|y: int| 0 <= y < g1.len() ==> (#[trigger] g1[y]).len() == g2[y].len()
    &&& forall|p: Point|
        in_grid(g1, p) ==> is_solid(#[trigger] cell(g1, p)) == is_solid(cell(g2, p))
}

proof fn lemma_run_path(v: GameView, g0: Seq<Seq<i32>>, path: Seq<Point>)
    requires
        grid_rect(v.grid),
        grid_fits(v.grid),
        same_footprint(g0, v.grid),
        path.len() >= 1,
        path[0] == v.player,
        is_clear_path(g0, path),
    ensures
        run_moves(v, dirs_of(path)).player == path[path.len() - 1],
        run_moves(v, dirs_of(path)).goal == v.goal,
        run_moves(v, dirs_of(path)).turns == v.turns + path.len() - 1,
    decreases path.len(),
{
    if path.len() == 1 {
        assert(dirs_of(path) =~= Seq::<Direction>::empty());
    } else {
        let p = path[0];
        let t = path[1];
        let d = dir_between(p, t);
        assert(adjacent(p, t));
        assert(in_grid(g0, p) && in_grid(g0, t));
        assert(in_grid(v.grid, t));
        assert(clamped_target(v.grid, p, d) == t);
        assert(!is_solid(cell(v.grid, t)));
        assert(move_target(v.grid, v.player, d) == t);
        let v1 = v.step_v(d);
        assert(v1.player == t && v1.goal == v.goal && v1.turns == v.turns + 1);
        assert(v1.grid == grid_set(grid_set(v.grid, p, EMPTY), t, PLAYER));
        assert(forall|y: int|
            0 <= y < v1.grid.len() ==> (#[trigger] v1.grid[y]).len() == v.grid[y].len());
        assert(grid_rect(v1.grid));
        assert(forall|q: Point|
            in_grid(v.grid, q) && q != p && q != t ==> #[trigger] cell(v1.grid, q) == cell(
                v.grid,
                q,
            ));
        assert(cell(v1.grid, t) == PLAYER && !is_solid(PLAYER as i32));
        assert(p != t ==> cell(v1.grid, p) == EMPTY);
        assert(same_footprint(g0, v1.grid));
        let rest = path.skip(1);
        assert(rest[0] == t && t == v1.player);
        assert(is_clear_path(g0, rest)) by {
            assert(forall|i: int|
                0 <= i < rest.len() ==> in_grid(g0, #[trigger] rest[i]) && !blocked(g0, rest[i]));
            assert(forall|i: int|
                0 <= i < rest.len() - 1 ==> adjacent(#[trigger] rest[i], rest[i + 1])) by {
                assert(forall|i: int|
                    0 <= i < rest.len() - 1 ==> #[trigger] rest[i] == path[i + 1] && rest[i + 1]
                        == path[i + 2]);
            }
        }
        lemma_run_path(v1, g0, rest);
        assert(dirs_of(path).skip(1) =~= dirs_of(rest));
        assert(dirs_of(path)[0] == d);
        assert(run_moves(v, dirs_of(path)) == run_moves(v1, dirs_of(rest)));
        assert(rest[rest.len() - 1] == path[path.len() - 1]);
    }
}

/// Termination: when the goal is reachable from the player's cell along a
/// clear path, the moves that follow that path win the game in exactly as
/// many accepted moves as the path has steps.
pub proof fn lemma_clear_path_wins(v: GameView, path: Seq<Point>)
    requires
        v.wf(),
        path.len() >= 1,
        path[0] == v.player,
        path[path.len() - 1] == v.goal,
        is_clear_path(v.grid, path),
    ensures
        run_moves(v, dirs_of(path)).won(),
        run_moves(v, dirs_of(path)).turns == v.turns + path.len() - 1,
{
    lemma_run_path(v, v.grid, path);
}

} // verus!

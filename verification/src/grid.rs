//! The grid model: cell codes, positions, and row-major lookups over a
//! rectangular map of cells.

use vstd::prelude::*;

verus! {

/// Cell code for an empty, walkable cell.
pub const EMPTY: i32 = 0;

/// Cell code for a wall; the only solid (blocking) code.
pub const WALL: i32 = 1;

/// Cell code for the goal cell.
pub const GOAL: i32 = 5;

/// Cell code for the cell the player currently occupies.
pub const PLAYER: i32 = 9;

/// A cell coordinate in a grid: `x` is the column, `y` the row, both 0-indexed.
#[derive(Debug, PartialEq, Eq, Structural)]
pub struct Point {
    pub x: i32,
    pub y: i32,
}

impl Point {
    /// Two points are equal exactly when both coordinates agree.
    pub fn eq(&self, other: &Point) -> (r: bool)
        ensures
            r == (*self == *other),
    {
        self.x == other.x && self.y == other.y
    }

    /// An explicit copy of the point.
    pub fn clone(&self) -> (r: Point)
        ensures
            r == *self,
    {
        Point { x: self.x, y: self.y }
    }
}

/// The mathematical value of a grid: each row of the vector as a sequence.
pub open spec fn grid_view(map: Seq<Vec<i32>>) -> Seq<Seq<i32>> {
    Seq::new(map.len(), |y: int| map[y]@)
}

/// A grid is rectangular: at least one row, at least one column, and every
/// row as long as the first.
pub open spec fn grid_rect(g: Seq<Seq<i32>>) -> bool {
    &&& g.len() > 0
    &&& g[0].len() > 0
    &&& forall|y: int| 0 <= y < g.len() ==> (#[trigger] g[y]).len() == g[0].len()
}

/// Both grid extents fit in an `i32`, so that every cell is addressable by a
/// `Point`.
pub open spec fn grid_fits(g: Seq<Seq<i32>>) -> bool {
    g.len() <= i32::MAX && (g.len() > 0 ==> g[0].len() <= i32::MAX)
}

/// The point lies within the grid extents.
pub open spec fn in_grid(g: Seq<Seq<i32>>, p: Point) -> bool {
    0 <= p.y < g.len() && 0 <= p.x < g[p.y as int].len()
}

/// The cell code stored at a point.
pub open spec fn cell(g: Seq<Seq<i32>>, p: Point) -> i32 {
    g[p.y as int][p.x as int]
}

/// The grid with the cell at `p` overwritten by `v`.
pub open spec fn grid_set(g: Seq<Seq<i32>>, p: Point, v: i32) -> Seq<Seq<i32>> {
    g.update(p.y as int, g[p.y as int].update(p.x as int, v))
}

/// A code is solid exactly when it blocks movement; only walls do.
pub open spec fn is_solid(c: i32) -> bool {
    c == WALL
}

/// Whether a solid cell stands at the point.
pub open spec fn blocked(g: Seq<Seq<i32>>, p: Point) -> bool {
    is_solid(cell(g, p))
}

/// `a` comes no later than `b` in a row-major scan.
pub open spec fn scan_le(a: Point, b: Point) -> bool {
    a.y < b.y || (a.y == b.y && a.x <= b.x)
}

/// Some cell in the grid holds `code`.
pub open spec fn grid_has(g: Seq<Seq<i32>>, code: i32) -> bool {
    exists|p: Point| in_grid(g, p) && #[trigger] cell(g, p) == code
}

/// `p` is the one and only cell holding `code`.
pub open spec fn unique_at(g: Seq<Seq<i32>>, code: i32, p: Point) -> bool {
    &&& in_grid(g, p)
    &&& cell(g, p) == code
    &&& forall|q: Point| in_grid(g, q) && #[trigger] cell(g, q) == code ==> q == p
}

/// Exactly one cell in the grid holds `code`.
pub open spec fn has_unique(g: Seq<Seq<i32>>, code: i32) -> bool {
    exists|p: Point| #[trigger] unique_at(g, code, p)
}

/// Tests whether a code blocks movement, as [`is_solid`] says.
pub fn is_solid_code(c: i32) -> (r: bool)
    ensures
        r == is_solid(c),
{
    c == WALL
}

/// Returns the cell code at a point; the point must be in bounds.
pub fn get_with_point(map: &Vec<Vec<i32>>, point: &Point) -> (c: i32)
    requires
        in_grid(grid_view(map@), *point),
    ensures
        c == cell(grid_view(map@), *point),
{
    map[point.y as usize][point.x as usize]
}

/// Overwrites the cell code at a point; the point must be in bounds.
pub fn set_with_point(map: &mut Vec<Vec<i32>>, point: &Point, v: i32)
    requires
        in_grid(grid_view(old(map)@), *point),
    ensures
        grid_view(final(map)@) == grid_set(grid_view(old(map)@), *point, v),
{
    let y = point.y as usize;
    let x = point.x as usize;
    map[y][x] = v;
    proof {
        let g0 = grid_view(old(map)@);
        let g1 = grid_view(map@);
        assert(g1[y as int] =~= g0[y as int].update(x as int, v));
        assert(g1 =~= grid_set(g0, *point, v));
    }
}

/// Scans the grid in row-major order and returns the position of the last
/// cell holding `num`; returns the origin when no cell does.
pub fn find_in_map(map: &Vec<Vec<i32>>, num: i32) -> (pos: Point)
    requires
        map@.len() <= i32::MAX,
        forall|y: int| 0 <= y < map@.len() ==> (#[trigger] map@[y])@.len() <= i32::MAX,
    ensures
        ({
            let g = grid_view(map@);
            if grid_has(g, num) {
                &&& in_grid(g, pos)
                &&& cell(g, pos) == num
                &&& forall|q: Point| in_grid(g, q) && #[trigger] cell(g, q) == num ==> scan_le(
                    q,
                    pos,
                )
            } else {
                pos == (Point { x: 0, y: 0 })
            }
        }),
{
    let ghost g = grid_view(map@);
    let mut pos = Point { x: 0, y: 0 };
    let ghost mut found = false;
    let mut y: usize = 0;
    while y < map.len()
        invariant
            g == grid_view(map@),
            map@.len() <= i32::MAX,
            forall|yy: int| 0 <= yy < map@.len() ==> (#[trigger] map@[yy])@.len() <= i32::MAX,
            y <= map@.len(),
            found == exists|q: Point|
                q.y < y && in_grid(g, q) && #[trigger] cell(g, q) == num,
            found ==> in_grid(g, pos) && cell(g, pos) == num && pos.y < y,
            !found ==> pos == (Point { x: 0, y: 0 }),
            forall|q: Point|
                q.y < y && in_grid(g, q) && #[trigger] cell(g, q) == num ==> scan_le(q, pos),
        decreases map@.len() - y,
    {
        let row_len = map[y].len();
        let mut x: usize = 0;
        while x < row_len
            invariant
                g == grid_view(map@),
                map@.len() <= i32::MAX,
                forall|yy: int| 0 <= yy < map@.len() ==> (#[trigger] map@[yy])@.len() <= i32::MAX,
                y < map@.len(),
                row_len == g[y as int].len(),
                x <= row_len,
                found == exists|q: Point|
                    (q.y < y || (q.y == y && q.x < x)) && in_grid(g, q) && #[trigger] cell(g, q)
                        == num,
                found ==> in_grid(g, pos) && cell(g, pos) == num && (pos.y < y || (pos.y == y
                    && pos.x < x)),
                !found ==> pos == (Point { x: 0, y: 0 }),
                forall|q: Point|
                    (q.y < y || (q.y == y && q.x < x)) && in_grid(g, q) && #[trigger] cell(g, q)
                        == num ==> scan_le(q, pos),
            decreases row_len - x,
        {
            if map[y][x] == num {
                pos = Point { x: x as i32, y: y as i32 };
                proof {
                    found = true;
                    assert(in_grid(g, pos) && cell(g, pos) == num);
                }
            }
            x = x + 1;
        }
        y = y + 1;
    }
    proof {
        if grid_has(g, num) {
            let q = choose|q: Point| in_grid(g, q) && #[trigger] cell(g, q) == num;
            assert(q.y < y && in_grid(g, q) && cell(g, q) == num);
        }
    }
    pos
}

} // verus!

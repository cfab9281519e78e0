//! The built-in maze layouts, and the uniform-random choice of one of them
//! at the start of a session.

use rand::Rng;
use vstd::prelude::*;

use crate::engine::map_fault;
use crate::grid::{grid_view, unique_at, Point, GOAL, PLAYER};

verus! {

/// Relies on rand: `thread_rng` yields the thread-local generator and
/// `Rng::gen_range` samples uniformly from `0..n`, panicking only on an
/// empty range; every outcome lies below `n`.
#[verifier::external_body]
fn random_index(n: usize) -> (r: usize)
    requires
        n >= 1,
    ensures
        r < n,
{
    rand::thread_rng().gen_range(0..n)
}

/// An exact working copy of a layout, so that the read-only template is
/// never mutated in place.
pub fn clone_grid(map: &Vec<Vec<i32>>) -> (m: Vec<Vec<i32>>)
    ensures
        grid_view(m@) == grid_view(map@),
        m@.len() == map@.len(),
        forall|y: int| 0 <= y < m@.len() ==> (#[trigger] m@[y])@ == map@[y]@,
{
    let mut m: Vec<Vec<i32>> = Vec::new();
    let mut y: usize = 0;
    while y < map.len()
        invariant
            y <= map@.len(),
            m@.len() == y,
            forall|yy: int| 0 <= yy < y ==> (#[trigger] m@[yy])@ == map@[yy]@,
        decreases map@.len() - y,
    {
        let row_len = map[y].len();
        let mut row: Vec<i32> = Vec::new();
        let mut x: usize = 0;
        while x < row_len
            invariant
                y < map@.len(),
                row_len == map@[y as int]@.len(),
                x <= row_len,
                row@ == map@[y as int]@.take(x as int),
            decreases row_len - x,
        {
            row.push(map[y][x]);
            proof {
                assert(row@ =~= map@[y as int]@.take(x + 1));
            }
            x = x + 1;
        }
        proof {
            assert(row@ =~= map@[y as int]@);
        }
        m.push(row);
        y = y + 1;
    }
    proof {
        assert(grid_view(m@) =~= grid_view(map@));
    }
    m
}

/// Hands back a working copy of the layout at `index`; the explicit index
/// lets a caller with its own source of randomness select a map
/// deterministically. The templates themselves stay untouched.
pub fn pick_map_at(maps: &Vec<Vec<Vec<i32>>>, index: usize) -> (m: Vec<Vec<i32>>)
    requires
        index < maps@.len(),
    ensures
        grid_view(m@) == grid_view(maps@[index as int]@),
{
    clone_grid(&maps[index])
}

/// Picks one layout uniformly at random and hands back a working copy of
/// it, as [`pick_map_at`] does for the drawn index.
pub fn pick_map(maps: &Vec<Vec<Vec<i32>>>) -> (m: Vec<Vec<i32>>)
    requires
        maps@.len() >= 1,
    ensures
        exists|i: int|
            0 <= i < maps@.len() && grid_view(m@) == grid_view((#[trigger] maps@[i])@),
{
    let i = random_index(maps.len());
    let m = pick_map_at(maps, i);
    proof {
        assert(grid_view(m@) == grid_view(maps@[i as int]@));
    }
    m
}

/// The built-in maze layouts: each rectangular, with exactly one `PLAYER`
/// and one `GOAL` cell, so that each loads without fault.
pub fn get_maps() -> (maps: Vec<Vec<Vec<i32>>>)
    ensures
        maps@.len() >= 1,
        forall|i: int|
            0 <= i < maps@.len() ==> map_fault(grid_view((#[trigger] maps@[i])@)) is None,
{
    let map_a: Vec<Vec<i32>> = vec![
        vec![1, 1, 1, 1, 1, 1, 1],
        vec![1, 9, 0, 0, 1, 0, 1],
        vec![1, 1, 1, 0, 1, 0, 1],
        vec![1, 0, 0, 0, 0, 0, 1],
        vec![1, 0, 1, 1, 1, 0, 1],
        vec![1, 0, 0, 0, 1, 5, 1],
        vec![1, 1, 1, 1, 1, 1, 1],
    ];
    let map_b: Vec<Vec<i32>> = vec![
        vec![1, 1, 1, 1, 1, 1, 1, 1, 1],
        vec![1, 0, 0, 0, 0, 0, 0, 9, 1],
        vec![1, 0, 1, 1, 1, 1, 1, 0, 1],
        vec![1, 0, 1, 5, 0, 0, 1, 0, 1],
        vec![1, 0, 1, 1, 1, 0, 1, 0, 1],
        vec![1, 0, 0, 0, 0, 0, 1, 0, 1],
        vec![1, 1, 1, 1, 1, 1, 1, 1, 1],
    ];
    let map_c: Vec<Vec<i32>> = vec![
        vec![1, 1, 1],
        vec![1, 9, 1],
        vec![1, 5, 1],
        vec![1, 1, 1],
    ];
    proof {
        assert(unique_at(grid_view(map_a@), PLAYER, Point { x: 1, y: 1 }));
        assert(unique_at(grid_view(map_a@), GOAL, Point { x: 5, y: 5 }));
        assert(unique_at(grid_view(map_b@), PLAYER, Point { x: 7, y: 1 }));
        assert(unique_at(grid_view(map_b@), GOAL, Point { x: 3, y: 3 }));
        assert(unique_at(grid_view(map_c@), PLAYER, Point { x: 1, y: 1 }));
        assert(unique_at(grid_view(map_c@), GOAL, Point { x: 1, y: 2 }));
    }
    let mut maps: Vec<Vec<Vec<i32>>> = Vec::new();
    maps.push(map_a);
    maps.push(map_b);
    maps.push(map_c);
    maps
}

} // verus!

//! The move engine and the game session state: direction decoding, the
//! bounds-clamp and obstacle-rejection rules, the turn counter, and the win
//! check.

use vstd::prelude::*;

use crate::grid::{
    cell, get_with_point, grid_fits, grid_rect, grid_set, grid_view, has_unique, in_grid,
    is_solid, is_solid_code, set_with_point, unique_at, Point, EMPTY, GOAL, PLAYER,
};

verus! {

/// A requested move: one of the four axis directions, or no move at all.
#[derive(Debug, PartialEq, Eq, Structural)]
pub enum Direction {
    Up,
    Down,
    Left,
    Right,
    Stay,
}

/// The direction a character stands for: `w`, `a`, `s`, `d` move, anything
/// else stays.
pub open spec fn char_direction(ch: char) -> Direction {
    if ch == 'w' {
        Direction::Up
    } else if ch == 's' {
        Direction::Down
    } else if ch == 'a' {
        Direction::Left
    } else if ch == 'd' {
        Direction::Right
    } else {
        Direction::Stay
    }
}

/// The direction an input yields: a character as [`char_direction`] says,
/// absent input (end of the stream, or a key that is no character) stays.
pub open spec fn input_direction(ch: Option<char>) -> Direction {
    match ch {
        Some(c) => char_direction(c),
        None => Direction::Stay,
    }
}

impl Direction {
    /// Decodes a pressed character into a direction.
    pub fn from(ch: char) -> (d: Direction)
        ensures
            d == char_direction(ch),
    {
        match ch {
            'w' => Direction::Up,
            's' => Direction::Down,
            'a' => Direction::Left,
            'd' => Direction::Right,
            _ => Direction::Stay,
        }
    }

    /// Decodes one unit of input: a character as [`Direction::from`] does,
    /// absent input as `Stay`.
    pub fn from_input(ch: Option<char>) -> (d: Direction)
        ensures
            d == input_direction(ch),
    {
        match ch {
            Some(c) => Direction::from(c),
            None => Direction::Stay,
        }
    }
}

/// The target cell after the bounds clamp alone: one step in the direction,
/// unless that would leave the grid, in which case the position is kept.
pub open spec fn clamped_target(g: Seq<Seq<i32>>, p: Point, d: Direction) -> Point {
    match d {
        Direction::Up => if p.y > 0 {
            Point { x: p.x, y: (p.y - 1) as i32 }
        } else {
            p
        },
        Direction::Down => if p.y + 1 < g.len() {
            Point { x: p.x, y: (p.y + 1) as i32 }
        } else {
            p
        },
        Direction::Left => if p.x > 0 {
            Point { x: (p.x - 1) as i32, y: p.y }
        } else {
            p
        },
        Direction::Right => if p.x + 1 < g[0].len() {
            Point { x: (p.x + 1) as i32, y: p.y }
        } else {
            p
        },
        Direction::Stay => p,
    }
}

/// The position after a move: the clamped target, reverted to the current
/// position when the target cell is solid.
pub open spec fn move_target(g: Seq<Seq<i32>>, p: Point, d: Direction) -> Point {
    let t = clamped_target(g, p, d);
    if t != p && is_solid(cell(g, t)) {
        p
    } else {
        t
    }
}

/// The mathematical state of a game session.
pub ghost struct GameView {
    /// The grid of cell codes.
    pub grid: Seq<Seq<i32>>,
    /// The player's position, kept consistent with the unique `PLAYER` cell.
    pub player: Point,
    /// The goal position, located once at the start and cached.
    pub goal: Point,
    /// How many accepted moves have been made.
    pub turns: nat,
}

impl GameView {
    /// Well-formedness: the grid is rectangular with extents addressable by
    /// `Point`, player and goal are in bounds, the player's cell is the one
    /// and only `PLAYER` cell, and the goal cell is the one and only `GOAL`
    /// cell until the player reaches it.
    pub open spec fn wf(self) -> bool {
        &&& grid_rect(self.grid)
        &&& grid_fits(self.grid)
        &&& in_grid(self.grid, self.player)
        &&& in_grid(self.grid, self.goal)
        &&& unique_at(self.grid, PLAYER, self.player)
        &&& self.player == self.goal || cell(self.grid, self.goal) == GOAL
        &&& forall|q: Point|
            in_grid(self.grid, q) && #[trigger] cell(self.grid, q) == GOAL ==> q == self.goal
    }

    /// The win condition: the player stands on the goal.
    pub open spec fn won(self) -> bool {
        self.player == self.goal
    }

    /// The state after processing one move: on an accepted move the old cell
    /// is cleared, the target cell becomes the player's, and the turn counter
    /// grows by one; a rejected move or `Stay` leaves the state untouched.
    pub open spec fn step_v(self, d: Direction) -> GameView {
        let t = move_target(self.grid, self.player, d);
        if t == self.player {
            self
        } else {
            GameView {
                grid: grid_set(grid_set(self.grid, self.player, EMPTY), t, PLAYER),
                player: t,
                goal: self.goal,
                turns: self.turns + 1,
            }
        }
    }
}

/// Processing a move from any well-formed, not yet won state leaves the
/// state well-formed, with the goal position untouched.
pub proof fn lemma_step_v_preserves_wf(v: GameView, d: Direction)
    requires
        v.wf(),
        !v.won(),
    ensures
        v.step_v(d).wf(),
        v.step_v(d).goal == v.goal,
        v.step_v(d).grid.len() == v.grid.len(),
{
    let t = move_target(v.grid, v.player, d);
    if t != v.player {
        let g1 = grid_set(v.grid, v.player, EMPTY);
        let g2 = grid_set(g1, t, PLAYER);
        assert(in_grid(v.grid, t));
        assert(!is_solid(cell(v.grid, t)));
        assert(forall|y: int| 0 <= y < g2.len() ==> (#[trigger] g2[y]).len() == v.grid[y].len());
        assert(cell(g2, t) == PLAYER);
        assert(forall|q: Point|
            in_grid(g2, q) && q != t && q != v.player ==> #[trigger] cell(g2, q) == cell(
                v.grid,
                q,
            ));
        assert(cell(g2, v.player) == EMPTY);
        assert(t != v.goal ==> cell(g2, v.goal) == GOAL);
    }
}

/// Computes the next position for a move: the direction applied to the
/// current position, clamped to the grid bounds, and reverted if the target
/// cell is solid.
pub fn next_position(map: &Vec<Vec<i32>>, pos: &Point, dir: Direction) -> (t: Point)
    requires
        grid_rect(grid_view(map@)),
        grid_fits(grid_view(map@)),
        in_grid(grid_view(map@), *pos),
    ensures
        t == move_target(grid_view(map@), *pos, dir),
        in_grid(grid_view(map@), t),
        t != *pos ==> !is_solid(cell(grid_view(map@), t)),
{
    let ghost g = grid_view(map@);
    match dir {
        Direction::Up => {
            if pos.y > 0 {
                let cand = Point { x: pos.x, y: pos.y - 1 };
                if is_solid_code(get_with_point(map, &cand)) {
                    pos.clone()
                } else {
                    cand
                }
            } else {
                pos.clone()
            }
        },
        Direction::Down => {
            if (pos.y as usize) < map.len() - 1 {
                let cand = Point { x: pos.x, y: pos.y + 1 };
                if is_solid_code(get_with_point(map, &cand)) {
                    pos.clone()
                } else {
                    cand
                }
            } else {
                pos.clone()
            }
        },
        Direction::Left => {
            if pos.x > 0 {
                let cand = Point { x: pos.x - 1, y: pos.y };
                if is_solid_code(get_with_point(map, &cand)) {
                    pos.clone()
                } else {
                    cand
                }
            } else {
                pos.clone()
            }
        },
        Direction::Right => {
            if (pos.x as usize) < map[0].len() - 1 {
                let cand = Point { x: pos.x + 1, y: pos.y };
                if is_solid_code(get_with_point(map, &cand)) {
                    pos.clone()
                } else {
                    cand
                }
            } else {
                pos.clone()
            }
        },
        Direction::Stay => pos.clone(),
    }
}

/// Why a supplied map was rejected at load time.
#[derive(Clone, Copy, Debug, PartialEq, Eq, Structural)]
pub enum MapError {
    /// The map has no rows, or its first row has no cells.
    Empty,
    /// Some row differs in length from the first.
    NotRectangular,
    /// The map does not hold exactly one `PLAYER` cell.
    NoUniquePlayer,
    /// The map does not hold exactly one `GOAL` cell.
    NoUniqueGoal,
}

/// The first fault a map check finds, in this order: emptiness, shape,
/// player uniqueness, goal uniqueness; `None` for a well-formed map.
pub open spec fn map_fault(g: Seq<Seq<i32>>) -> Option<MapError> {
    if g.len() == 0 || g[0].len() == 0 {
        Some(MapError::Empty)
    } else if !grid_rect(g) {
        Some(MapError::NotRectangular)
    } else if !has_unique(g, PLAYER) {
        Some(MapError::NoUniquePlayer)
    } else if !has_unique(g, GOAL) {
        Some(MapError::NoUniqueGoal)
    } else {
        None
    }
}

/// One game session: the working grid, the player's and the cached goal
/// position, and the count of accepted moves.
#[derive(Debug)]
pub struct Game {
    map: Vec<Vec<i32>>,
    player: Point,
    goal: Point,
    turns: u64,
}

impl View for Game {
    type V = GameView;

    closed spec fn view(&self) -> GameView {
        GameView {
            grid: grid_view(self.map@),
            player: self.player,
            goal: self.goal,
            turns: self.turns as nat,
        }
    }
}

/// Scans the grid for the cells holding `code` and hands back the one
/// position holding it, or reports that none or more than one does.
fn find_unique(map: &Vec<Vec<i32>>, code: i32) -> (r: Option<Point>)
    requires
        grid_rect(grid_view(map@)),
        grid_fits(grid_view(map@)),
    ensures
        ({
            let g = grid_view(map@);
            match r {
                Some(p) => unique_at(g, code, p),
                None => !has_unique(g, code),
            }
        }),
{
    let ghost g = grid_view(map@);
    let mut found = false;
    let mut pos = Point { x: 0, y: 0 };
    let mut y: usize = 0;
    while y < map.len()
        invariant
            g == grid_view(map@),
            grid_rect(g),
            grid_fits(g),
            y <= map@.len(),
            found == exists|q: Point| q.y < y && in_grid(g, q) && #[trigger] cell(g, q) == code,
            found ==> in_grid(g, pos) && cell(g, pos) == code && pos.y < y,
            forall|q: Point|
                q.y < y && in_grid(g, q) && #[trigger] cell(g, q) == code ==> q == pos,
        decreases map@.len() - y,
    {
        let row_len = map[y].len();
        let mut x: usize = 0;
        while x < row_len
            invariant
                g == grid_view(map@),
                grid_rect(g),
                grid_fits(g),
                y < map@.len(),
                row_len == g[y as int].len(),
                x <= row_len,
                found == exists|q: Point|
                    (q.y < y || (q.y == y && q.x < x)) && in_grid(g, q) && #[trigger] cell(g, q)
                        == code,
                found ==> in_grid(g, pos) && cell(g, pos) == code && (pos.y < y || (pos.y == y
                    && pos.x < x)),
                forall|q: Point|
                    (q.y < y || (q.y == y && q.x < x)) && in_grid(g, q) && #[trigger] cell(g, q)
                        == code ==> q == pos,
            decreases row_len - x,
        {
            if map[y][x] == code {
                let here = Point { x: x as i32, y: y as i32 };
                assert(in_grid(g, here) && cell(g, here) == code);
                if found {
                    assert(pos != here);
                    assert(!has_unique(g, code)) by {
                        assert(forall|p: Point|
                            #[trigger] unique_at(g, code, p) ==> p == pos && p == here);
                    }
                    return None;
                }
                found = true;
                pos = here;
            }
            x = x + 1;
        }
        y = y + 1;
    }
    if found {
        assert(unique_at(g, code, pos));
        Some(pos)
    } else {
        assert(forall|p: Point| !(#[trigger] unique_at(g, code, p)));
        None
    }
}

impl Game {
    /// Validates a map and starts a session on it: the map must be
    /// rectangular and non-empty and hold exactly one `PLAYER` and one
    /// `GOAL` cell; both positions are located once here, and the turn
    /// counter starts at zero.
    pub fn new(map: Vec<Vec<i32>>) -> (r: Result<Game, MapError>)
        requires
            map@.len() <= i32::MAX,
            forall|y: int| 0 <= y < map@.len() ==> (#[trigger] map@[y])@.len() <= i32::MAX,
        ensures
            ({
                let g = grid_view(map@);
                match r {
                    Ok(game) => {
                        &&& map_fault(g) is None
                        &&& game@.wf()
                        &&& game@.grid == g
                        &&& game@.turns == 0
                        &&& !game@.won()
                    },
                    Err(e) => map_fault(g) == Some(e),
                }
            }),
    {
        let ghost g = grid_view(map@);
        if map.len() == 0 {
            return Err(MapError::Empty);
        }
        let width = map[0].len();
        if width == 0 {
            return Err(MapError::Empty);
        }
        let mut y: usize = 1;
        while y < map.len()
            invariant
                g == grid_view(map@),
                0 < width == g[0].len() <= i32::MAX,
                map@.len() <= i32::MAX,
                1 <= y <= map@.len(),
                forall|yy: int| 0 <= yy < y ==> (#[trigger] g[yy]).len() == width,
            decreases map@.len() - y,
        {
            if map[y].len() != width {
                assert(g[y as int].len() != g[0].len());
                return Err(MapError::NotRectangular);
            }
            y = y + 1;
        }
        assert(grid_rect(g));
        let player = match find_unique(&map, PLAYER) {
            Some(p) => p,
            None => {
                return Err(MapError::NoUniquePlayer);
            },
        };
        let goal = match find_unique(&map, GOAL) {
            Some(p) => p,
            None => {
                return Err(MapError::NoUniqueGoal);
            },
        };
        assert(player != goal);
        Ok(Game { map, player, goal, turns: 0 })
    }

    /// The player's current position.
    pub fn player(&self) -> (p: Point)
        ensures
            p == self@.player,
    {
        self.player.clone()
    }

    /// The goal position, located once at the start of the session.
    pub fn goal(&self) -> (p: Point)
        ensures
            p == self@.goal,
    {
        self.goal.clone()
    }

    /// How many moves have been accepted so far.
    pub fn turns(&self) -> (t: u64)
        ensures
            t == self@.turns,
    {
        self.turns
    }

    /// Whether the player has reached the goal.
    pub fn won(&self) -> (w: bool)
        ensures
            w == self@.won(),
    {
        self.player.eq(&self.goal)
    }

    /// The grid, for rendering.
    pub fn map(&self) -> (m: &Vec<Vec<i32>>)
        ensures
            grid_view(m@) == self@.grid,
    {
        &self.map
    }

    /// Processes one move: the move engine resolves the direction against
    /// the grid; an accepted move clears the old cell, marks the target cell
    /// as the player's, and counts one turn, while a rejected move or `Stay`
    /// leaves the whole state exactly as it was.
    pub fn step(&mut self, dir: Direction) -> (moved: bool)
        requires
            old(self)@.wf(),
            !old(self)@.won(),
            old(self)@.turns < u64::MAX,
        ensures
            final(self)@ == old(self)@.step_v(dir),
            final(self)@.wf(),
            final(self)@.goal == old(self)@.goal,
            moved == (final(self)@.player != old(self)@.player),
            moved ==> final(self)@.turns == old(self)@.turns + 1,
            !moved ==> *final(self) == *old(self),
    {
        proof {
            lemma_step_v_preserves_wf(old(self)@, dir);
        }
        let target = next_position(&self.map, &self.player, dir);
        if self.player.eq(&target) {
            false
        } else {
            let prev = self.player.clone();
            set_with_point(&mut self.map, &prev, EMPTY);
            set_with_point(&mut self.map, &target, PLAYER);
            self.player = target;
            self.turns = self.turns + 1;
            true
        }
    }
}

} // verus!

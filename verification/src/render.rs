//! Rendering a grid as terminal text: each cell code becomes a fixed
//! two-column colored block, each row one line, with an optional prefix that
//! clears the screen first.

use vstd::prelude::*;
use vstd::string::StringExecFns;

use crate::grid::{grid_view, GOAL, PLAYER, WALL};

verus! {

/// The text of one cell: walls, the goal, and the player each get their own
/// colored block; every other code renders as two blanks.
pub open spec fn cell_text(c: i32) -> Seq<char> {
    if c == WALL {
        "\x1b[48;2;250;250;255m  \x1b[0m"@
    } else if c == GOAL {
        "\x1b[48;2;0;0;250m  \x1b[0m"@
    } else if c == PLAYER {
        "\x1b[48;2;250;250;0m  \x1b[0m"@
    } else {
        "  "@
    }
}

/// The text of one row's cells, left to right.
pub open spec fn cells_text(row: Seq<i32>) -> Seq<char>
    decreases row.len(),
{
    if row.len() == 0 {
        Seq::empty()
    } else {
        cells_text(row.drop_last()) + cell_text(row.last())
    }
}

/// The text of one row: its cells followed by a line break.
pub open spec fn row_text(row: Seq<i32>) -> Seq<char> {
    cells_text(row) + "\n"@
}

/// The text of a whole grid: its rows, top to bottom.
pub open spec fn grid_text(g: Seq<Seq<i32>>) -> Seq<char>
    decreases g.len(),
{
    if g.len() == 0 {
        Seq::empty()
    } else {
        grid_text(g.drop_last()) + row_text(g.last())
    }
}

/// The control text that clears the screen and homes the cursor.
pub open spec fn clear_text() -> Seq<char> {
    "\x1b[2J\x1b[1;1H"@
}

/// The block a cell code renders as, as [`cell_text`] says.
pub fn cell_str(c: i32) -> (s: &'static str)
    ensures
        s@ == cell_text(c),
{
    if c == WALL {
        "\x1b[48;2;250;250;255m  \x1b[0m"
    } else if c == GOAL {
        "\x1b[48;2;0;0;250m  \x1b[0m"
    } else if c == PLAYER {
        "\x1b[48;2;250;250;0m  \x1b[0m"
    } else {
        "  "
    }
}

/// Renders the grid as text, one line per row, without clearing the screen.
pub fn render_map_noclear(map: &Vec<Vec<i32>>) -> (out: String)
    ensures
        out@ == grid_text(grid_view(map@)),
{
    let ghost g = grid_view(map@);
    let mut out = String::new();
    let mut y: usize = 0;
    while y < map.len()
        invariant
            g == grid_view(map@),
            y <= map@.len(),
            out@ == grid_text(g.take(y as int)),
        decreases map@.len() - y,
    {
        let row_len = map[y].len();
        let ghost row = g[y as int];
        let mut x: usize = 0;
        while x < row_len
            invariant
                g == grid_view(map@),
                y < map@.len(),
                row == g[y as int],
                row_len == row.len(),
                x <= row_len,
                out@ == grid_text(g.take(y as int)) + cells_text(row.take(x as int)),
            decreases row_len - x,
        {
            out.append(cell_str(map[y][x]));
            proof {
                assert(row.take(x + 1).drop_last() =~= row.take(x as int));
                assert(row.take(x + 1).last() == row[x as int]);
                assert(out@ =~= grid_text(g.take(y as int)) + cells_text(row.take(x + 1)));
            }
            x = x + 1;
        }
        out.append("\n");
        proof {
            assert(row.take(row.len() as int) =~= row);
            assert(g.take(y + 1).drop_last() =~= g.take(y as int));
            assert(g.take(y + 1).last() == row);
            assert(out@ =~= grid_text(g.take(y + 1)));
        }
        y = y + 1;
    }
    proof {
        assert(g.take(g.len() as int) =~= g);
    }
    out
}

/// Renders the grid as [`render_map_noclear`] does, preceded by the text
/// that clears the screen.
pub fn render_map(map: &Vec<Vec<i32>>) -> (out: String)
    ensures
        out@ == clear_text() + grid_text(grid_view(map@)),
{
    let mut out = String::new();
    out.append("\x1b[2J\x1b[1;1H");
    let body = render_map_noclear(map);
    out.append(body.as_str());
    out
}

} // verus!

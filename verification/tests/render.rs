use maze::render::{cell_str, render_map, render_map_noclear};

const WALL_BLOCK: &str = "\x1b[48;2;250;250;255m  \x1b[0m";
const GOAL_BLOCK: &str = "\x1b[48;2;0;0;250m  \x1b[0m";
const PLAYER_BLOCK: &str = "\x1b[48;2;250;250;0m  \x1b[0m";

#[test]
fn cell_str_picks_the_block_for_each_code() {
    assert_eq!(cell_str(1), WALL_BLOCK);
    assert_eq!(cell_str(5), GOAL_BLOCK);
    assert_eq!(cell_str(9), PLAYER_BLOCK);
    assert_eq!(cell_str(0), "  ");
    assert_eq!(cell_str(7), "  ");
}

#[test]
fn render_map_noclear_lays_out_rows() {
    let map = vec![vec![0, 1], vec![5, 9]];
    let expected = format!(
        "  {}\n{}{}\n",
        WALL_BLOCK, GOAL_BLOCK, PLAYER_BLOCK
    );
    assert_eq!(render_map_noclear(&map), expected);
}

#[test]
fn render_map_clears_the_screen_first() {
    let map = vec![vec![9]];
    let expected = format!("\x1b[2J\x1b[1;1H{}\n", PLAYER_BLOCK);
    assert_eq!(render_map(&map), expected);
}

#[test]
fn render_map_noclear_empty_grid_is_empty_text() {
    let map: Vec<Vec<i32>> = vec![];
    assert_eq!(render_map_noclear(&map), "");
}

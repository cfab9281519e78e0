use maze::engine::next_position;
use maze::{Direction, Game, MapError, Point};

fn example_map() -> Vec<Vec<i32>> {
    vec![vec![1, 1, 1], vec![1, 9, 1], vec![1, 5, 1]]
}

#[test]
fn down_onto_goal_wins() {
    let mut game = Game::new(example_map()).unwrap();
    assert_eq!(game.player(), Point { x: 1, y: 1 });
    assert_eq!(game.goal(), Point { x: 1, y: 2 });
    assert_eq!(game.turns(), 0);
    assert!(!game.won());
    let moved = game.step(Direction::Down);
    assert!(moved);
    assert_eq!(game.player(), Point { x: 1, y: 2 });
    assert_eq!(game.turns(), 1);
    assert!(game.won());
    assert_eq!(game.map()[1][1], 0);
    assert_eq!(game.map()[2][1], 9);
}

#[test]
fn right_into_wall_rejected() {
    let mut game = Game::new(example_map()).unwrap();
    let moved = game.step(Direction::Right);
    assert!(!moved);
    assert_eq!(game.player(), Point { x: 1, y: 1 });
    assert_eq!(game.turns(), 0);
    assert_eq!(*game.map(), example_map());
}

#[test]
fn up_into_wall_rejected() {
    let mut game = Game::new(example_map()).unwrap();
    let moved = game.step(Direction::Up);
    assert!(!moved);
    assert_eq!(game.player(), Point { x: 1, y: 1 });
    assert_eq!(game.turns(), 0);
    assert_eq!(*game.map(), example_map());
}

#[test]
fn stay_changes_nothing() {
    let mut game = Game::new(example_map()).unwrap();
    let moved = game.step(Direction::Stay);
    assert!(!moved);
    assert_eq!(game.player(), Point { x: 1, y: 1 });
    assert_eq!(game.turns(), 0);
    assert_eq!(*game.map(), example_map());
}

#[test]
fn turns_count_only_accepted_moves() {
    // An open 1x4 corridor: player walks right twice, bumps the wall once.
    let map = vec![
        vec![1, 1, 1, 1, 1, 1],
        vec![1, 9, 0, 0, 5, 1],
        vec![1, 1, 1, 1, 1, 1],
    ];
    let mut game = Game::new(map).unwrap();
    assert!(game.step(Direction::Right));
    assert!(!game.step(Direction::Up));
    assert!(!game.step(Direction::Down));
    assert!(game.step(Direction::Right));
    assert_eq!(game.turns(), 2);
    assert!(!game.won());
    assert!(game.step(Direction::Right));
    assert_eq!(game.turns(), 3);
    assert!(game.won());
}

#[test]
fn left_and_up_walk_back() {
    let map = vec![
        vec![1, 1, 1, 1],
        vec![1, 5, 0, 1],
        vec![1, 0, 0, 1],
        vec![1, 0, 9, 1],
        vec![1, 1, 1, 1],
    ];
    let mut game = Game::new(map).unwrap();
    assert!(game.step(Direction::Left));
    assert_eq!(game.player(), Point { x: 1, y: 3 });
    assert!(game.step(Direction::Up));
    assert!(game.step(Direction::Up));
    assert_eq!(game.player(), Point { x: 1, y: 1 });
    assert_eq!(game.turns(), 3);
    assert!(game.won());
}

#[test]
fn direction_from_characters() {
    assert_eq!(Direction::from('w'), Direction::Up);
    assert_eq!(Direction::from('s'), Direction::Down);
    assert_eq!(Direction::from('a'), Direction::Left);
    assert_eq!(Direction::from('d'), Direction::Right);
    assert_eq!(Direction::from('q'), Direction::Stay);
    assert_eq!(Direction::from('\n'), Direction::Stay);
}

#[test]
fn direction_from_input_handles_absence() {
    assert_eq!(Direction::from_input(Some('w')), Direction::Up);
    assert_eq!(Direction::from_input(Some('x')), Direction::Stay);
    assert_eq!(Direction::from_input(None), Direction::Stay);
}

#[test]
fn empty_map_rejected() {
    assert_eq!(Game::new(vec![]).unwrap_err(), MapError::Empty);
    assert_eq!(Game::new(vec![vec![]]).unwrap_err(), MapError::Empty);
}

#[test]
fn ragged_map_rejected() {
    let map = vec![vec![1, 1, 1], vec![1, 9], vec![1, 5, 1]];
    assert_eq!(Game::new(map).unwrap_err(), MapError::NotRectangular);
}

#[test]
fn missing_player_rejected() {
    let map = vec![vec![1, 1, 1], vec![1, 0, 1], vec![1, 5, 1]];
    assert_eq!(Game::new(map).unwrap_err(), MapError::NoUniquePlayer);
}

#[test]
fn duplicate_player_rejected() {
    let map = vec![vec![1, 9, 1], vec![1, 9, 1], vec![1, 5, 1]];
    assert_eq!(Game::new(map).unwrap_err(), MapError::NoUniquePlayer);
}

#[test]
fn missing_goal_rejected() {
    let map = vec![vec![1, 1, 1], vec![1, 9, 1], vec![1, 0, 1]];
    assert_eq!(Game::new(map).unwrap_err(), MapError::NoUniqueGoal);
}

#[test]
fn duplicate_goal_rejected() {
    let map = vec![vec![1, 5, 1], vec![1, 9, 1], vec![1, 5, 1]];
    assert_eq!(Game::new(map).unwrap_err(), MapError::NoUniqueGoal);
}

#[test]
fn next_position_applies_all_three_rules() {
    let map = vec![vec![1, 1, 1], vec![1, 9, 0], vec![1, 5, 1]];
    let here = Point { x: 1, y: 1 };
    // An open cell is entered.
    assert_eq!(next_position(&map, &here, Direction::Right), Point { x: 2, y: 1 });
    // A wall reverts the step.
    assert_eq!(next_position(&map, &here, Direction::Up), here);
    // The grid edge clamps the step.
    assert_eq!(next_position(&map, &Point { x: 2, y: 1 }, Direction::Right), Point { x: 2, y: 1 });
    // Stay never moves.
    assert_eq!(next_position(&map, &here, Direction::Stay), here);
    // The goal cell is not solid.
    assert_eq!(next_position(&map, &here, Direction::Down), Point { x: 1, y: 2 });
}

fn count_code(map: &Vec<Vec<i32>>, code: i32) -> usize {
    map.iter().map(|row| row.iter().filter(|c| **c == code).count()).sum()
}

#[test]
fn exactly_one_player_cell_throughout() {
    let map = vec![
        vec![1, 1, 1, 1, 1],
        vec![1, 9, 0, 0, 1],
        vec![1, 0, 1, 0, 1],
        vec![1, 0, 0, 5, 1],
        vec![1, 1, 1, 1, 1],
    ];
    let mut game = Game::new(map).unwrap();
    let moves = [
        Direction::Right,
        Direction::Up,
        Direction::Down,
        Direction::Right,
        Direction::Left,
        Direction::Down,
    ];
    for dir in moves {
        game.step(dir);
        assert_eq!(count_code(game.map(), 9), 1);
        assert!(!game.won());
        assert_eq!(count_code(game.map(), 5), 1);
    }
}

#[test]
fn player_stays_in_bounds_and_off_walls() {
    let map = vec![
        vec![9, 0, 1],
        vec![1, 0, 0],
        vec![0, 0, 5],
    ];
    let mut game = Game::new(map).unwrap();
    let moves = [
        Direction::Up,
        Direction::Left,
        Direction::Right,
        Direction::Right,
        Direction::Down,
        Direction::Left,
        Direction::Down,
        Direction::Up,
        Direction::Right,
    ];
    for dir in moves {
        if game.won() {
            break;
        }
        game.step(dir);
        let p = game.player();
        assert!(p.y >= 0 && (p.y as usize) < game.map().len());
        assert!(p.x >= 0 && (p.x as usize) < game.map()[p.y as usize].len());
        assert_ne!(game.map()[p.y as usize][p.x as usize], 1);
    }
}

#[test]
fn clamp_at_grid_edge() {
    // No surrounding walls: moves off the edge are clamped, not wrapped.
    let map = vec![vec![9, 0], vec![0, 5]];
    let mut game = Game::new(map).unwrap();
    assert!(!game.step(Direction::Up));
    assert!(!game.step(Direction::Left));
    assert_eq!(game.player(), Point { x: 0, y: 0 });
    assert_eq!(game.turns(), 0);
    assert!(game.step(Direction::Down));
    assert!(!game.step(Direction::Down));
    assert!(game.step(Direction::Right));
    assert!(game.won());
    assert_eq!(game.turns(), 2);
}

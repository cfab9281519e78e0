use maze::grid::{find_in_map, get_with_point, is_solid_code};
use maze::Point;

#[test]
fn point_eq_compares_both_coordinates() {
    let a = Point { x: 2, y: 3 };
    assert!(a.eq(&Point { x: 2, y: 3 }));
    assert!(!a.eq(&Point { x: 3, y: 3 }));
    assert!(!a.eq(&Point { x: 2, y: 2 }));
}

#[test]
fn point_clone_copies_coordinates() {
    let a = Point { x: 7, y: -1 };
    let b = a.clone();
    assert!(a.eq(&b));
}

#[test]
fn get_with_point_reads_row_then_column() {
    let map = vec![vec![0, 1, 2], vec![3, 4, 5]];
    assert_eq!(get_with_point(&map, &Point { x: 2, y: 1 }), 5);
    assert_eq!(get_with_point(&map, &Point { x: 1, y: 0 }), 1);
}

#[test]
fn find_in_map_returns_position() {
    let map = vec![vec![1, 1, 1], vec![1, 9, 1], vec![1, 5, 1]];
    let p = find_in_map(&map, 9);
    assert!(p.eq(&Point { x: 1, y: 1 }));
    let g = find_in_map(&map, 5);
    assert!(g.eq(&Point { x: 1, y: 2 }));
}

#[test]
fn find_in_map_last_match_wins() {
    let map = vec![vec![9, 0], vec![0, 9]];
    let p = find_in_map(&map, 9);
    assert!(p.eq(&Point { x: 1, y: 1 }));
    let map2 = vec![vec![0, 9, 9, 0]];
    let q = find_in_map(&map2, 9);
    assert!(q.eq(&Point { x: 2, y: 0 }));
}

#[test]
fn find_in_map_missing_returns_origin() {
    let map = vec![vec![1, 2], vec![3, 4]];
    let p = find_in_map(&map, 9);
    assert!(p.eq(&Point { x: 0, y: 0 }));
}

#[test]
fn only_walls_are_solid() {
    assert!(is_solid_code(1));
    assert!(!is_solid_code(0));
    assert!(!is_solid_code(5));
    assert!(!is_solid_code(9));
    assert!(!is_solid_code(7));
}

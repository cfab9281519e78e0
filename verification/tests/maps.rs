use maze::banner::draw_title;
use maze::maps::{clone_grid, get_maps, pick_map, pick_map_at};
use maze::Game;

#[test]
fn built_in_maps_all_load() {
    let maps = get_maps();
    assert!(!maps.is_empty());
    for map in &maps {
        let game = Game::new(clone_grid(map)).expect("built-in map must load");
        assert!(!game.won());
        assert_eq!(game.turns(), 0);
    }
}

#[test]
fn clone_grid_copies_without_sharing() {
    let template = vec![vec![1, 9], vec![5, 0]];
    let mut copy = clone_grid(&template);
    assert_eq!(copy, template);
    copy[0][0] = 0;
    assert_eq!(template[0][0], 1);
}

#[test]
fn pick_map_hands_out_one_of_the_layouts() {
    let maps = vec![vec![vec![9, 0, 5]]];
    let picked = pick_map(&maps);
    assert_eq!(picked, maps[0]);
}

#[test]
fn pick_map_stays_within_the_set() {
    let maps = get_maps();
    for _ in 0..20 {
        let picked = pick_map(&maps);
        assert!(maps.iter().any(|m| *m == picked));
    }
}

#[test]
fn pick_map_at_selects_deterministically() {
    let maps = get_maps();
    for (i, map) in maps.iter().enumerate() {
        assert_eq!(pick_map_at(&maps, i), *map);
    }
}

#[test]
fn draw_title_empty_yields_none() {
    assert_eq!(draw_title(""), None);
}

#[test]
fn draw_title_uncovered_characters_yield_none() {
    assert_eq!(draw_title("\u{1F600}"), None);
}

#[test]
fn draw_title_renders_ascii_art() {
    let banner = draw_title("Hi").expect("standard font renders plain text");
    assert!(banner.contains('\n'));
    assert_ne!(banner, "Hi");
    let again = draw_title("Hi").expect("standard font renders plain text");
    assert_eq!(banner, again);
}

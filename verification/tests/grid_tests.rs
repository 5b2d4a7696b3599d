use dungeon_crawl::entity::Hue;
use dungeon_crawl::grid::WallMap;
use dungeon_crawl::{GRID_HEIGHT, GRID_WIDTH};
use rand::SeedableRng;

#[test]
fn parse_small_layout() {
    let m = WallMap::new("##\n# #", Hue::White);
    assert!(m.occupied(0, 0));
    assert!(m.occupied(0, 1));
    assert!(!m.occupied(0, 2));
    assert!(m.occupied(1, 0));
    assert!(!m.occupied(1, 1));
    assert!(m.occupied(1, 2));
    assert!(!m.occupied(2, 0));
}

#[test]
fn parse_ignores_cells_beyond_the_grid() {
    let mut text = String::new();
    for _ in 0..(GRID_WIDTH + 20) {
        text.push('#');
    }
    for _ in 0..(GRID_HEIGHT + 5) {
        text.push('\n');
        text.push('#');
    }
    let m = WallMap::new(&text, Hue::White);
    assert!(m.occupied(0, 0));
    assert!(m.occupied(0, GRID_WIDTH - 1));
    for row in 1..GRID_HEIGHT {
        assert!(m.occupied(row, 0));
        assert!(!m.occupied(row, 1));
    }
}

#[test]
fn default_map_is_empty_and_white() {
    let m = WallMap::default();
    for row in 0..GRID_HEIGHT {
        for col in 0..GRID_WIDTH {
            assert!(!m.occupied(row, col));
        }
    }
    assert_eq!(m.color, Hue::White);
}

#[test]
fn add_and_remove_toggle_one_cell() {
    let mut m = WallMap::default();
    m.add(3, 7);
    assert!(m.occupied(3, 7));
    assert!(!m.occupied(7, 3));
    m.remove(3, 7);
    assert!(!m.occupied(3, 7));
}

#[test]
fn change_color_keeps_cells() {
    let mut m = WallMap::new("#", Hue::White);
    m.change_color(Hue::Red);
    assert_eq!(m.color, Hue::Red);
    assert!(m.occupied(0, 0));
}

#[test]
fn char_at_renders_walls() {
    let m = WallMap::new("# ", Hue::White);
    assert_eq!(m.char_at(0, 0), '#');
    assert_eq!(m.char_at(0, 1), ' ');
}

#[test]
fn add_random_item_marks_one_interior_cell() {
    let mut m = WallMap::default();
    let mut rng = rand::rngs::SmallRng::seed_from_u64(11);
    m.add_random_item(&mut rng);
    let mut count: usize = 0;
    for row in 0..GRID_HEIGHT {
        for col in 0..GRID_WIDTH {
            if m.occupied(row, col) {
                count += 1;
                assert!(row >= 1 && col >= 1);
            }
        }
    }
    assert_eq!(count, 1);
}

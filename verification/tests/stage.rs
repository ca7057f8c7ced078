use platformer::stage::Stage;
use platformer::units::Vec2;

const PX: i64 = 1_000_000;

fn at(x: i64, y: i64) -> Vec2 {
    Vec2 { x, y }
}

// Two rows of four tiles.
fn small() -> Stage {
    Stage::new(vec![0, 1, 0, 0, 7, 0, 3, 1], 4)
}

#[test]
fn new_keeps_tiles_and_width() {
    let stage = small();
    assert_eq!(stage.tiles(), &vec![0u8, 1, 0, 0, 7, 0, 3, 1]);
    assert_eq!(stage.width(), 4);
}

#[test]
fn solid_is_nonzero_id() {
    let stage = small();
    assert!(!stage.tile_solid_pos(at(0, 0)));
    assert!(stage.tile_solid_pos(at(16 * PX, 0)));
    assert!(stage.tile_solid_pos(at(31 * PX, 15 * PX)));
    assert!(!stage.tile_solid_pos(at(32 * PX, 0)));
    assert!(stage.tile_solid_pos(at(0, 16 * PX)));
    assert!(!stage.tile_solid_pos(at(16 * PX, 16 * PX)));
    assert!(stage.tile_solid_pos(at(32 * PX, 31 * PX)));
    assert!(stage.tile_solid_pos(at(63 * PX, 31 * PX)));
}

#[test]
fn tile_edges_belong_to_the_tile_right_and_below() {
    let stage = small();
    assert!(!stage.tile_solid_pos(at(16 * PX - 1, 0)));
    assert!(stage.tile_solid_pos(at(16 * PX, 0)));
    assert!(stage.tile_solid_pos(at(32 * PX - 1, 0)));
    assert!(stage.tile_solid_pos(at(16 * PX, 16 * PX - 1)));
    assert!(!stage.tile_solid_pos(at(16 * PX, 16 * PX)));
}

#[test]
fn negative_coordinates_are_never_solid() {
    let stage = Stage::new(vec![1; 16], 4);
    assert!(!stage.tile_solid_pos(at(-PX, 0)));
    assert!(!stage.tile_solid_pos(at(0, -PX)));
    assert!(!stage.tile_solid_pos(at(-PX, -PX)));
    assert!(!stage.tile_solid_pos(at(-1, 8 * PX)));
    assert!(!stage.tile_solid_pos(at(8 * PX, -1)));
    assert!(!stage.tile_solid_pos(at(i64::MIN, i64::MIN)));
    assert_eq!(stage.pos_to_index(at(-PX, 0)), None);
    assert_eq!(stage.pos_to_index(at(0, -PX)), None);
}

#[test]
fn beyond_the_right_edge_is_not_solid() {
    let stage = Stage::new(vec![1; 16], 4);
    assert!(stage.tile_solid_pos(at(64 * PX - 1, 0)));
    assert!(!stage.tile_solid_pos(at(64 * PX, 0)));
    assert!(!stage.tile_solid_pos(at(i64::MAX, 0)));
    assert_eq!(stage.pos_to_index(at(64 * PX, 0)), None);
}

#[test]
fn below_the_last_row_is_not_solid() {
    let stage = Stage::new(vec![1; 16], 4);
    assert!(stage.tile_solid_pos(at(0, 64 * PX - 1)));
    assert!(!stage.tile_solid_pos(at(0, 64 * PX)));
    assert!(!stage.tile_solid_pos(at(0, 80 * PX)));
    assert!(!stage.tile_solid_pos(at(0, 96 * PX)));
    assert!(!stage.tile_solid_pos(at(0, i64::MAX)));
}

#[test]
fn index_is_row_major() {
    let stage = small();
    assert_eq!(stage.pos_to_index(at(0, 0)), Some(0));
    assert_eq!(stage.pos_to_index(at(17 * PX, 17 * PX)), Some(5));
    assert_eq!(stage.pos_to_index(at(63 * PX, 31 * PX)), Some(7));
}

#[test]
fn index_band_reaches_one_tile_below_the_grid() {
    let stage = small();
    // the row just below the grid
    assert_eq!(stage.pos_to_index(at(16 * PX, 32 * PX)), Some(9));
    assert_eq!(stage.pos_to_index(at(16 * PX, 48 * PX - 1)), Some(9));
    // exactly one tile below the bottom edge is still answered
    assert_eq!(stage.pos_to_index(at(16 * PX, 48 * PX)), Some(13));
    assert_eq!(stage.pos_to_index(at(16 * PX, 48 * PX + 1)), None);
}

#[test]
fn incomplete_last_row_is_queried() {
    let stage = Stage::new(vec![0, 0, 0, 0, 5, 6], 4);
    assert!(stage.tile_solid_pos(at(0, 16 * PX)));
    assert!(stage.tile_solid_pos(at(16 * PX, 16 * PX)));
    assert!(!stage.tile_solid_pos(at(32 * PX, 16 * PX)));
    assert_eq!(stage.pos_to_index(at(32 * PX, 16 * PX)), Some(6));
}

#[test]
fn zero_width_has_no_tiles() {
    let mut stage = Stage::new(vec![1, 1, 1], 0);
    assert!(!stage.tile_solid_pos(at(0, 0)));
    assert_eq!(stage.pos_to_index(at(0, 0)), None);
    stage.set_tile_pos(0, at(0, 0));
    assert_eq!(stage.tiles(), &vec![1u8, 1, 1]);
}

#[test]
fn empty_grid_has_no_tiles() {
    let mut stage = Stage::new(Vec::new(), 4);
    assert!(!stage.tile_solid_pos(at(0, 0)));
    assert_eq!(stage.pos_to_index(at(0, 0)), Some(0));
    stage.set_tile_pos(9, at(0, 0));
    assert!(stage.tiles().is_empty());
}

#[test]
fn set_tile_overwrites_one_tile() {
    let mut stage = small();
    stage.set_tile_pos(0, at(20 * PX, 5 * PX));
    assert_eq!(stage.tiles(), &vec![0u8, 0, 0, 0, 7, 0, 3, 1]);
    assert!(!stage.tile_solid_pos(at(20 * PX, 5 * PX)));
    stage.set_tile_pos(9, at(0, 0));
    assert_eq!(stage.tiles(), &vec![9u8, 0, 0, 0, 7, 0, 3, 1]);
    assert!(stage.tile_solid_pos(at(0, 0)));
    assert_eq!(stage.width(), 4);
}

#[test]
fn set_tile_outside_changes_nothing() {
    let mut stage = small();
    stage.set_tile_pos(0, at(-PX, 0));
    stage.set_tile_pos(0, at(0, -PX));
    stage.set_tile_pos(0, at(64 * PX, 0));
    stage.set_tile_pos(0, at(0, 32 * PX));
    stage.set_tile_pos(0, at(0, 48 * PX));
    stage.set_tile_pos(0, at(0, 480 * PX));
    assert_eq!(stage.tiles(), &vec![0u8, 1, 0, 0, 7, 0, 3, 1]);
}

#[test]
fn emptied_tile_is_not_solid_anywhere_inside() {
    let mut stage = small();
    assert!(stage.tile_solid_pos(at(48 * PX, 16 * PX)));
    stage.set_tile_pos(0, at(50 * PX, 20 * PX));
    assert!(!stage.tile_solid_pos(at(48 * PX, 16 * PX)));
    assert!(!stage.tile_solid_pos(at(64 * PX - 1, 32 * PX - 1)));
    // neighbours stay
    assert!(stage.tile_solid_pos(at(47 * PX, 20 * PX)));
}

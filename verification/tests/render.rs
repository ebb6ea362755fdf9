use adventure::grid::Direction;
use adventure::motion::MovementState;
use adventure::render::TILE_SPRITE;
use adventure::render::body_sprite_for;
use adventure::render::center_sprite_for;
use adventure::render::convert;

fn idle() -> MovementState {
    MovementState { active: false, phase: false }
}

fn walking(phase: bool) -> MovementState {
    MovementState { active: true, phase }
}

#[test]
fn base_sprite_per_direction() {
    assert_eq!(center_sprite_for(&Direction::North), 40);
    assert_eq!(center_sprite_for(&Direction::South), 4);
    assert_eq!(center_sprite_for(&Direction::East), 28);
    assert_eq!(center_sprite_for(&Direction::West), 16);
}

#[test]
fn north_sprite_indices() {
    assert_eq!(body_sprite_for(&Direction::North, &idle()), 40);
    assert_eq!(body_sprite_for(&Direction::North, &walking(true)), 41);
    assert_eq!(body_sprite_for(&Direction::North, &walking(false)), 39);
}

#[test]
fn south_sprite_indices() {
    assert_eq!(body_sprite_for(&Direction::South, &idle()), 4);
    assert_eq!(body_sprite_for(&Direction::South, &walking(true)), 5);
    assert_eq!(body_sprite_for(&Direction::South, &walking(false)), 3);
}

#[test]
fn east_sprite_indices() {
    assert_eq!(body_sprite_for(&Direction::East, &idle()), 28);
    assert_eq!(body_sprite_for(&Direction::East, &walking(true)), 29);
    assert_eq!(body_sprite_for(&Direction::East, &walking(false)), 27);
}

#[test]
fn west_sprite_indices() {
    assert_eq!(body_sprite_for(&Direction::West, &idle()), 16);
    assert_eq!(body_sprite_for(&Direction::West, &walking(true)), 17);
    assert_eq!(body_sprite_for(&Direction::West, &walking(false)), 15);
}

#[test]
fn idle_sprite_ignores_phase() {
    assert_eq!(
        body_sprite_for(&Direction::East, &MovementState { active: false, phase: true }),
        body_sprite_for(&Direction::East, &MovementState { active: false, phase: false }),
    );
}

#[test]
fn tile_sprite_is_fixed() {
    assert_eq!(TILE_SPRITE, 5);
}

#[test]
fn convert_extreme_cells() {
    // Numerators over the denominator 2 * 20 = 40: cell 0 of a 1500-wide
    // window sits at -712.5 = -28500 / 40, cell 19 at 712.5 = 28500 / 40,
    // i.e. at -W/2 + W/40 and W/2 - W/40.
    assert_eq!(convert(0, 1500, 20), -28500);
    assert_eq!(convert(19, 1500, 20), 28500);
    assert_eq!(convert(0, 1500, 20), -convert(19, 1500, 20));
}

#[test]
fn convert_small_window() {
    // W = 40, G = 20: a tile is 2 wide; cell 0 at -19 = -760 / 40.
    assert_eq!(convert(0, 40, 20), -760);
    assert_eq!(convert(19, 40, 20), 760);
    assert_eq!(convert(10, 40, 20), 40);
}

#[test]
fn convert_symmetric_about_center() {
    for p in 0..20 {
        assert_eq!(convert(p, 1500, 20), -convert(19 - p, 1500, 20));
    }
}

#[test]
fn convert_adjacent_cells_one_tile_apart() {
    // One tile is bound_window / bound_game = 75 wide; scaled by the
    // denominator 40 that is 3000.
    assert_eq!(convert(8, 1500, 20) + 3000, convert(9, 1500, 20));
}

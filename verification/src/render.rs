//! Presentation: sprite-atlas index selection for the walk cycle, and the
//! exact grid-to-screen coordinate mapping.

use vstd::prelude::*;

use crate::grid::Direction;
use crate::motion::MovementState;

verus! {

/// Atlas index of the player facing north, standing still.
pub const PLAYER_SPRITE_NORTH: usize = 40;

/// Atlas index of the player facing south, standing still.
pub const PLAYER_SPRITE_SOUTH: usize = 4;

/// Atlas index of the player facing east, standing still.
pub const PLAYER_SPRITE_EAST: usize = 28;

/// Atlas index of the player facing west, standing still.
pub const PLAYER_SPRITE_WEST: usize = 16;

/// Atlas index of the one static ground tile.
pub const TILE_SPRITE: usize = 5;

/// The base (idle) sprite index for a facing direction.
pub open spec fn center_sprite_spec(d: Direction) -> int {
    match d {
        Direction::North => PLAYER_SPRITE_NORTH as int,
        Direction::South => PLAYER_SPRITE_SOUTH as int,
        Direction::East => PLAYER_SPRITE_EAST as int,
        Direction::West => PLAYER_SPRITE_WEST as int,
    }
}

/// The sprite index actually drawn: the base index while idle; while walking,
/// the phase bit picks the frame one above or one below the base.
pub open spec fn body_sprite_spec(d: Direction, m: MovementState) -> int {
    if m.active {
        if m.phase {
            center_sprite_spec(d) + 1
        } else {
            center_sprite_spec(d) - 1
        }
    } else {
        center_sprite_spec(d)
    }
}

/// The base (idle) sprite index for a facing direction.
pub fn center_sprite_for(direction: &Direction) -> (i: usize)
    ensures
        i == center_sprite_spec(*direction),
{
    match direction {
        Direction::North => PLAYER_SPRITE_NORTH,
        Direction::South => PLAYER_SPRITE_SOUTH,
        Direction::East => PLAYER_SPRITE_EAST,
        Direction::West => PLAYER_SPRITE_WEST,
    }
}

/// The sprite index to draw for the player's current state.
pub fn body_sprite_for(direction: &Direction, moving: &MovementState) -> (i: usize)
    ensures
        i == body_sprite_spec(*direction, *moving),
{
    let center_sprite_index = center_sprite_for(direction);
    if moving.active {
        if moving.phase {
            center_sprite_index + 1
        } else {
            center_sprite_index - 1
        }
    } else {
        center_sprite_index
    }
}

/// The screen coordinate of grid cell `pos` along one axis, as the numerator
/// of the exact fraction with denominator `2 * bound_game`: the screen value
/// is `pos / bound_game * bound_window - bound_window / 2 + tile_size / 2`
/// with `tile_size = bound_window / bound_game`, which over a common
/// denominator is `bound_window * (2 * pos + 1 - bound_game) / (2 * bound_game)`.
pub open spec fn convert_spec(pos: int, bound_window: int, bound_game: int) -> int {
    bound_window * (2 * pos + 1 - bound_game)
}

/// The screen coordinate of grid cell `pos` along one axis, scaled by the
/// fixed denominator `2 * bound_game`; the caller divides to reach pixels.
pub fn convert(pos: i32, bound_window: i32, bound_game: i32) -> (n: i64)
    requires
        0 < bound_game,
        0 <= pos < bound_game,
        0 <= bound_window,
    ensures
        n == convert_spec(pos as int, bound_window as int, bound_game as int),
{
    let w: i64 = bound_window as i64;
    let f: i64 = 2 * (pos as i64) + 1 - (bound_game as i64);
    assert(-0x4000_0000_0000_0000 <= w * f <= 0x4000_0000_0000_0000) by (nonlinear_arith)
        requires
            0 <= w <= 0x7fff_ffff,
            -0x7fff_ffff <= f <= 0x7fff_ffff,
    ;
    w * f
}

/// The two extreme cells of an axis sit symmetric about the viewport center,
/// each inset by half a tile: cell 0 maps to `-(bound_window / 2) + tile / 2`
/// and cell `bound_game - 1` to `bound_window / 2 - tile / 2`, stated here
/// over the exact numerators with denominator `2 * bound_game`.
pub proof fn lemma_convert_round_trip(bound_window: int, bound_game: int)
    requires
        0 < bound_game,
    ensures
        convert_spec(0, bound_window, bound_game) == bound_window * (1 - bound_game),
        convert_spec(bound_game - 1, bound_window, bound_game) == bound_window * (bound_game - 1),
        convert_spec(0, bound_window, bound_game) == -convert_spec(
            bound_game - 1,
            bound_window,
            bound_game,
        ),
{
    assert(bound_window * (1 - bound_game) == -(bound_window * (bound_game - 1)))
        by (nonlinear_arith);
}

/// The sprite index law, with the concrete base indices: idle shows the base
/// frame (North 40, South 4, East 28, West 16); walking shows base + 1 when
/// the phase bit is set and base - 1 when it is clear.
pub proof fn lemma_sprite_index(d: Direction, m: MovementState)
    ensures
        !m.active ==> body_sprite_spec(d, m) == center_sprite_spec(d),
        m.active && m.phase ==> body_sprite_spec(d, m) == center_sprite_spec(d) + 1,
        m.active && !m.phase ==> body_sprite_spec(d, m) == center_sprite_spec(d) - 1,
        d == Direction::North ==> center_sprite_spec(d) == 40,
        d == Direction::South ==> center_sprite_spec(d) == 4,
        d == Direction::East ==> center_sprite_spec(d) == 28,
        d == Direction::West ==> center_sprite_spec(d) == 16,
{
}

} // verus!

//! The arena grid: cell positions, facing directions, and clamped stepping.

use vstd::prelude::*;

verus! {

/// Width of the arena, in cells.
pub const ARENA_WIDTH: i32 = 20;

/// Height of the arena, in cells.
pub const ARENA_HEIGHT: i32 = 20;

/// The direction the player is facing. Changed only by directional input;
/// it never changes a position by itself.
#[derive(Clone, Copy, PartialEq, Eq, Structural, Debug)]
pub enum Direction {
    North,
    South,
    East,
    West,
}

/// An integer cell coordinate on the grid.
#[derive(Clone, Copy, PartialEq, Eq, Structural, Debug)]
pub struct Position {
    pub x: i32,
    pub y: i32,
}

/// A position lies inside the arena.
pub open spec fn pos_valid(p: Position) -> bool {
    &&& 0 <= p.x < ARENA_WIDTH
    &&& 0 <= p.y < ARENA_HEIGHT
}

/// The cell one step from `p` in direction `d`, each axis clamped to the
/// arena: a step that would leave the grid lands on the boundary cell instead.
pub open spec fn step_position(d: Direction, p: Position) -> Position {
    match d {
        Direction::North => Position {
            x: p.x,
            y: vstd::math::min(p.y + 1, ARENA_HEIGHT - 1) as i32,
        },
        Direction::South => Position { x: p.x, y: vstd::math::max(p.y - 1, 0) as i32 },
        Direction::East => Position {
            x: vstd::math::min(p.x + 1, ARENA_WIDTH - 1) as i32,
            y: p.y,
        },
        Direction::West => Position { x: vstd::math::max(p.x - 1, 0) as i32, y: p.y },
    }
}

impl Position {
    /// A position with the given coordinates.
    pub fn new(x: i32, y: i32) -> (p: Self)
        ensures
            p == (Position { x, y }),
    {
        Position { x, y }
    }
}

/// Stepping from a cell inside the arena stays inside the arena.
pub proof fn lemma_step_position_valid(d: Direction, p: Position)
    requires
        pos_valid(p),
    ensures
        pos_valid(step_position(d, p)),
{
}

/// The positions of the background tiles, one per arena cell, in the order
/// they are spawned: row by row from the bottom, left to right within a row.
pub fn tile_positions() -> (tiles: Vec<Position>)
    ensures
        tiles@.len() == ARENA_WIDTH * ARENA_HEIGHT,
        forall|i: int|
            0 <= i < tiles@.len() ==> #[trigger] tiles@[i] == (Position {
                x: (i % (ARENA_WIDTH as int)) as i32,
                y: (i / (ARENA_WIDTH as int)) as i32,
            }),
        forall|i: int| 0 <= i < tiles@.len() ==> pos_valid(#[trigger] tiles@[i]),
{
    let mut tiles: Vec<Position> = Vec::new();
    let mut i: usize = 0;
    while i < 400
        invariant
            i <= 400,
            tiles@.len() == i,
            forall|j: int|
                0 <= j < i ==> #[trigger] tiles@[j] == (Position {
                    x: (j % 20) as i32,
                    y: (j / 20) as i32,
                }),
        decreases 400 - i,
    {
        let x: i32 = (i % 20) as i32;
        let y: i32 = (i / 20) as i32;
        tiles.push(Position { x, y });
        i = i + 1;
    }
    tiles
}

} // verus!

//! The movement state machine: input resolution, the fixed-cadence tick that
//! walks the player across the grid, and its boundary policy.

use vstd::prelude::*;

use crate::grid::Direction;
use crate::grid::Position;
use crate::grid::pos_valid;
use crate::grid::step_position;
use crate::grid::ARENA_WIDTH;
use crate::grid::ARENA_HEIGHT;

verus! {

/// The player's movement flags: `active` is flipped by the start/stop input,
/// `phase` drives the two-frame walk cycle and flips on every tick taken
/// while `active`.
#[derive(Clone, Copy, PartialEq, Eq, Structural, Debug)]
pub struct MovementState {
    pub active: bool,
    pub phase: bool,
}

/// One fixed-cadence tick. While `active`: the phase bit flips and the player
/// steps one cell in the facing direction, clamped to the arena; if the
/// clamped step goes nowhere (the player is pressed against a wall), movement
/// stops. While not `active`, nothing changes.
pub open spec fn tick_spec(d: Direction, m: MovementState, p: Position) -> (MovementState,
    Position) {
    if m.active {
        let q = step_position(d, p);
        (MovementState { active: q != p, phase: !m.phase }, q)
    } else {
        (m, p)
    }
}

/// Advance the player by one fixed-cadence tick, exactly as `tick_spec` says.
pub fn entity_walk(direction: &Direction, moving: &mut MovementState, position: &mut Position)
    requires
        pos_valid(*old(position)),
    ensures
        (*final(moving), *final(position)) == tick_spec(*direction, *old(moving), *old(position)),
        pos_valid(*final(position)),
{
    if moving.active {
        moving.phase = !moving.phase;
        let previous = *position;
        match direction {
            Direction::North => {
                if position.y + 1 < ARENA_HEIGHT {
                    position.y = position.y + 1;
                } else {
                    position.y = ARENA_HEIGHT - 1;
                }
            },
            Direction::South => {
                if position.y - 1 > 0 {
                    position.y = position.y - 1;
                } else {
                    position.y = 0;
                }
            },
            Direction::East => {
                if position.x + 1 < ARENA_WIDTH {
                    position.x = position.x + 1;
                } else {
                    position.x = ARENA_WIDTH - 1;
                }
            },
            Direction::West => {
                if position.x - 1 > 0 {
                    position.x = position.x - 1;
                } else {
                    position.x = 0;
                }
            },
        }
        if *position == previous {
            moving.active = false;
        }
    }
}

/// The facing direction after one frame of directional input. The keys are
/// polled up, left, down, right, each overwriting the last, so when several
/// are held the one polled last wins; with none held the direction stands.
pub open spec fn resolve_direction(
    up: bool,
    left: bool,
    down: bool,
    right: bool,
    d: Direction,
) -> Direction {
    if right {
        Direction::East
    } else if down {
        Direction::South
    } else if left {
        Direction::West
    } else if up {
        Direction::North
    } else {
        d
    }
}

/// Apply one frame of directional input to the facing direction. Movement is
/// untouched: facing changes never move the player by themselves.
pub fn change_player_direction(
    up: bool,
    left: bool,
    down: bool,
    right: bool,
    direction: &mut Direction,
)
    ensures
        *final(direction) == resolve_direction(up, left, down, right, *old(direction)),
{
    if up {
        *direction = Direction::North;
    }
    if left {
        *direction = Direction::West;
    }
    if down {
        *direction = Direction::South;
    }
    if right {
        *direction = Direction::East;
    }
}

/// Apply one frame of the start/stop input: on the release edge of the toggle
/// key, flip `active`; otherwise leave the state alone. The phase bit is
/// never touched here.
pub fn move_player(toggle_released: bool, moving: &mut MovementState)
    ensures
        toggle_released ==> final(moving).active == !old(moving).active,
        !toggle_released ==> final(moving).active == old(moving).active,
        final(moving).phase == old(moving).phase,
{
    if toggle_released {
        moving.active = !moving.active;
    }
}

/// The player's state at startup: idle, facing north, phase bit set, in the
/// bottom-left cell.
pub fn initial_player() -> (r: (Direction, MovementState, Position))
    ensures
        r.0 == Direction::North,
        r.1 == (MovementState { active: false, phase: true }),
        r.2 == (Position { x: 0, y: 0 }),
        pos_valid(r.2),
{
    (Direction::North, MovementState { active: false, phase: true }, Position { x: 0, y: 0 })
}

/// A tick taken while moving steps one cell in the facing direction, each
/// axis clamped to the arena: eastward the new column is
/// `min(x + 1, ARENA_WIDTH - 1)`, and likewise for the other three
/// directions; the result is always inside the arena.
pub proof fn lemma_tick_clamped_step(d: Direction, m: MovementState, p: Position)
    requires
        pos_valid(p),
        m.active,
    ensures
        pos_valid(tick_spec(d, m, p).1),
        d == Direction::East ==> tick_spec(d, m, p).1.x == vstd::math::min(
            p.x + 1,
            ARENA_WIDTH - 1,
        ) && tick_spec(d, m, p).1.y == p.y,
        d == Direction::West ==> tick_spec(d, m, p).1.x == vstd::math::max(p.x - 1, 0)
            && tick_spec(d, m, p).1.y == p.y,
        d == Direction::North ==> tick_spec(d, m, p).1.y == vstd::math::min(
            p.y + 1,
            ARENA_HEIGHT - 1,
        ) && tick_spec(d, m, p).1.x == p.x,
        d == Direction::South ==> tick_spec(d, m, p).1.y == vstd::math::max(p.y - 1, 0)
            && tick_spec(d, m, p).1.x == p.x,
{
}

/// Walking into a wall halts movement rather than looping against it: a tick
/// taken while moving east from the last column leaves the position unchanged
/// and clears `active` after exactly that one tick, and every further tick
/// changes nothing.
pub proof fn lemma_boundary_auto_stop(m: MovementState, p: Position)
    requires
        pos_valid(p),
        m.active,
        p.x == ARENA_WIDTH - 1,
    ensures
        tick_spec(Direction::East, m, p).1 == p,
        !tick_spec(Direction::East, m, p).0.active,
        tick_spec(
            Direction::East,
            tick_spec(Direction::East, m, p).0,
            tick_spec(Direction::East, m, p).1,
        ) == tick_spec(Direction::East, m, p),
{
}

/// The phase bit flips on exactly the ticks taken while `active`; a tick
/// taken while idle changes nothing at all.
pub proof fn lemma_phase_toggle(d: Direction, m: MovementState, p: Position)
    ensures
        m.active ==> tick_spec(d, m, p).0.phase == !m.phase,
        !m.active ==> tick_spec(d, m, p) == (m, p),
{
}

} // verus!

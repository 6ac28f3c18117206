//! Cells of the wraparound grid and moves between them.
use vstd::prelude::*;

verus! {

/// One of the four directions of travel.
#[derive(Clone, Copy, Debug, PartialEq, Eq, Structural)]
pub enum Direction {
    Up,
    Down,
    Left,
    Right,
}

/// A cell of the grid, addressed by column `x` and row `y`.
#[derive(Clone, Copy, Debug, PartialEq, Eq, Structural)]
pub struct Position {
    pub x: u16,
    pub y: u16,
}

/// `p` lies on a grid of `width` columns and `height` rows.
pub open spec fn in_grid(p: Position, width: u16, height: u16) -> bool {
    p.x < width && p.y < height
}

/// The cell next to `p` in direction `d`, where leaving one edge of the grid
/// re-enters it at the opposite edge.
pub open spec fn neighbor(p: Position, d: Direction, width: u16, height: u16) -> Position {
    match d {
        Direction::Up => Position { x: p.x, y: ((p.y + height - 1) % (height as int)) as u16 },
        Direction::Down => Position { x: p.x, y: ((p.y + 1) % (height as int)) as u16 },
        Direction::Left => Position { x: ((p.x + width - 1) % (width as int)) as u16, y: p.y },
        Direction::Right => Position { x: ((p.x + 1) % (width as int)) as u16, y: p.y },
    }
}

/// Computes the neighbouring cell of `p` in direction `d` on a
/// `width` by `height` grid.
pub fn next_position(p: Position, d: Direction, width: u16, height: u16) -> (r: Position)
    requires
        width > 0,
        height > 0,
    ensures
        r == neighbor(p, d, width, height),
        in_grid(p, width, height) ==> in_grid(r, width, height),
{
    let w = width as u32;
    let h = height as u32;
    match d {
        Direction::Up => Position { x: p.x, y: ((p.y as u32 + h - 1) % h) as u16 },
        Direction::Down => Position { x: p.x, y: ((p.y as u32 + 1) % h) as u16 },
        Direction::Left => Position { x: ((p.x as u32 + w - 1) % w) as u16, y: p.y },
        Direction::Right => Position { x: ((p.x as u32 + 1) % w) as u16, y: p.y },
    }
}

/// Moving from a cell of the grid in any direction steps to the adjacent cell,
/// except at an edge, where the move re-enters the grid at the opposite edge;
/// the other coordinate is unchanged.
pub proof fn lemma_wraparound(p: Position, width: u16, height: u16)
    requires
        in_grid(p, width, height),
    ensures
        neighbor(p, Direction::Left, width, height) == (Position {
            x: if p.x == 0 { (width - 1) as u16 } else { (p.x - 1) as u16 },
            y: p.y,
        }),
        neighbor(p, Direction::Right, width, height) == (Position {
            x: if p.x == width - 1 { 0 } else { (p.x + 1) as u16 },
            y: p.y,
        }),
        neighbor(p, Direction::Up, width, height) == (Position {
            x: p.x,
            y: if p.y == 0 { (height - 1) as u16 } else { (p.y - 1) as u16 },
        }),
        neighbor(p, Direction::Down, width, height) == (Position {
            x: p.x,
            y: if p.y == height - 1 { 0 } else { (p.y + 1) as u16 },
        }),
{
    let w = width as int;
    let h = height as int;
    if p.x == 0 {
        assert((p.x + w - 1) % w == w - 1) by (nonlinear_arith)
            requires p.x == 0, w > 0;
    } else {
        assert((p.x + w - 1) % w == p.x - 1) by (nonlinear_arith)
            requires 0 < p.x < w;
    }
    if p.x == w - 1 {
        assert((p.x + 1) % w == 0) by (nonlinear_arith)
            requires p.x == w - 1, w > 0;
    } else {
        assert((p.x + 1) % w == p.x + 1) by (nonlinear_arith)
            requires 0 <= p.x < w - 1;
    }
    if p.y == 0 {
        assert((p.y + h - 1) % h == h - 1) by (nonlinear_arith)
            requires p.y == 0, h > 0;
    } else {
        assert((p.y + h - 1) % h == p.y - 1) by (nonlinear_arith)
            requires 0 < p.y < h;
    }
    if p.y == h - 1 {
        assert((p.y + 1) % h == 0) by (nonlinear_arith)
            requires p.y == h - 1, h > 0;
    } else {
        assert((p.y + 1) % h == p.y + 1) by (nonlinear_arith)
            requires 0 <= p.y < h - 1;
    }
}

/// The direction that a drawn index in `0..4` stands for.
pub open spec fn direction_of_index(i: usize) -> Direction {
    if i == 0 {
        Direction::Up
    } else if i == 1 {
        Direction::Down
    } else if i == 2 {
        Direction::Left
    } else {
        Direction::Right
    }
}

/// Maps an index to a direction: 0 is up, 1 down, 2 left, anything else right.
pub fn direction_from_index(i: usize) -> (d: Direction)
    ensures
        d == direction_of_index(i),
{
    if i == 0 {
        Direction::Up
    } else if i == 1 {
        Direction::Down
    } else if i == 2 {
        Direction::Left
    } else {
        Direction::Right
    }
}

/// The steering key table: `w`, `s`, `a` and `d` turn up, down, left and
/// right; every other key is ignored.
pub open spec fn key_direction(c: char) -> Option<Direction> {
    if c == 'w' {
        Some(Direction::Up)
    } else if c == 's' {
        Some(Direction::Down)
    } else if c == 'a' {
        Some(Direction::Left)
    } else if c == 'd' {
        Some(Direction::Right)
    } else {
        None
    }
}

/// The direction that key `c` steers to, if it is a steering key.
pub fn direction_for_key(c: char) -> (r: Option<Direction>)
    ensures
        r == key_direction(c),
{
    if c == 'w' {
        Some(Direction::Up)
    } else if c == 's' {
        Some(Direction::Down)
    } else if c == 'a' {
        Some(Direction::Left)
    } else if c == 'd' {
        Some(Direction::Right)
    } else {
        None
    }
}

} // verus!

//! The game state and its per-tick transition.
use crate::grid::{direction_from_index, in_grid, neighbor, next_position, Direction, Position};
use crate::random::{random_below, random_ratio};
use vstd::prelude::*;

verus! {

/// Chance, as numerator over denominator, that a new block extends the wall
/// of the most recently placed block.
pub const ATTACH_NUMERATOR: u32 = 3;

/// See `ATTACH_NUMERATOR`.
pub const ATTACH_DENOMINATOR: u32 = 4;

/// The glyph drawn for body and block cells.
pub const WALL_GLYPH: char = '#';

/// The glyph drawn for the food cell.
pub const FOOD_GLYPH: char = '*';

/// The whole state of a game.
pub struct Snake {
    /// Direction of travel, kept from tick to tick until changed.
    pub direction: Direction,
    /// Occupied cells from tail (front) to head (back).
    pub body: Vec<Position>,
    /// The cell whose eating grows the body.
    pub food: Position,
    /// Obstacles in the order they appeared; they never move or disappear.
    pub blocks: Vec<Position>,
    /// Set while a tick decides to keep the tail after eating.
    pub has_eaten: bool,
    /// Columns of the grid.
    pub width: u16,
    /// Rows of the grid.
    pub height: u16,
}

/// Where a new block goes: next to the most recent block in direction `d`
/// when `attach` is drawn and there is a block, else at `fresh`.
pub open spec fn block_placement(
    blocks: Seq<Position>,
    attach: bool,
    d: Direction,
    fresh: Position,
    width: u16,
    height: u16,
) -> Position {
    if attach && blocks.len() > 0 {
        neighbor(blocks.last(), d, width, height)
    } else {
        fresh
    }
}

/// `p` is a cell of a `width` by `height` grid that `body` leaves free.
pub open spec fn is_free(p: Position, body: Seq<Position>, width: u16, height: u16) -> bool {
    in_grid(p, width, height) && !body.contains(p)
}

/// `v` holds `p`.
fn holds(v: &Vec<Position>, p: Position) -> (r: bool)
    ensures
        r == v@.contains(p),
{
    let mut i: usize = 0;
    while i < v.len()
        invariant
            i <= v.len(),
            forall|j: int| 0 <= j < i ==> v@[j] != p,
        decreases v.len() - i,
    {
        if v[i] == p {
            assert(v@[i as int] == p);
            return true;
        }
        i = i + 1;
    }
    false
}

impl Snake {
    /// Between ticks: a non-empty grid, a non-empty body of distinct cells
    /// on it, blocks on it, and no pending growth.
    pub open spec fn wf(&self) -> bool {
        &&& self.width > 0
        &&& self.height > 0
        &&& self.body@.len() > 0
        &&& self.body@.no_duplicates()
        &&& forall|i: int| 0 <= i < self.body@.len() ==> in_grid(#[trigger] self.body@[i], self.width, self.height)
        &&& forall|i: int| 0 <= i < self.blocks@.len() ==> in_grid(#[trigger] self.blocks@[i], self.width, self.height)
        &&& !self.has_eaten
    }

    /// The cell the head moves to on the next tick.
    pub open spec fn next_head_spec(&self) -> Position {
        neighbor(self.body@.last(), self.direction, self.width, self.height)
    }

    /// `p` is taken by the body or a block.
    pub open spec fn blocked(&self, p: Position) -> bool {
        self.body@.contains(p) || self.blocks@.contains(p)
    }

    /// The next tick moves the head onto the food.
    pub open spec fn eats_next(&self) -> bool {
        self.next_head_spec() == self.food
    }

    /// Starts a game on a `width` by `height` grid with the food at `food`:
    /// heading right, a one-cell body at the centre, no blocks.
    pub fn new_with_food(width: u16, height: u16, food: Position) -> (s: Snake)
        requires
            width > 0,
            height > 0,
        ensures
            s.wf(),
            s.direction == Direction::Right,
            s.body@ == seq![Position { x: width / 2, y: height / 2 }],
            s.food == food,
            s.blocks@.len() == 0,
            s.width == width,
            s.height == height,
    {
        let s = Snake {
            direction: Direction::Right,
            body: vec![Position { x: width / 2, y: height / 2 }],
            food,
            blocks: Vec::new(),
            has_eaten: false,
            width,
            height,
        };
        assert(s.body@.no_duplicates());
        s
    }

    /// Starts a game on a `width` by `height` grid with the food at a random
    /// cell of `1..=width` by `1..=height`.
    pub fn new(width: u16, height: u16) -> (s: Snake)
        requires
            width > 0,
            height > 0,
        ensures
            s.wf(),
            s.direction == Direction::Right,
            s.body@ == seq![Position { x: width / 2, y: height / 2 }],
            1 <= s.food.x <= width,
            1 <= s.food.y <= height,
            s.blocks@.len() == 0,
            s.width == width,
            s.height == height,
    {
        let x = random_below(width as usize) as u16 + 1;
        let y = random_below(height as usize) as u16 + 1;
        Snake::new_with_food(width, height, Position { x, y })
    }

    /// Changes the direction of travel, a reversal included.
    pub fn set_direction(&mut self, d: Direction)
        ensures
            *final(self) == (Snake { direction: d, ..*old(self) }),
    {
        self.direction = d;
    }

    /// The cell the head moves to on the next tick.
    pub fn next_head(&self) -> (p: Position)
        requires
            self.wf(),
        ensures
            p == self.next_head_spec(),
            in_grid(p, self.width, self.height),
    {
        let head = self.body[self.body.len() - 1];
        next_position(head, self.direction, self.width, self.height)
    }

    /// Whether `p` is taken by the body or a block.
    pub fn collides(&self, p: Position) -> (r: bool)
        ensures
            r == self.blocked(p),
    {
        holds(&self.body, p) || holds(&self.blocks, p)
    }

    /// Every cell of the grid that the body leaves free, row by row.
    pub fn free_cells(&self) -> (cells: Vec<Position>)
        ensures
            forall|p: Position| #[trigger]
                cells@.contains(p) <==> is_free(p, self.body@, self.width, self.height),
    {
        let mut cells: Vec<Position> = Vec::new();
        let mut y: u16 = 0;
        while y < self.height
            invariant
                y <= self.height,
                forall|p: Position| #[trigger]
                    cells@.contains(p) <==> (is_free(p, self.body@, self.width, self.height)
                        && p.y < y),
            decreases self.height - y,
        {
            let mut x: u16 = 0;
            while x < self.width
                invariant
                    x <= self.width,
                    y < self.height,
                    forall|p: Position| #[trigger]
                        cells@.contains(p) <==> (is_free(p, self.body@, self.width, self.height)
                            && (p.y < y || (p.y == y && p.x < x))),
                decreases self.width - x,
            {
                let p = Position { x, y };
                let ghost before = cells@;
                if !holds(&self.body, p) {
                    cells.push(p);
                    assert(forall|q: Position| #[trigger]
                        cells@.contains(q) <==> (before.contains(q) || q == p)) by {
                        assert(forall|q: Position| before.contains(q) ==> #[trigger] cells@.contains(q)) by {
                            assert forall|q: Position| before.contains(q) implies #[trigger] cells@.contains(q) by {
                                let k = choose|k: int| 0 <= k < before.len() && before[k] == q;
                                assert(cells@[k] == q);
                            }
                        }
                        assert(cells@[before.len() as int] == p);
                    }
                }
                x = x + 1;
            }
            y = y + 1;
        }
        cells
    }

    /// Where a new block goes: next to the most recent block in direction
    /// `d` when `attach` is drawn and there is a block, else at `fresh`.
    pub fn block_position(&self, attach: bool, d: Direction, fresh: Position) -> (p: Position)
        requires
            self.width > 0,
            self.height > 0,
        ensures
            p == block_placement(self.blocks@, attach, d, fresh, self.width, self.height),
    {
        if attach && self.blocks.len() > 0 {
            let last = self.blocks[self.blocks.len() - 1];
            next_position(last, d, self.width, self.height)
        } else {
            fresh
        }
    }

    /// One tick, with the food cell and the block parameters already drawn:
    /// `new_food` is where the food goes if it is eaten, and `attach`, `d`
    /// and `fresh` choose the new block as `block_position` does. Returns
    /// `false`, changing nothing, when the head would run into the body or a
    /// block.
    pub fn step_with(&mut self, new_food: Position, attach: bool, d: Direction, fresh: Position) -> (alive: bool)
        requires
            old(self).wf(),
            in_grid(fresh, old(self).width, old(self).height),
        ensures
            alive == !old(self).blocked(old(self).next_head_spec()),
            !alive ==> *final(self) == *old(self),
            alive ==> final(self).wf(),
            final(self).direction == old(self).direction,
            final(self).width == old(self).width,
            final(self).height == old(self).height,
            alive && old(self).eats_next() ==> final(self).body@ == old(self).body@.push(
                old(self).next_head_spec(),
            ),
            alive && old(self).eats_next() ==> final(self).body@.len() == old(self).body@.len() + 1,
            alive && old(self).eats_next() ==> final(self).food == new_food,
            alive && old(self).eats_next() ==> final(self).blocks@ == old(self).blocks@.push(
                block_placement(old(self).blocks@, attach, d, fresh, old(self).width, old(self).height),
            ),
            alive && old(self).eats_next() ==> final(self).blocks@.len() == old(self).blocks@.len() + 1,
            alive && !old(self).eats_next() ==> final(self).body@ == old(self).body@.drop_first().push(
                old(self).next_head_spec(),
            ),
            alive && !old(self).eats_next() ==> final(self).body@.len() == old(self).body@.len(),
            alive && !old(self).eats_next() ==> final(self).food == old(self).food,
            alive && !old(self).eats_next() ==> final(self).blocks@ == old(self).blocks@,
    {
        let head = self.next_head();
        if self.collides(head) {
            return false;
        }
        let ghost body0 = self.body@;
        if head == self.food {
            self.has_eaten = true;
            let block = self.block_position(attach, d, fresh);
            self.blocks.push(block);
            self.food = new_food;
        }
        if !self.has_eaten {
            self.body.remove(0);
            assert(self.body@ == body0.drop_first());
        } else {
            self.has_eaten = false;
        }
        let ghost kept = self.body@;
        assert(forall|i: int| 0 <= i < kept.len() ==> body0.contains(#[trigger] kept[i])) by {
            assert forall|i: int| 0 <= i < kept.len() implies body0.contains(#[trigger] kept[i]) by {
                if kept.len() < body0.len() {
                    assert(kept[i] == body0[i + 1]);
                } else {
                    assert(kept[i] == body0[i]);
                }
            }
        }
        self.body.push(head);
        assert(self.body@.no_duplicates()) by {
            assert forall|i: int, j: int|
                0 <= i < self.body@.len() && 0 <= j < self.body@.len() && i != j implies
                self.body@[i] != self.body@[j] by {
                if i < kept.len() && j < kept.len() {
                    if kept.len() < body0.len() {
                        assert(kept[i] == body0[i + 1]);
                        assert(kept[j] == body0[j + 1]);
                    }
                } else if i < kept.len() {
                    assert(body0.contains(kept[i]));
                } else if j < kept.len() {
                    assert(body0.contains(kept[j]));
                }
            }
        }
        assert(forall|i: int| 0 <= i < self.body@.len() ==> in_grid(#[trigger] self.body@[i], self.width, self.height)) by {
            assert forall|i: int| 0 <= i < self.body@.len() implies in_grid(#[trigger] self.body@[i], self.width, self.height) by {
                if i < kept.len() {
                    assert(body0.contains(kept[i]));
                }
            }
        }
        true
    }

    /// One tick with fresh random draws. When the head lands on the food, the
    /// food moves to a uniformly drawn cell that the body leaves free, and a
    /// block appears: with chance three in four next to the most recent
    /// block in a drawn direction, else (and always while there is none) at
    /// a uniformly drawn cell. Returns `false`, changing nothing, when the
    /// head would run into the body or a block.
    pub fn step(&mut self) -> (alive: bool)
        requires
            old(self).wf(),
        ensures
            alive == !old(self).blocked(old(self).next_head_spec()),
            !alive ==> *final(self) == *old(self),
            alive ==> final(self).wf(),
            final(self).direction == old(self).direction,
            final(self).width == old(self).width,
            final(self).height == old(self).height,
            alive && old(self).eats_next() ==> final(self).body@ == old(self).body@.push(
                old(self).next_head_spec(),
            ),
            alive && old(self).eats_next() ==> final(self).body@.len() == old(self).body@.len() + 1,
            alive && old(self).eats_next() ==> is_free(
                final(self).food,
                old(self).body@,
                old(self).width,
                old(self).height,
            ),
            alive && old(self).eats_next() ==> forall|i: int|
                0 <= i < final(self).body@.len() - 1 ==> #[trigger] final(self).body@[i]
                    != final(self).food,
            alive && old(self).eats_next() ==> final(self).blocks@.drop_last() == old(self).blocks@,
            alive && old(self).eats_next() ==> final(self).blocks@.len() == old(self).blocks@.len() + 1,
            alive && !old(self).eats_next() ==> final(self).body@ == old(self).body@.drop_first().push(
                old(self).next_head_spec(),
            ),
            alive && !old(self).eats_next() ==> final(self).body@.len() == old(self).body@.len(),
            alive && !old(self).eats_next() ==> final(self).food == old(self).food,
            alive && !old(self).eats_next() ==> final(self).blocks@ == old(self).blocks@,
    {
        let head = self.next_head();
        if self.collides(head) {
            return false;
        }
        if head == self.food {
            let free = self.free_cells();
            assert(free@.contains(head));
            let food = free[random_below(free.len())];
            assert(free@.contains(food));
            let attach = random_ratio(ATTACH_NUMERATOR, ATTACH_DENOMINATOR);
            let d = direction_from_index(random_below(4));
            let fresh = Position {
                x: random_below(self.width as usize) as u16,
                y: random_below(self.height as usize) as u16,
            };
            let ghost blocks0 = self.blocks@;
            let alive = self.step_with(food, attach, d, fresh);
            assert(self.blocks@.drop_last() == blocks0);
            alive
        } else {
            let food = self.food;
            self.step_with(food, false, Direction::Right, head)
        }
    }

    /// What to draw, in order: each body cell and each block as a wall
    /// glyph, then the food as the food glyph.
    pub fn cells(&self) -> (r: Vec<(Position, char)>)
        ensures
            r@.len() == self.body@.len() + self.blocks@.len() + 1,
            forall|i: int| 0 <= i < self.body@.len() ==> #[trigger] r@[i] == (self.body@[i], WALL_GLYPH),
            forall|i: int|
                0 <= i < self.blocks@.len() ==> #[trigger] r@[self.body@.len() + i] == (
                    self.blocks@[i],
                    WALL_GLYPH,
                ),
            r@.last() == (self.food, FOOD_GLYPH),
    {
        let mut r: Vec<(Position, char)> = Vec::new();
        let mut i: usize = 0;
        while i < self.body.len()
            invariant
                i <= self.body@.len(),
                r@.len() == i,
                forall|k: int| 0 <= k < i ==> #[trigger] r@[k] == (self.body@[k], WALL_GLYPH),
            decreases self.body.len() - i,
        {
            r.push((self.body[i], WALL_GLYPH));
            i = i + 1;
        }
        let mut j: usize = 0;
        while j < self.blocks.len()
            invariant
                j <= self.blocks@.len(),
                r@.len() == self.body@.len() + j,
                forall|k: int| 0 <= k < self.body@.len() ==> #[trigger] r@[k] == (self.body@[k], WALL_GLYPH),
                forall|k: int|
                    0 <= k < j ==> #[trigger] r@[self.body@.len() + k] == (self.blocks@[k], WALL_GLYPH),
            decreases self.blocks.len() - j,
        {
            r.push((self.blocks[j], WALL_GLYPH));
            j = j + 1;
        }
        r.push((self.food, FOOD_GLYPH));
        r
    }
}

} // verus!

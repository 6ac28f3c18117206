use terminal_snake::snake::{FOOD_GLYPH, WALL_GLYPH};
use terminal_snake::{Direction, Position, Snake};

fn at(x: u16, y: u16) -> Position {
    Position { x, y }
}

fn game(
    width: u16,
    height: u16,
    direction: Direction,
    body: Vec<Position>,
    food: Position,
    blocks: Vec<Position>,
) -> Snake {
    Snake { direction, body, food, blocks, has_eaten: false, width, height }
}

fn is_adjacent(a: Position, b: Position, width: u16, height: u16) -> bool {
    let dx = (a.x + width - b.x) % width;
    let dy = (a.y + height - b.y) % height;
    (a.y == b.y && (dx == 1 || dx == width - 1)) || (a.x == b.x && (dy == 1 || dy == height - 1))
}

#[test]
fn one_tick_from_the_start() {
    let mut s = Snake::new_with_food(10, 10, at(0, 0));
    assert_eq!(s.body, vec![at(5, 5)]);
    assert_eq!(s.direction, Direction::Right);
    assert!(s.blocks.is_empty());
    assert!(s.step());
    assert_eq!(s.body, vec![at(6, 5)]);
    assert_eq!(s.food, at(0, 0));
    assert!(s.blocks.is_empty());
}

#[test]
fn new_game_is_centred_with_food_in_inclusive_range() {
    for _ in 0..200 {
        let s = Snake::new(3, 2);
        assert_eq!(s.body, vec![at(1, 1)]);
        assert_eq!(s.direction, Direction::Right);
        assert!(s.blocks.is_empty());
        assert!(!s.has_eaten);
        assert!(1 <= s.food.x && s.food.x <= 3);
        assert!(1 <= s.food.y && s.food.y <= 2);
    }
}

#[test]
fn head_wraps_across_the_edge() {
    let mut s = game(10, 10, Direction::Right, vec![at(8, 5), at(9, 5)], at(0, 0), vec![]);
    assert!(s.step());
    assert_eq!(s.body, vec![at(9, 5), at(0, 5)]);
    let mut t = game(10, 10, Direction::Up, vec![at(3, 1), at(3, 0)], at(9, 9), vec![]);
    assert!(t.step());
    assert_eq!(t.body, vec![at(3, 0), at(3, 9)]);
}

#[test]
fn length_is_kept_without_food() {
    let mut s = game(10, 10, Direction::Down, vec![at(1, 1), at(2, 1), at(3, 1)], at(9, 9), vec![]);
    for _ in 0..5 {
        assert!(s.step());
        assert_eq!(s.body.len(), 3);
    }
    assert_eq!(s.body, vec![at(3, 4), at(3, 5), at(3, 6)]);
}

#[test]
fn eating_grows_by_one_and_adds_one_block() {
    let mut s = game(10, 10, Direction::Right, vec![at(1, 1), at(2, 1)], at(3, 1), vec![at(7, 7)]);
    assert!(s.step());
    assert_eq!(s.body, vec![at(1, 1), at(2, 1), at(3, 1)]);
    assert_eq!(s.blocks.len(), 2);
    assert_eq!(s.blocks[0], at(7, 7));
    assert!(s.blocks[1].x < 10 && s.blocks[1].y < 10);
    assert!(!s.has_eaten);
}

#[test]
fn new_food_avoids_the_body() {
    for _ in 0..200 {
        let body = vec![at(0, 0), at(1, 0), at(2, 0), at(2, 1), at(1, 1)];
        let mut s = game(3, 3, Direction::Left, body.clone(), at(0, 1), vec![]);
        assert!(s.step());
        assert!(s.food.x < 3 && s.food.y < 3);
        assert!(!body.contains(&s.food));
        assert_eq!(s.body.len(), 6);
        assert_eq!(s.blocks.len(), 1);
        assert!(s.blocks[0].x < 3 && s.blocks[0].y < 3);
    }
}

#[test]
fn new_food_may_land_on_the_new_head() {
    let mut s = game(2, 1, Direction::Right, vec![at(0, 0)], at(1, 0), vec![]);
    assert!(s.step());
    assert_eq!(s.body, vec![at(0, 0), at(1, 0)]);
    assert_eq!(s.food, at(1, 0));
}

#[test]
fn running_into_the_body_ends_the_game() {
    let body = vec![at(1, 1), at(2, 1), at(2, 2), at(1, 2)];
    let mut s = game(10, 10, Direction::Up, body.clone(), at(5, 5), vec![at(8, 8)]);
    assert!(!s.step());
    assert_eq!(s.body, body);
    assert_eq!(s.food, at(5, 5));
    assert_eq!(s.blocks, vec![at(8, 8)]);
    assert_eq!(s.direction, Direction::Up);
}

#[test]
fn reversing_into_the_neck_ends_the_game() {
    let mut s = game(10, 10, Direction::Right, vec![at(1, 1), at(2, 1)], at(5, 5), vec![]);
    s.set_direction(Direction::Left);
    assert_eq!(s.direction, Direction::Left);
    assert!(!s.step());
    assert_eq!(s.body, vec![at(1, 1), at(2, 1)]);
}

#[test]
fn moving_onto_the_tail_cell_ends_the_game() {
    let body = vec![at(1, 1), at(2, 1), at(2, 2), at(1, 2)];
    let mut s = game(10, 10, Direction::Up, body, at(5, 5), vec![]);
    assert!(!s.step());
}

#[test]
fn running_into_a_block_ends_the_game() {
    let mut s = game(10, 10, Direction::Right, vec![at(4, 4)], at(5, 4), vec![at(0, 0), at(5, 4)]);
    assert!(!s.step());
    assert_eq!(s.body, vec![at(4, 4)]);
    assert_eq!(s.food, at(5, 4));
    assert_eq!(s.blocks, vec![at(0, 0), at(5, 4)]);
}

#[test]
fn block_attaches_to_the_last_block() {
    let s = game(10, 10, Direction::Right, vec![at(4, 4)], at(0, 0), vec![at(1, 1), at(9, 0)]);
    assert_eq!(s.block_position(true, Direction::Right, at(3, 3)), at(0, 0));
    assert_eq!(s.block_position(true, Direction::Up, at(3, 3)), at(9, 9));
    assert_eq!(s.block_position(true, Direction::Left, at(3, 3)), at(8, 0));
    assert_eq!(s.block_position(true, Direction::Down, at(3, 3)), at(9, 1));
}

#[test]
fn block_starts_a_new_wall() {
    let s = game(10, 10, Direction::Right, vec![at(4, 4)], at(0, 0), vec![at(1, 1)]);
    assert_eq!(s.block_position(false, Direction::Right, at(3, 3)), at(3, 3));
    let empty = game(10, 10, Direction::Right, vec![at(4, 4)], at(0, 0), vec![]);
    assert_eq!(empty.block_position(true, Direction::Right, at(3, 3)), at(3, 3));
}

#[test]
fn tick_with_drawn_values() {
    let mut s = game(10, 10, Direction::Down, vec![at(2, 2)], at(2, 3), vec![at(6, 6)]);
    assert!(s.step_with(at(7, 1), true, Direction::Left, at(0, 9)));
    assert_eq!(s.body, vec![at(2, 2), at(2, 3)]);
    assert_eq!(s.food, at(7, 1));
    assert_eq!(s.blocks, vec![at(6, 6), at(5, 6)]);
    assert!(s.step_with(at(0, 0), true, Direction::Left, at(0, 9)));
    assert_eq!(s.body, vec![at(2, 3), at(2, 4)]);
    assert_eq!(s.food, at(7, 1));
    assert_eq!(s.blocks, vec![at(6, 6), at(5, 6)]);
}

#[test]
fn first_block_is_placed_at_the_drawn_cell() {
    let mut s = game(10, 10, Direction::Down, vec![at(2, 2)], at(2, 3), vec![]);
    assert!(s.step_with(at(7, 1), true, Direction::Left, at(0, 9)));
    assert_eq!(s.blocks, vec![at(0, 9)]);
}

#[test]
fn most_new_blocks_extend_the_last_wall() {
    let rounds = 4000;
    let mut attached = 0;
    for _ in 0..rounds {
        let mut s = game(20, 20, Direction::Right, vec![at(0, 0)], at(1, 0), vec![at(10, 10)]);
        assert!(s.step());
        assert_eq!(s.blocks.len(), 2);
        if is_adjacent(s.blocks[1], at(10, 10), 20, 20) {
            attached += 1;
        }
    }
    let share = attached as f64 / rounds as f64;
    assert!(share > 0.70 && share < 0.81, "share of attached blocks: {}", share);
}

#[test]
fn new_blocks_do_not_always_attach() {
    let mut apart = 0;
    for _ in 0..400 {
        let mut s = game(20, 20, Direction::Right, vec![at(0, 0)], at(1, 0), vec![at(10, 10)]);
        assert!(s.step());
        if !is_adjacent(s.blocks[1], at(10, 10), 20, 20) {
            apart += 1;
        }
    }
    assert!(apart > 0);
}

#[test]
fn free_cells_leave_out_the_body() {
    let s = game(3, 2, Direction::Right, vec![at(0, 0), at(1, 1)], at(0, 0), vec![at(2, 0)]);
    assert_eq!(s.free_cells(), vec![at(1, 0), at(2, 0), at(0, 1), at(2, 1)]);
}

#[test]
fn collides_with_body_and_blocks() {
    let s = game(5, 5, Direction::Right, vec![at(0, 0), at(1, 0)], at(4, 4), vec![at(3, 3)]);
    assert!(s.collides(at(0, 0)));
    assert!(s.collides(at(3, 3)));
    assert!(!s.collides(at(4, 4)));
    assert_eq!(s.next_head(), at(2, 0));
}

#[test]
fn cells_list_body_blocks_then_food() {
    let s = game(5, 5, Direction::Right, vec![at(0, 0), at(1, 0)], at(4, 4), vec![at(3, 3)]);
    assert_eq!(
        s.cells(),
        vec![
            (at(0, 0), WALL_GLYPH),
            (at(1, 0), WALL_GLYPH),
            (at(3, 3), WALL_GLYPH),
            (at(4, 4), FOOD_GLYPH),
        ]
    );
    assert_eq!(WALL_GLYPH, '#');
    assert_eq!(FOOD_GLYPH, '*');
}

use snake::direction::Direction;
use snake::food::Food;
use snake::grid::GridPosition;
use snake::snake::{Ate, Segment, Snake};
use std::collections::VecDeque;

fn cell(x: i16, y: i16) -> GridPosition {
    GridPosition::new(x, y)
}

fn body_of(s: &Snake) -> Vec<GridPosition> {
    s.body.iter().map(|seg| seg.pos).collect()
}

fn snake_at(head: GridPosition, body: &[GridPosition], dir: Direction) -> Snake {
    let mut segments: VecDeque<Segment> = VecDeque::new();
    for p in body {
        segments.push_back(Segment::new(*p));
    }
    Snake {
        head: Segment::new(head),
        dir,
        body: segments,
        ate: None,
        last_update_dir: dir,
        next_dir: None,
    }
}

#[test]
fn segment_is_its_position() {
    assert_eq!(Segment::new(cell(4, 9)).pos, cell(4, 9));
}

#[test]
fn food_is_where_it_was_put() {
    assert_eq!(Food::new(cell(4, 9)).pos, cell(4, 9));
}

#[test]
fn starting_snake() {
    let s = Snake::new(cell(7, 10));
    assert_eq!(s.head.pos, cell(7, 10));
    assert_eq!(s.body.len(), 1);
    assert_eq!(1 + s.body.len(), 2);
    assert_eq!(s.body[0].pos, cell(6, 10));
    assert_eq!(s.dir, Direction::Right);
    assert_eq!(s.last_update_dir, Direction::Right);
    assert_eq!(s.next_dir, None);
    assert!(s.ate.is_none());
    assert!(s.fits_grid());
}

#[test]
fn starting_snake_at_the_left_edge_has_its_body_across_it() {
    let s = Snake::new(cell(0, 3));
    assert_eq!(s.head.pos, cell(0, 3));
    assert_eq!(body_of(&s), vec![cell(29, 3)]);
}

#[test]
fn tick_without_contact_moves_the_snake() {
    let mut s = snake_at(cell(5, 5), &[cell(4, 5), cell(3, 5), cell(2, 5)], Direction::Right);
    let out = s.update(&Food::new(cell(20, 15)));
    assert!(out.is_none());
    assert!(s.ate.is_none());
    assert_eq!(s.head.pos, cell(6, 5));
    assert_eq!(body_of(&s), vec![cell(5, 5), cell(4, 5), cell(3, 5)]);
    assert_eq!(s.last_update_dir, Direction::Right);
}

#[test]
fn tick_across_the_edge_wraps_the_head() {
    let mut s = snake_at(cell(29, 0), &[cell(28, 0)], Direction::Right);
    s.update(&Food::new(cell(20, 15)));
    assert_eq!(s.head.pos, cell(0, 0));
    s.handle_direction_input(Direction::Up);
    s.update(&Food::new(cell(20, 15)));
    assert_eq!(s.head.pos, cell(0, 19));
    assert_eq!(body_of(&s), vec![cell(0, 0)]);
}

#[test]
fn tick_onto_food_grows_the_snake() {
    let mut s = Snake::new(cell(7, 10));
    let out = s.update(&Food::new(cell(8, 10)));
    assert_eq!(out, Some(Ate::Food));
    assert_eq!(s.ate, Some(Ate::Food));
    assert_eq!(s.head.pos, cell(8, 10));
    assert_eq!(body_of(&s), vec![cell(7, 10), cell(6, 10)]);
    assert_eq!(1 + s.body.len(), 3);
}

#[test]
fn outcome_is_forgotten_on_the_next_plain_tick() {
    let mut s = Snake::new(cell(7, 10));
    s.update(&Food::new(cell(8, 10)));
    let out = s.update(&Food::new(cell(0, 0)));
    assert!(out.is_none());
    assert!(s.ate.is_none());
    assert_eq!(1 + s.body.len(), 3);
}

#[test]
fn tick_onto_own_body_bites() {
    let mut s = snake_at(cell(9, 10), &[cell(8, 10), cell(7, 10), cell(6, 10)], Direction::Right);
    s.handle_direction_input(Direction::Up);
    assert!(s.update(&Food::new(cell(0, 0))).is_none());
    s.handle_direction_input(Direction::Left);
    assert!(s.update(&Food::new(cell(0, 0))).is_none());
    s.handle_direction_input(Direction::Down);
    let out = s.update(&Food::new(cell(0, 0)));
    assert_eq!(out, Some(Ate::Itself));
    assert_eq!(s.ate, Some(Ate::Itself));
    assert_eq!(s.head.pos, cell(8, 10));
    assert_eq!(body_of(&s), vec![cell(8, 9), cell(9, 9), cell(9, 10), cell(8, 10)]);
    assert_eq!(1 + s.body.len(), 5);
}

#[test]
fn biting_goes_before_eating() {
    let mut s = snake_at(cell(8, 9), &[cell(9, 9), cell(9, 10), cell(8, 10)], Direction::Down);
    let out = s.update(&Food::new(cell(8, 10)));
    assert_eq!(out, Some(Ate::Itself));
}

#[test]
fn entering_the_cell_the_tail_leaves_bites() {
    let mut s = snake_at(cell(5, 5), &[cell(5, 6), cell(6, 6), cell(6, 5)], Direction::Right);
    let out = s.update(&Food::new(cell(0, 0)));
    assert_eq!(out, Some(Ate::Itself));
    assert_eq!(s.body.len(), 4);
}

#[test]
fn eats_food_compares_head_and_food() {
    let s = Snake::new(cell(7, 10));
    assert!(s.eats_food(&Food::new(cell(7, 10))));
    assert!(!s.eats_food(&Food::new(cell(6, 10))));
}

#[test]
fn eats_self_looks_at_the_whole_body() {
    let apart = snake_at(cell(5, 5), &[cell(4, 5), cell(3, 5)], Direction::Right);
    assert!(!apart.eats_self());
    let on_tail = snake_at(cell(5, 5), &[cell(4, 5), cell(5, 5)], Direction::Right);
    assert!(on_tail.eats_self());
    let bare = snake_at(cell(5, 5), &[], Direction::Right);
    assert!(!bare.eats_self());
}

#[test]
fn two_requests_before_a_tick_are_queued() {
    let mut s = Snake::new(cell(7, 10));
    s.handle_direction_input(Direction::Up);
    s.handle_direction_input(Direction::Left);
    assert_eq!(s.dir, Direction::Up);
    assert_eq!(s.next_dir, Some(Direction::Left));

    s.update(&Food::new(cell(0, 0)));
    assert_eq!(s.head.pos, cell(7, 9));
    assert_eq!(s.dir, Direction::Up);
    assert_eq!(s.last_update_dir, Direction::Up);
    assert_eq!(s.next_dir, Some(Direction::Left));

    s.update(&Food::new(cell(0, 0)));
    assert_eq!(s.head.pos, cell(6, 9));
    assert_eq!(s.dir, Direction::Left);
    assert_eq!(s.last_update_dir, Direction::Left);
    assert_eq!(s.next_dir, None);
}

#[test]
fn a_later_request_replaces_the_buffered_one() {
    let mut s = Snake::new(cell(7, 10));
    s.handle_direction_input(Direction::Up);
    s.handle_direction_input(Direction::Left);
    s.handle_direction_input(Direction::Right);
    assert_eq!(s.dir, Direction::Up);
    assert_eq!(s.next_dir, Some(Direction::Right));
}

#[test]
fn reversing_a_waiting_turn_replaces_it() {
    let mut s = Snake::new(cell(7, 10));
    s.handle_direction_input(Direction::Up);
    s.handle_direction_input(Direction::Down);
    assert_eq!(s.dir, Direction::Down);
    assert_eq!(s.next_dir, None);
}

#[test]
fn reversal_is_rejected() {
    let mut s = Snake::new(cell(7, 10));
    s.handle_direction_input(Direction::Left);
    assert_eq!(s.dir, Direction::Right);
    assert_eq!(s.next_dir, None);
    assert_eq!(s.last_update_dir, Direction::Right);
}

#[test]
fn reversal_of_the_last_move_is_buffered_behind_a_waiting_turn() {
    let mut s = Snake::new(cell(7, 10));
    s.handle_direction_input(Direction::Up);
    s.handle_direction_input(Direction::Left);
    assert_eq!(s.dir, Direction::Up);
    assert_eq!(s.next_dir, Some(Direction::Left));
}

#[test]
fn repeated_request_for_the_current_direction_changes_nothing() {
    let mut s = Snake::new(cell(7, 10));
    let mut n: u32 = 0;
    while n < 5 {
        s.handle_direction_input(Direction::Right);
        assert_eq!(s.dir, Direction::Right);
        assert_eq!(s.last_update_dir, Direction::Right);
        assert_eq!(s.next_dir, None);
        assert_eq!(s.head.pos, cell(7, 10));
        assert_eq!(body_of(&s), vec![cell(6, 10)]);
        assert!(s.ate.is_none());
        n += 1;
    }
}

#[test]
fn requests_move_no_cell() {
    let mut s = snake_at(cell(5, 5), &[cell(4, 5), cell(3, 5)], Direction::Right);
    for d in [Direction::Up, Direction::Left, Direction::Down, Direction::Right] {
        s.handle_direction_input(d);
        assert_eq!(s.head.pos, cell(5, 5));
        assert_eq!(body_of(&s), vec![cell(4, 5), cell(3, 5)]);
    }
}

#[test]
fn cells_stay_distinct_until_the_snake_bites() {
    let mut s = snake_at(cell(9, 10), &[cell(8, 10), cell(7, 10), cell(6, 10)], Direction::Right);
    let turns = [Direction::Up, Direction::Left, Direction::Down];
    for d in turns {
        s.handle_direction_input(d);
        let out = s.update(&Food::new(cell(0, 0)));
        let mut cells = body_of(&s);
        cells.push(s.head.pos);
        let mut twice = false;
        let mut i: usize = 0;
        while i < cells.len() {
            let mut j: usize = i + 1;
            while j < cells.len() {
                if cells[i] == cells[j] {
                    twice = true;
                }
                j += 1;
            }
            i += 1;
        }
        assert_eq!(twice, out == Some(Ate::Itself));
    }
    assert_eq!(s.ate, Some(Ate::Itself));
}

#[test]
fn fits_grid_finds_a_cell_outside() {
    let inside = snake_at(cell(0, 0), &[cell(29, 0), cell(29, 19)], Direction::Right);
    assert!(inside.fits_grid());
    let head_out = snake_at(cell(30, 0), &[cell(29, 0)], Direction::Right);
    assert!(!head_out.fits_grid());
    let tail_out = snake_at(cell(5, 5), &[cell(4, 5), cell(4, 20)], Direction::Right);
    assert!(!tail_out.fits_grid());
}

#[test]
fn body_positions_lists_the_body_from_the_head_on() {
    let s = snake_at(cell(5, 5), &[cell(4, 5), cell(3, 5), cell(3, 6)], Direction::Right);
    assert_eq!(s.body_positions(), vec![cell(4, 5), cell(3, 5), cell(3, 6)]);
}

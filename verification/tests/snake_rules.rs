use snake_game::geometry::{Direction, Point};
use snake_game::snake::Snake;

fn snake_of(cells: &[(u16, u16)], direction: Direction) -> Snake {
    Snake {
        length: cells.len(),
        body: cells.iter().map(|&(x, y)| Point::new(x, y)).collect(),
        direction,
        is_alive: true,
    }
}

fn cells_of(snake: &Snake) -> Vec<(u16, u16)> {
    snake.body.iter().map(|p| (p.x, p.y)).collect()
}

const ALL: [Direction; 4] = [Direction::Right, Direction::Up, Direction::Left, Direction::Down];

#[test]
fn point_new_keeps_coordinates() {
    let p = Point::new(3, 7);
    assert_eq!(p.x, 3);
    assert_eq!(p.y, 7);
    assert_eq!(p, Point { x: 3, y: 7 });
}

#[test]
fn step_moves_one_unit_along_the_heading() {
    let p = Point::new(5, 9);
    assert_eq!(p.step(Direction::Right), Point::new(6, 9));
    assert_eq!(p.step(Direction::Left), Point::new(4, 9));
    assert_eq!(p.step(Direction::Down), Point::new(5, 10));
    assert_eq!(p.step(Direction::Up), Point::new(5, 8));
}

#[test]
fn can_step_stops_at_the_ends_of_the_coordinate_range() {
    let origin = Point::new(0, 0);
    assert!(!origin.can_step(Direction::Left));
    assert!(!origin.can_step(Direction::Up));
    assert!(origin.can_step(Direction::Right));
    assert!(origin.can_step(Direction::Down));
    let far = Point::new(u16::MAX, u16::MAX);
    assert!(!far.can_step(Direction::Right));
    assert!(!far.can_step(Direction::Down));
    assert!(far.can_step(Direction::Left));
    assert!(far.can_step(Direction::Up));
}

#[test]
fn opposite_pairs_the_headings_by_axis() {
    assert_eq!(Direction::Right.opposite(), Direction::Left);
    assert_eq!(Direction::Left.opposite(), Direction::Right);
    assert_eq!(Direction::Up.opposite(), Direction::Down);
    assert_eq!(Direction::Down.opposite(), Direction::Up);
    for d in ALL {
        assert_eq!(d.opposite().opposite(), d);
        assert_ne!(d.opposite(), d);
    }
}

#[test]
fn new_snake_is_alive_heads_right_and_has_no_body() {
    let s = Snake::new(4);
    assert_eq!(s.length, 4);
    assert!(s.body.is_empty());
    assert_eq!(s.direction, Direction::Right);
    assert!(s.is_alive);
}

#[test]
fn move_shifts_every_segment_to_its_predecessor() {
    let mut s = snake_of(&[(10, 10), (9, 10), (8, 10), (7, 10)], Direction::Right);
    let before = cells_of(&s);
    assert!(s.can_move());
    s.do_move();
    let after = cells_of(&s);
    assert_eq!(after.len(), 4);
    for i in 1..4 {
        assert_eq!(after[i], before[i - 1]);
    }
    assert_eq!(after[0], (11, 10));
    assert_eq!(after, vec![(11, 10), (10, 10), (9, 10), (8, 10)]);
    assert_eq!(s.length, 4);
    assert_eq!(s.direction, Direction::Right);
    assert!(s.is_alive);
}

#[test]
fn move_advances_the_head_in_each_heading() {
    let expected = [
        (Direction::Right, (6, 5)),
        (Direction::Left, (4, 5)),
        (Direction::Down, (5, 6)),
        (Direction::Up, (5, 4)),
    ];
    for (direction, head) in expected {
        let mut s = snake_of(&[(5, 5), (5, 5)], direction);
        s.do_move();
        assert_eq!(cells_of(&s), vec![head, (5, 5)]);
    }
}

#[test]
fn move_uses_the_heading_current_before_the_call() {
    let mut s = snake_of(&[(5, 5), (4, 5)], Direction::Right);
    s.set_direction(Direction::Down);
    s.do_move();
    assert_eq!(cells_of(&s), vec![(5, 6), (5, 5)]);
    s.do_move();
    assert_eq!(cells_of(&s), vec![(5, 7), (5, 6)]);
}

#[test]
fn move_without_a_body_does_nothing() {
    let mut s = Snake::new(4);
    assert!(s.can_move());
    s.do_move();
    assert!(s.body.is_empty());
    assert_eq!(s.length, 4);
    assert_eq!(s.direction, Direction::Right);
    assert!(s.is_alive);
}

#[test]
fn move_leaves_uncounted_segments_in_place() {
    let mut s = snake_of(&[(5, 5), (4, 5), (3, 5), (2, 5)], Direction::Right);
    s.length = 2;
    s.do_move();
    assert_eq!(cells_of(&s), vec![(6, 5), (5, 5), (3, 5), (2, 5)]);
}

#[test]
fn move_of_a_lone_head() {
    let mut s = snake_of(&[(1, 10)], Direction::Left);
    s.do_move();
    assert_eq!(cells_of(&s), vec![(0, 10)]);
}

#[test]
fn can_move_is_false_where_the_head_would_leave_the_coordinates() {
    assert!(!snake_of(&[(0, 3)], Direction::Left).can_move());
    assert!(!snake_of(&[(3, 0)], Direction::Up).can_move());
    assert!(!snake_of(&[(u16::MAX, 3)], Direction::Right).can_move());
    assert!(!snake_of(&[(3, u16::MAX)], Direction::Down).can_move());
    assert!(snake_of(&[(0, 3)], Direction::Right).can_move());
}

#[test]
fn can_move_is_false_where_counted_segments_are_missing() {
    let mut s = snake_of(&[(5, 5), (4, 5)], Direction::Right);
    s.length = 3;
    assert!(!s.can_move());
    s.length = 2;
    assert!(s.can_move());
}

#[test]
fn set_direction_refuses_exactly_the_reverse() {
    for current in ALL {
        for requested in ALL {
            let mut s = snake_of(&[(5, 5)], current);
            s.set_direction(requested);
            if requested == current.opposite() {
                assert_eq!(s.direction, current);
            } else {
                assert_eq!(s.direction, requested);
            }
            assert_eq!(s.direction == requested, requested != current.opposite());
        }
    }
}

#[test]
fn set_direction_right_to_left_is_refused() {
    let mut s = snake_of(&[(5, 5)], Direction::Right);
    s.set_direction(Direction::Left);
    assert_eq!(s.direction, Direction::Right);
}

#[test]
fn set_direction_right_to_up_is_granted() {
    let mut s = snake_of(&[(5, 5)], Direction::Right);
    s.set_direction(Direction::Up);
    assert_eq!(s.direction, Direction::Up);
}

#[test]
fn set_direction_to_the_same_heading_changes_nothing() {
    let mut s = snake_of(&[(5, 5), (4, 5)], Direction::Down);
    s.set_direction(Direction::Down);
    assert_eq!(s.direction, Direction::Down);
    assert_eq!(cells_of(&s), vec![(5, 5), (4, 5)]);
    assert_eq!(s.length, 2);
    assert!(s.is_alive);
}

#[test]
fn feed_appends_a_segment_on_the_tail() {
    let mut s = snake_of(&[(10, 10), (9, 10), (8, 10), (7, 10)], Direction::Right);
    assert!(s.has_tail());
    s.feed();
    assert_eq!(s.length, 5);
    assert_eq!(cells_of(&s), vec![(10, 10), (9, 10), (8, 10), (7, 10), (7, 10)]);
    assert_eq!(s.direction, Direction::Right);
    assert!(s.is_alive);
}

#[test]
fn new_segment_follows_at_the_next_move() {
    let mut s = snake_of(&[(10, 10), (9, 10), (8, 10), (7, 10)], Direction::Right);
    s.feed();
    s.do_move();
    assert_eq!(s.length, 5);
    assert_eq!(cells_of(&s), vec![(11, 10), (10, 10), (9, 10), (8, 10), (7, 10)]);
    s.do_move();
    assert_eq!(cells_of(&s), vec![(12, 10), (11, 10), (10, 10), (9, 10), (8, 10)]);
}

#[test]
fn feed_of_a_lone_head() {
    let mut s = snake_of(&[(4, 4)], Direction::Up);
    s.feed();
    assert_eq!(s.length, 2);
    assert_eq!(cells_of(&s), vec![(4, 4), (4, 4)]);
    s.do_move();
    assert_eq!(cells_of(&s), vec![(4, 3), (4, 4)]);
}

#[test]
fn has_tail_needs_a_counted_segment_that_exists() {
    assert!(!Snake::new(4).has_tail());
    assert!(!Snake::new(0).has_tail());
    let mut s = snake_of(&[(4, 4)], Direction::Up);
    assert!(s.has_tail());
    s.length = 0;
    assert!(!s.has_tail());
}

#[test]
fn kill_is_idempotent_and_touches_nothing_else() {
    let mut s = snake_of(&[(5, 5), (4, 5)], Direction::Left);
    s.kill();
    assert!(!s.is_alive);
    s.kill();
    assert!(!s.is_alive);
    assert_eq!(s.length, 2);
    assert_eq!(cells_of(&s), vec![(5, 5), (4, 5)]);
    assert_eq!(s.direction, Direction::Left);
}

#[test]
fn dead_snake_still_moves_turns_and_grows() {
    let mut s = snake_of(&[(5, 5), (4, 5)], Direction::Right);
    s.kill();
    s.set_direction(Direction::Up);
    s.do_move();
    s.feed();
    assert!(!s.is_alive);
    assert_eq!(cells_of(&s), vec![(5, 4), (5, 5), (5, 5)]);
}

#[test]
fn snake_draws_its_counted_segments_head_first() {
    let s = snake_of(&[(10, 10), (9, 10), (8, 10)], Direction::Right);
    let cells = s.draw();
    let shown: Vec<(u16, u16, char)> = cells.iter().map(|c| (c.pos.x, c.pos.y, c.symbol)).collect();
    assert_eq!(shown, vec![(10, 10, 'O'), (9, 10, 'O'), (8, 10, 'O')]);
    assert!(Snake::new(0).draw().is_empty());
}

use snake::{Direction, Food, Position, Snake, Touched};

fn cells(s: &Snake) -> Vec<Position> {
    s.body.iter().copied().collect()
}

fn far_food() -> Food {
    Food(Position::new(30, 30))
}

/// A snake of five cells from (8,5) back to (4,5), moving right.
fn long_snake() -> Snake {
    let mut s = Snake::new(Position::new(5, 5));
    for x in 6..9 {
        s.update(&Food(Position::new(x, 5)));
        assert_eq!(s.touched, Some(Touched::Food));
    }
    s
}

#[test]
fn new_snake_has_head_and_one_cell_behind() {
    let s = Snake::new(Position::new(10, 20));
    assert_eq!(cells(&s), vec![Position::new(10, 20), Position::new(9, 20)]);
    assert_eq!(s.dir, Direction::Right);
    assert_eq!(s.last_dir, Direction::Right);
    assert_eq!(s.next_dir, None);
    assert_eq!(s.touched, None);
}

#[test]
fn new_snake_at_left_edge_wraps_its_tail() {
    let s = Snake::new(Position::new(0, 3));
    assert_eq!(cells(&s), vec![Position::new(0, 3), Position::new(39, 3)]);
}

#[test]
fn eating_food_on_the_next_cell() {
    let mut s = Snake::new(Position::new(2, 2));
    assert!(!s.ate_food(&Food(Position::new(3, 2))));
    s.update(&Food(Position::new(3, 2)));
    assert_eq!(s.touched, Some(Touched::Food));
    assert!(s.ate_food(&Food(Position::new(3, 2))));
    assert_eq!(s.body[0], Position::new(3, 2));
    assert_eq!(
        cells(&s),
        vec![Position::new(3, 2), Position::new(2, 2), Position::new(1, 2)]
    );
    assert_eq!(*s.body.back().unwrap(), Position::new(1, 2));
    assert!(!s.eats_body());
}

#[test]
fn food_grows_the_body_by_one() {
    let mut s = long_snake();
    let before = s.body.len();
    s.update(&Food(Position::new(9, 5)));
    assert_eq!(s.touched, Some(Touched::Food));
    assert_eq!(s.body.len(), before + 1);
}

#[test]
fn plain_tick_keeps_the_length() {
    let mut s = long_snake();
    assert_eq!(s.body.len(), 5);
    s.update(&far_food());
    assert_eq!(s.touched, None);
    assert_eq!(s.body.len(), 5);
    assert_eq!(
        cells(&s),
        vec![
            Position::new(9, 5),
            Position::new(8, 5),
            Position::new(7, 5),
            Position::new(6, 5),
            Position::new(5, 5),
        ]
    );
}

#[test]
fn running_into_the_body_is_reported() {
    let mut s = long_snake();
    s.dir = Direction::Down;
    s.update(&far_food());
    assert_eq!(s.touched, None);
    s.dir = Direction::Left;
    s.update(&far_food());
    assert_eq!(s.touched, None);
    s.dir = Direction::Up;
    s.update(&far_food());
    assert_eq!(s.touched, Some(Touched::Body));
    assert_eq!(s.body[0], Position::new(7, 5));
    assert!(s.eats_body());
}

#[test]
fn body_collision_wins_over_food() {
    let mut s = long_snake();
    s.dir = Direction::Down;
    s.update(&far_food());
    s.dir = Direction::Left;
    s.update(&far_food());
    s.dir = Direction::Up;
    s.update(&Food(Position::new(7, 5)));
    assert_eq!(s.touched, Some(Touched::Body));
}

#[test]
fn stepping_onto_the_old_tail_is_a_collision() {
    // A square of four cells: the head moves onto the cell the tail leaves.
    let mut s = Snake::new(Position::new(5, 5));
    s.update(&Food(Position::new(6, 5)));
    s.dir = Direction::Down;
    s.update(&Food(Position::new(6, 6)));
    assert_eq!(
        cells(&s),
        vec![Position::new(6, 6), Position::new(6, 5), Position::new(5, 5), Position::new(4, 5)]
    );
    s.dir = Direction::Left;
    s.update(&far_food());
    assert_eq!(s.touched, None);
    s.dir = Direction::Up;
    s.update(&far_food());
    assert_eq!(s.touched, Some(Touched::Body));
}

#[test]
fn queued_turn_waits_for_a_full_tick() {
    let mut s = Snake::new(Position::new(5, 5));
    s.dir = Direction::Down;
    s.next_dir = Some(Direction::Left);
    s.update(&far_food());
    assert_eq!(s.body[0], Position::new(5, 6));
    assert_eq!(s.dir, Direction::Down);
    assert_eq!(s.last_dir, Direction::Down);
    assert_eq!(s.next_dir, Some(Direction::Left));
    s.update(&far_food());
    assert_eq!(s.body[0], Position::new(4, 6));
    assert_eq!(s.dir, Direction::Left);
    assert_eq!(s.last_dir, Direction::Left);
    assert_eq!(s.next_dir, None);
}

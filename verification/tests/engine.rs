use snake_game::food::Food;
use snake_game::player::SnakePlayer;
use snake_game::snake::{Bounds, KeyEvent, SnakeDir, SnakePart};

fn field() -> Bounds {
    Bounds { min_x: 0, min_y: 0, max_x: 20, max_y: 20 }
}

/// A five-segment body on row 5, tail at x=10, head at x=14, heading right.
fn row_snake() -> SnakePlayer {
    SnakePlayer::new(field(), '#', 5, 5, SnakePart::dnew(5, 10, SnakeDir::Right), 4)
}

fn positions(s: &SnakePlayer) -> Vec<(i32, i32)> {
    s.parts().iter().map(|p| (p.y, p.x)).collect()
}

#[test]
fn advance_shifts_whole_chain() {
    let mut s = row_snake();
    assert_eq!(positions(&s), vec![(5, 10), (5, 11), (5, 12), (5, 13), (5, 14)]);
    s.mv();
    assert_eq!(positions(&s), vec![(5, 11), (5, 12), (5, 13), (5, 14), (5, 15)]);
}

#[test]
fn advance_keeps_length() {
    let mut s = row_snake();
    for _ in 0..4 {
        s.mv();
        assert_eq!(s.len(), 5);
        assert_eq!(s.parts().len(), 5);
    }
}

#[test]
fn reversal_onto_non_head_segment_terminates() {
    let mut s = row_snake();
    let before = positions(&s);
    let mut food = Food::new(field(), '*', 5);
    food.x = 0;
    food.y = 0;
    s.ctrls(Some(KeyEvent::Char('a')));
    assert!(!s.alive());
    // Re-run the tick from the start so the key is read inside it.
    let mut s = row_snake();
    let running = s.start(&mut food, Some(KeyEvent::Char('a')));
    assert!(!running);
    assert!(!s.running());
    assert_eq!(positions(&s), before);
    assert_eq!(s.score(), 0);
}

#[test]
fn left_edge_is_terminal() {
    let s = SnakePlayer::new(field(), '#', 1, 5, SnakePart::dnew(10, 0, SnakeDir::Left), 4);
    assert_eq!(positions(&s), vec![(10, 0)]);
    assert!(!s.alive());
}

#[test]
fn every_edge_is_terminal() {
    let b = field();
    let cases = [
        (SnakeDir::Left, 0, 10),
        (SnakeDir::Right, 20, 10),
        (SnakeDir::Up, 10, 0),
        (SnakeDir::Down, 10, 20),
    ];
    for (dir, x, y) in cases {
        let s = SnakePlayer::new(b, '#', 1, 5, SnakePart::dnew(y, x, dir), 4);
        assert!(!s.alive(), "leaving the field at ({x},{y}) must be terminal");
    }
}

#[test]
fn interior_moves_are_not_terminal() {
    let b = field();
    for dir in [SnakeDir::Up, SnakeDir::Down, SnakeDir::Left, SnakeDir::Right] {
        let s = SnakePlayer::new(b, '#', 1, 5, SnakePart::dnew(10, 10, dir), 4);
        assert!(s.alive());
    }
}

#[test]
fn growth_appends_tail_duplicates() {
    let mut s = row_snake();
    s.inc_size(3);
    assert_eq!(s.len(), 8);
    assert_eq!(
        positions(&s),
        vec![(5, 10), (5, 10), (5, 10), (5, 10), (5, 11), (5, 12), (5, 13), (5, 14)]
    );
    // The duplicates carry the default heading.
    for p in s.parts().iter().take(3) {
        assert_eq!(p.dir, SnakeDir::Right);
    }
}

#[test]
fn growth_is_monotonic() {
    let mut s = row_snake();
    let mut last: usize = s.len();
    for n in [0usize, 1, 2, 5] {
        s.inc_size(n);
        assert!(s.len() >= last);
        last = s.len();
    }
    assert_eq!(last, 13);
}

#[test]
fn consumption_raises_score_and_length() {
    // Pin the food to the cell the head is about to enter: a degenerate
    // field forces the random draw.
    let pinned = Bounds { min_x: 15, min_y: 5, max_x: 15, max_y: 5 };
    let mut food = Food::new(pinned, '*', 5);
    assert_eq!((food.x, food.y), (15, 5));
    let mut s = row_snake();
    let running = s.start(&mut food, None);
    assert!(running);
    assert_eq!(s.score(), 1);
    assert_eq!(s.len(), 10);
    assert_eq!(s.parts().len(), 10);
    // Head committed onto the food cell; the tail end duplicated.
    assert_eq!(positions(&s)[9], (5, 15));
    assert_eq!(positions(&s)[0], (5, 11));
    // The relocated food is still on its own field.
    assert_eq!((food.x, food.y), (15, 5));
}

#[test]
fn tick_without_food_changes_no_score() {
    let mut food = Food::new(field(), '*', 5);
    food.x = 0;
    food.y = 0;
    let mut s = row_snake();
    let running = s.start(&mut food, None);
    assert!(running);
    assert_eq!(s.score(), 0);
    assert_eq!(s.len(), 5);
    assert_eq!(positions(&s), vec![(5, 11), (5, 12), (5, 13), (5, 14), (5, 15)]);
    assert_eq!((food.x, food.y), (0, 0));
}

#[test]
fn eaten_is_a_no_op_off_the_food_cell() {
    let mut food = Food::new(field(), '*', 5);
    food.x = 0;
    food.y = 0;
    let mut s = row_snake();
    let before = positions(&s);
    s.eaten(&mut food);
    assert_eq!(positions(&s), before);
    assert_eq!(s.score(), 0);
    assert_eq!((food.x, food.y), (0, 0));
}

#[test]
fn terminated_session_is_absorbing() {
    let mut food = Food::new(field(), '*', 5);
    food.x = 0;
    food.y = 0;
    let mut s = row_snake();
    assert!(!s.start(&mut food, Some(KeyEvent::Char('a'))));
    let after_death = positions(&s);
    // Further ticks leave everything untouched, whatever the key.
    assert!(!s.start(&mut food, Some(KeyEvent::Char('w'))));
    assert!(!s.running());
    assert_eq!(positions(&s), after_death);
    assert_eq!(s.score(), 0);
}

#[test]
fn driving_around_a_corner() {
    let mut food = Food::new(field(), '*', 5);
    food.x = 0;
    food.y = 0;
    let mut s = row_snake();
    assert!(s.start(&mut food, None));
    assert!(s.start(&mut food, Some(KeyEvent::Char('s'))));
    assert_eq!(positions(&s), vec![(5, 12), (5, 13), (5, 14), (5, 15), (6, 15)]);
    assert!(s.start(&mut food, Some(KeyEvent::ArrowLeft)));
    assert_eq!(positions(&s), vec![(5, 13), (5, 14), (5, 15), (6, 15), (6, 14)]);
    assert_eq!(s.dir(), SnakeDir::Left);
}

use snake_core::game::Game;
use snake_core::game::FOOD_INTERVAL_MS;
use snake_core::game::MOVEMENT_INTERVAL_MS;
use snake_core::grid::Direction;
use snake_core::grid::Position;
use snake_core::input::DirectionalKeys;

fn no_keys() -> DirectionalKeys {
    DirectionalKeys { left: false, right: false, down: false, up: false }
}

fn pos(x: i32, y: i32) -> Position {
    Position { x, y }
}

#[test]
fn intervals_match_the_schedule() {
    let g = Game::new();
    assert_eq!(MOVEMENT_INTERVAL_MS, 250);
    assert_eq!(FOOD_INTERVAL_MS, 100);
    assert_eq!(g.movement_timer.interval_ms, 250);
    assert_eq!(g.food_timer.interval_ms, 100);
    assert_eq!(g.state.head, pos(0, 0));
    assert_eq!(g.state.segments.len(), 4);
}

#[test]
fn movement_gated_by_its_timer() {
    let mut g = Game::new();
    let (moved, _) = g.frame(no_keys(), 100);
    assert!(!moved);
    assert_eq!(g.state.head, pos(0, 0));
    let (moved, _) = g.frame(no_keys(), 100);
    assert!(!moved);
    let (moved, _) = g.frame(no_keys(), 100);
    assert!(moved);
    assert_eq!(g.state.head, pos(1, 0));
    assert_eq!(g.state.segments[0], pos(0, 0));
}

#[test]
fn food_gated_by_its_timer() {
    let mut g = Game::new();
    let (_, fed) = g.frame(no_keys(), 60);
    assert!(!fed);
    assert_eq!(g.state.foods.len(), 0);
    let (_, fed) = g.frame(no_keys(), 60);
    assert!(fed);
    assert_eq!(g.state.foods.len(), 1);
    let f = g.state.foods[0];
    assert!(-7 <= f.x && f.x < 7);
    assert!(-7 <= f.y && f.y < 7);
}

#[test]
fn input_applied_before_movement() {
    // A frame long enough to fire the movement timer, with Down pressed:
    // the tick already uses the new direction.
    let mut g = Game::new();
    let keys = DirectionalKeys { left: false, right: false, down: true, up: false };
    let (moved, _) = g.frame(keys, 250);
    assert!(moved);
    assert_eq!(g.state.direction, Direction::Down);
    assert_eq!(g.state.head, pos(0, -1));
}

#[test]
fn left_and_right_in_one_frame_steers_left() {
    let mut g = Game::new();
    let keys = DirectionalKeys { left: true, right: true, down: false, up: false };
    g.frame(keys, 0);
    assert_eq!(g.state.direction, Direction::Left);
}

#[test]
fn input_without_keys_keeps_direction() {
    let mut g = Game::new();
    g.frame(no_keys(), 0);
    assert_eq!(g.state.direction, Direction::Right);
}

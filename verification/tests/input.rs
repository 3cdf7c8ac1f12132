use snake_core::input::resolve_direction;
use snake_core::input::DirectionalKeys;
use snake_core::grid::Direction;

fn keys(left: bool, right: bool, down: bool, up: bool) -> DirectionalKeys {
    DirectionalKeys { left, right, down, up }
}

#[test]
fn left_beats_right_when_both_pressed() {
    let d = resolve_direction(keys(true, true, false, false), Direction::Up);
    assert_eq!(d, Direction::Left);
}

#[test]
fn priority_order_left_right_down_up() {
    assert_eq!(resolve_direction(keys(true, true, true, true), Direction::Up), Direction::Left);
    assert_eq!(resolve_direction(keys(false, true, true, true), Direction::Up), Direction::Right);
    assert_eq!(resolve_direction(keys(false, false, true, true), Direction::Up), Direction::Down);
    assert_eq!(resolve_direction(keys(false, false, false, true), Direction::Down), Direction::Up);
}

#[test]
fn no_key_keeps_current_direction() {
    let d = resolve_direction(keys(false, false, false, false), Direction::Down);
    assert_eq!(d, Direction::Down);
}

#[test]
fn reversal_is_not_rejected() {
    // The mapper never consults the opposite-direction relation: pressing
    // Left while moving Right still yields Left.
    let d = resolve_direction(keys(true, false, false, false), Direction::Right);
    assert_eq!(d, Direction::Left);
}

use snake_core::grid::Direction;

#[test]
fn opposite_pairs() {
    assert_eq!(Direction::Left.opposite(), Direction::Right);
    assert_eq!(Direction::Right.opposite(), Direction::Left);
    assert_eq!(Direction::Up.opposite(), Direction::Down);
    assert_eq!(Direction::Down.opposite(), Direction::Up);
}

#[test]
fn opposite_involution() {
    let all = [Direction::Left, Direction::Up, Direction::Right, Direction::Down];
    for d in all {
        assert_eq!(d.opposite().opposite(), d);
    }
}

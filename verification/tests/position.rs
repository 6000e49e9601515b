use bevy_tetris::{Position, Shape};

#[test]
fn new_keeps_both_coordinates() {
    let p = Position::new(3, -7);
    assert_eq!((p.x, p.y), (3, -7));
}

#[test]
fn add_sums_each_coordinate() {
    let p = Position::new(3, -7) + Position::new(10, 20);
    assert_eq!((p.x, p.y), (13, 13));
}

#[test]
fn add_reaches_both_ends_of_the_range() {
    let high = Position::new(i32::MAX - 1, i32::MAX) + Position::new(1, 0);
    assert_eq!((high.x, high.y), (i32::MAX, i32::MAX));
    let low = Position::new(i32::MIN + 1, i32::MIN) + Position::new(-1, 0);
    assert_eq!((low.x, low.y), (i32::MIN, i32::MIN));
}

#[test]
fn add_is_commutative_on_samples() {
    let samples = [(0, 0), (1, 0), (-5, 9), (1000, -1000), (i32::MAX - 1000, i32::MIN + 1000)];
    for &(ax, ay) in samples.iter() {
        for &(bx, by) in samples.iter().take(4) {
            let left = Position::new(ax, ay) + Position::new(bx, by);
            let right = Position::new(bx, by) + Position::new(ax, ay);
            assert_eq!((left.x, left.y), (right.x, right.y));
        }
    }
}

#[test]
fn add_is_associative_on_samples() {
    let samples = [(0, 0), (1, 0), (-5, 9), (1000, -1000), (123456, 654321)];
    for &(ax, ay) in samples.iter() {
        for &(bx, by) in samples.iter() {
            for &(cx, cy) in samples.iter() {
                let (a, b, c) = (Position::new(ax, ay), Position::new(bx, by), Position::new(cx, cy));
                let left = (a + b) + c;
                let right = a + (b + c);
                assert_eq!((left.x, left.y), (right.x, right.y));
                assert_eq!((left.x, left.y), (ax + bx + cx, ay + by + cy));
            }
        }
    }
}

#[test]
fn checked_add_gives_the_sum_where_it_fits() {
    let sum = Position::new(4, 5).checked_add(Position::new(-6, 7));
    assert!(matches!(sum, Some(p) if (p.x, p.y) == (-2, 12)));
}

#[test]
fn checked_add_refuses_an_overflow_in_either_coordinate() {
    assert!(Position::new(i32::MAX, 0).checked_add(Position::new(1, 0)).is_none());
    assert!(Position::new(0, i32::MAX).checked_add(Position::new(0, 1)).is_none());
    assert!(Position::new(i32::MIN, 0).checked_add(Position::new(-1, 0)).is_none());
    assert!(Position::new(0, i32::MIN).checked_add(Position::new(0, -1)).is_none());
    assert!(Position::new(i32::MAX, i32::MIN).checked_add(Position::new(0, 0)).is_some());
}

#[test]
fn rect_covers_a_square_of_four_cells() {
    let offsets = Shape::Rect.offsets().unwrap();
    let pairs: Vec<(i32, i32)> = offsets.iter().map(|p| (p.x, p.y)).collect();
    assert_eq!(pairs, vec![(0, 0), (1, 0), (0, 1), (1, 1)]);
}

#[test]
fn other_shapes_have_no_layout() {
    for shape in [Shape::L, Shape::I, Shape::T, Shape::S].iter() {
        assert!(shape.offsets().is_none());
        assert!(!shape.can_place(Position::new(0, 0)));
    }
}

#[test]
fn rect_can_be_placed_short_of_the_last_column_and_row() {
    assert!(Shape::Rect.can_place(Position::new(0, 0)));
    assert!(Shape::Rect.can_place(Position::new(i32::MIN, i32::MIN)));
    assert!(Shape::Rect.can_place(Position::new(i32::MAX - 1, i32::MAX - 1)));
    assert!(!Shape::Rect.can_place(Position::new(i32::MAX, 0)));
    assert!(!Shape::Rect.can_place(Position::new(0, i32::MAX)));
}

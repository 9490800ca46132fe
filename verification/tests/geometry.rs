use rideways::geometry::{Position, Rect, RectSize, COORD_LIMIT};

#[test]
fn test_inputs_are_stored() {
    let rect = Rect::new((100i64, 200i64).into(), (20u32, 50u32).into());
    assert_eq!(rect.left(), 100);
    assert_eq!(rect.top(), 200);
    assert_eq!(rect.width(), 20);
    assert_eq!(rect.height(), 50);
}

#[test]
fn test_calculated_values() {
    let rect = Rect::new((100i64, 200i64).into(), (20u32, 50u32).into());
    assert_eq!(rect.right(), 120);
    assert_eq!(rect.bottom(), 250);
}

#[test]
fn test_middle_functions() {
    let rect = Rect::new((100i64, 200i64).into(), (20u32, 50u32).into());
    assert_eq!(rect.midleft(), (100i64, 225i64).into());
    assert_eq!(rect.midright(), (120i64, 225i64).into());
    assert_eq!(rect.midtop(), (110i64, 200i64).into());
    assert_eq!(rect.midbottom(), (110i64, 250i64).into());
}

#[test]
fn rect_test_inputs_are_stored() {
    let rect = Rect::new((100i64, 200i64).into(), (20u32, 50u32).into());
    assert_eq!(rect.left(), 100);
    assert_eq!(rect.top(), 200);
    assert_eq!(rect.width(), 20);
    assert_eq!(rect.height(), 50);
}

#[test]
fn rect_test_calculated_values() {
    let rect = Rect::new((100i64, 200i64).into(), (20u32, 50u32).into());
    assert_eq!(rect.right(), 120);
    assert_eq!(rect.bottom(), 250);
}

#[test]
fn rect_test_middle_functions() {
    let rect = Rect::new((100i64, 200i64).into(), (20u32, 50u32).into());
    assert_eq!(rect.midleft(), (100i64, 225i64).into());
    assert_eq!(rect.midright(), (120i64, 225i64).into());
    assert_eq!(rect.midtop(), (110i64, 200i64).into());
    assert_eq!(rect.midbottom(), (110i64, 250i64).into());
}

#[test]
fn center_rounds_down() {
    let rect = Rect::new(Position(0, 0), RectSize(5, 7));
    assert_eq!(rect.center(), Position(2, 3));
}

#[test]
fn positions_come_from_unsigned_pairs() {
    let p: Position = (3u32, 4u32).into();
    assert_eq!(p, Position(3, 4));
    let s: RectSize = (3u32, 4u32).into();
    assert_eq!(s, RectSize(3, 4));
}

#[test]
fn picture_sizes_are_scaled_to_micro_pixels() {
    assert_eq!(RectSize::from_pixels((32, 16)), RectSize(32_000_000, 16_000_000));
    assert_eq!(RectSize::from_pixels((0, 1)), RectSize(0, 1_000_000));
}

#[test]
fn setters_keep_the_size() {
    let mut rect = Rect::new(Position(10, 20), RectSize(30, 40));
    rect.set_left(5);
    assert_eq!((rect.left(), rect.right()), (5, 35));
    rect.set_right(100);
    assert_eq!((rect.left(), rect.right()), (70, 100));
    rect.set_top(-5);
    assert_eq!((rect.top(), rect.bottom()), (-5, 35));
    rect.set_bottom(0);
    assert_eq!((rect.top(), rect.bottom()), (-40, 0));
    assert_eq!((rect.width(), rect.height()), (30, 40));
}

#[test]
fn move_by_shifts_both_coordinates() {
    let mut rect = Rect::new(Position(10, 20), RectSize(30, 40));
    rect.move_by(-15, 7);
    assert_eq!((rect.left(), rect.top()), (-5, 27));
    assert_eq!((rect.width(), rect.height()), (30, 40));
}

#[test]
fn coordinates_stop_at_the_limit() {
    let rect = Rect::new(Position(i64::MAX, i64::MIN), RectSize(-3, i64::MAX));
    assert_eq!(rect.left(), COORD_LIMIT);
    assert_eq!(rect.top(), -COORD_LIMIT);
    assert_eq!(rect.width(), 0);
    assert_eq!(rect.height(), COORD_LIMIT);
    let mut moving = Rect::new(Position(COORD_LIMIT - 1, 0), RectSize(1, 1));
    moving.move_by(i64::MAX, i64::MIN);
    assert_eq!(moving.left(), COORD_LIMIT);
    assert_eq!(moving.top(), -COORD_LIMIT);
    moving.set_right(i64::MIN);
    assert_eq!(moving.left(), -COORD_LIMIT);
}

#[test]
fn touching_rectangles_overlap() {
    let a = Rect::new(Position(0, 0), RectSize(10, 10));
    let right_neighbour = Rect::new(Position(10, 0), RectSize(5, 5));
    let corner_neighbour = Rect::new(Position(10, 10), RectSize(5, 5));
    let apart = Rect::new(Position(11, 0), RectSize(5, 5));
    let below = Rect::new(Position(0, 11), RectSize(5, 5));
    let inside = Rect::new(Position(2, 2), RectSize(1, 1));
    assert!(a.overlaps(&right_neighbour));
    assert!(right_neighbour.overlaps(&a));
    assert!(a.overlaps(&corner_neighbour));
    assert!(!a.overlaps(&apart));
    assert!(!apart.overlaps(&a));
    assert!(!a.overlaps(&below));
    assert!(a.overlaps(&inside));
    assert!(inside.overlaps(&a));
}

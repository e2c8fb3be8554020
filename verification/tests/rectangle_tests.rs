use rectangles::rectangle::Rectangle;

#[test]
fn area_is_width_times_height() {
    let r = Rectangle { width: 30, height: 50 };
    assert_eq!(r.area(), 1500);
    let r = Rectangle { width: 7, height: 9 };
    assert_eq!(r.area(), 63);
}

#[test]
fn area_of_degenerate_rectangle_is_zero() {
    assert_eq!(Rectangle { width: 0, height: 50 }.area(), 0);
    assert_eq!(Rectangle { width: 50, height: 0 }.area(), 0);
    assert_eq!(Rectangle { width: 0, height: 0 }.area(), 0);
}

#[test]
fn area_of_largest_rectangle_does_not_overflow() {
    let r = Rectangle { width: u32::MAX, height: u32::MAX };
    assert_eq!(r.area(), 18446744065119617025);
}

#[test]
fn width_is_false_for_zero_width() {
    assert!(!Rectangle { width: 0, height: 50 }.width());
    assert!(!Rectangle { width: 0, height: 0 }.width());
}

#[test]
fn width_is_true_for_positive_width() {
    assert!(Rectangle { width: 1, height: 0 }.width());
    assert!(Rectangle { width: 30, height: 50 }.width());
}

#[test]
fn can_hold_requires_strict_containment() {
    let a = Rectangle { width: 30, height: 50 };
    assert!(a._can_hold(&Rectangle { width: 10, height: 40 }));
    assert!(!a._can_hold(&Rectangle { width: 30, height: 10 }));
    assert!(!a._can_hold(&Rectangle { width: 10, height: 50 }));
    assert!(!a._can_hold(&Rectangle { width: 40, height: 60 }));
    assert!(!a._can_hold(&a));
}

#[test]
fn square_has_equal_sides() {
    let sq = Rectangle::_square(3);
    assert_eq!(sq.width, 3);
    assert_eq!(sq.height, 3);
    let sq = Rectangle::_square(0);
    assert_eq!(sq.width, 0);
    assert_eq!(sq.height, 0);
}

#[test]
fn square_area_is_side_squared() {
    assert_eq!(Rectangle::_square(3).area(), 9);
    assert_eq!(Rectangle::_square(1000).area(), 1000000);
    assert_eq!(Rectangle::_square(u32::MAX).area(), 18446744065119617025);
}

#[test]
fn debug_rendering_shows_type_and_fields() {
    let r = Rectangle { width: 30, height: 50 };
    let rendered = format!("{:?}", r);
    assert!(rendered.contains("Rectangle"));
    assert!(rendered.contains("width"));
    assert!(rendered.contains("30"));
    assert!(rendered.contains("height"));
    assert!(rendered.contains("50"));
}

#[test]
fn rectangles_compare_by_fields() {
    let a = Rectangle { width: 30, height: 50 };
    let b = Rectangle { width: 30, height: 50 };
    let c = Rectangle { width: 31, height: 50 };
    assert_eq!(a, b);
    assert_ne!(a, c);
    assert_eq!(a, a.clone());
}

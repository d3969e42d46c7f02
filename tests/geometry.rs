use pong::geometry::{Rect, Vec2};

#[test]
fn overlapping_rectangles_intersect() {
    let a = Rect { x: 2000, y: 2000, width: 4000, height: 4000 };
    let b = Rect { x: 3000, y: 3000, width: 4000, height: 4000 };
    assert!(a.intersects(&b));
    assert!(b.intersects(&a));
    assert!(a.intersects(&a));
}

#[test]
fn contained_rectangle_intersects() {
    let a = Rect { x: 2000, y: 2000, width: 4000, height: 4000 };
    let b = Rect { x: 2500, y: 2500, width: 2000, height: 2000 };
    assert!(a.intersects(&b));
}

#[test]
fn adjacent_and_separate_rectangles_do_not_intersect() {
    let a = Rect { x: 2000, y: 2000, width: 4000, height: 4000 };
    let b = Rect { x: 6000, y: 2000, width: 4000, height: 4000 };
    let c = Rect { x: 20000, y: 20000, width: 4000, height: 4000 };
    assert!(!a.intersects(&b));
    assert!(!a.intersects(&c));
}

#[test]
fn vec2_new_keeps_components() {
    let v = Vec2::new(1, -2);
    assert_eq!((v.x, v.y), (1, -2));
}

use toy_xcb::geometry::{HasArea, Margins, Point, Rect, Size};

#[test]
fn area() {
    let s = Size { w: 5, h: 4 };
    assert_eq!(20, s.area());

    let r = Rect::new_s(0, 0, s);
    assert_eq!(20, r.area());
}

#[test]
fn ops() {
    let v1 = Point::new(3, 4);
    let v2 = Point::new(6, 2);

    assert_eq!(Point::new(9, 6), v1 + v2);
    assert_eq!(Point::new(-3, 2), v1 - v2);
    assert_eq!(Point::new(6, 8), v1 * 2);
    assert_eq!(Point::new(3, 1), v2 / 2);

    let r = Rect::new(5, 6, 7, 8);
    let m = Margins::new(2, 2, 2, 2);

    assert_eq!(Rect::new(3, 4, 11, 12), r + m);
    assert_eq!(Rect::new(7, 8, 3, 4), r - m);
}

#[test]
fn rect_accessors() {
    let r = Rect::new_p(Point::new(1, 2), 3, 4);
    assert_eq!(Point::new(1, 2), r.point());
    assert_eq!(Size::new(3, 4), r.size());

    let r2 = Rect::new_ps(Point::new(7, 8), Size::new(9, 10));
    assert_eq!(Rect::new(7, 8, 9, 10), r2);
}

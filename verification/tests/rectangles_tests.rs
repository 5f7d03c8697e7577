use hello::rectangles::Rectangle;

#[test]
fn area_multiplies_the_sides() {
    let r = Rectangle { width: 30, height: 50 };
    assert_eq!(r.area(), 1500);
}

#[test]
fn degenerate_rectangles_have_zero_area() {
    assert_eq!(Rectangle { width: 0, height: 50 }.area(), 0);
    assert_eq!(Rectangle { width: 30, height: 0 }.area(), 0);
}

#[test]
fn area_at_the_type_limit() {
    let r = Rectangle { width: 65535, height: 65535 };
    assert_eq!(r.area(), 4294836225);
}

use toy_xcb::mouse::{Buttons, LEFT, MIDDLE, NONE, RIGHT};

#[test]
fn buts_has() {
    let m = Buttons::left() | Buttons::right();

    assert!(m.has_left());
    assert!(m.has_right());
    assert!(!m.has_middle());

    assert!(m.has_all(LEFT | RIGHT));
    assert!(m.has_all(LEFT));
    assert!(m.has_all(RIGHT));
    assert!(!m.has_all(LEFT | RIGHT | MIDDLE));

    assert!(m.has_any(LEFT | RIGHT));
    assert!(m.has_any(LEFT));
    assert!(m.has_any(RIGHT));
    assert!(!m.has_any(MIDDLE));
    assert!(m.has_any(LEFT | RIGHT | MIDDLE));

    assert!(!m.is_none());

    assert!(Buttons::none().is_none());
}

#[test]
fn buts_ops() {
    let m = Buttons::left() & Buttons::middle();

    assert_eq!(Buttons::none(), m);
    assert_eq!(NONE, m.fields());

    let m = Buttons::left() | Buttons::right();
    assert_eq!(Buttons::new(LEFT | RIGHT), m);
}

#[test]
fn buts_new_masks() {
    // construction masks idempotently: undefined bits never survive
    assert_eq!(Buttons::new(0xff), Buttons::new(0xff & 7));
    assert_eq!(7, Buttons::new(0xff).fields());
    assert_eq!(Buttons::new(0), Buttons::none());

    assert!(Buttons::left().is_left());
    assert!(Buttons::middle().is_middle());
    assert!(Buttons::right().is_right());
    assert!(Buttons::middle().has_middle());
    assert!(Buttons::right().has_right());

    let x = Buttons::left() ^ Buttons::new(LEFT | MIDDLE);
    assert_eq!(MIDDLE, x.fields());

    assert!(Buttons::new(LEFT | MIDDLE).has_none(RIGHT));
}

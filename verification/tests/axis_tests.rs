use frui_flex::axis::Axis;

#[test]
fn main_and_cross_pick_the_components() {
    assert_eq!(Axis::Horizontal.main(3, 4), 3);
    assert_eq!(Axis::Horizontal.cross(3, 4), 4);
    assert_eq!(Axis::Vertical.main(3, 4), 4);
    assert_eq!(Axis::Vertical.cross(3, 4), 3);
    assert_eq!(Axis::Vertical.main(1.5f64, 2.5f64), 2.5);
}

#[test]
fn writing_main_then_reading_gives_the_value() {
    for axis in [Axis::Horizontal, Axis::Vertical] {
        let (mut w, mut h) = (10.0f64, 20.0f64);
        *axis.main_mut(&mut w, &mut h) = 7.0;
        assert_eq!(axis.main(w, h), 7.0);
        assert_eq!(axis.cross(w, h), axis.cross(10.0, 20.0));
    }
}

#[test]
fn writing_cross_then_reading_gives_the_value() {
    for axis in [Axis::Horizontal, Axis::Vertical] {
        let (mut w, mut h) = (10u32, 20u32);
        *axis.cross_mut(&mut w, &mut h) = 5;
        assert_eq!(axis.cross(w, h), 5);
        assert_eq!(axis.main(w, h), axis.main(10, 20));
    }
    let (mut w, mut h) = (1, 2);
    *Axis::Horizontal.cross_mut(&mut w, &mut h) = 9;
    assert_eq!((w, h), (1, 9));
    *Axis::Vertical.main_mut(&mut w, &mut h) = 8;
    assert_eq!((w, h), (1, 8));
}

use draw_dispatch::command::Point;
use draw_dispatch::command::Rect;
use draw_dispatch::command::Scalar;
use draw_dispatch::command::Size;

fn scalar(v: f64) -> Scalar {
    Scalar::from_bits(v.to_bits())
}

fn value(s: Scalar) -> f64 {
    f64::from_bits(s.to_bits())
}

#[test]
fn scalar_keeps_every_bit() {
    for v in [0.0f64, -0.0, 1.0, -2.5, 1e300, f64::MIN_POSITIVE, f64::INFINITY, f64::NEG_INFINITY] {
        assert_eq!(value(scalar(v)).to_bits(), v.to_bits());
    }
    let nan = f64::NAN;
    assert!(value(scalar(nan)).is_nan());
    assert_eq!(scalar(nan).to_bits(), nan.to_bits());
    assert_eq!(Scalar::from_bits(0x4059_0000_0000_0000).to_bits(), 0x4059_0000_0000_0000);
    assert_eq!(value(Scalar::from_bits(0x4059_0000_0000_0000)), 100.0);
}

#[test]
fn scalars_compare_by_bits() {
    assert_eq!(scalar(1.5), scalar(1.5));
    assert_ne!(scalar(0.0), scalar(-0.0));
    assert_eq!(scalar(f64::NAN), scalar(f64::NAN));
}

#[test]
fn rect_is_origin_and_extent_as_given() {
    let r = Rect::new(scalar(1.0), scalar(2.0), scalar(30.0), scalar(-4.0));
    assert_eq!(r.origin, Point { x: scalar(1.0), y: scalar(2.0) });
    assert_eq!(r.size, Size { width: scalar(30.0), height: scalar(-4.0) });
    assert_eq!(value(r.origin.x), 1.0);
    assert_eq!(value(r.origin.y), 2.0);
    assert_eq!(value(r.size.width), 30.0);
    assert_eq!(value(r.size.height), -4.0);
}

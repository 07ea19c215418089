use ray_tracer::color::Color;
use ray_tracer::fx::EPSILON;

fn fx(v: f64) -> i64 {
    (v * 100_000_000.0).round() as i64
}

fn near(a: i64, b: i64) -> bool {
    (a - b).abs() < EPSILON
}

#[test]
fn color_init() {
    let c = Color::new(fx(-0.5), fx(0.4), fx(1.7));
    assert!(near(c.red, fx(-0.5)));
    assert!(near(c.green, fx(0.4)));
    assert!(near(c.blue, fx(1.7)));
}

#[test]
fn color_test_addition() {
    let mut c1 = Color::new(fx(0.9), fx(0.6), fx(0.75));
    let c2 = Color::new(fx(0.7), fx(0.1), fx(0.25));
    assert!(c1.add(&c2).approx_eq(&Color::new(fx(1.6), fx(0.7), fx(1.0))));

    c1 = c1.add(&c2);
    assert!(c1.approx_eq(&Color::new(fx(1.6), fx(0.7), fx(1.0))));
}

#[test]
fn color_test_subtraction() {
    let mut c1 = Color::new(fx(0.9), fx(0.6), fx(0.75));
    let c2 = Color::new(fx(0.7), fx(0.1), fx(0.25));
    assert!(c1.sub(&c2).approx_eq(&Color::new(fx(0.2), fx(0.5), fx(0.5))));

    c1 = c1.sub(&c2);
    assert!(c1.approx_eq(&Color::new(fx(0.2), fx(0.5), fx(0.5))));
}

#[test]
fn multiplication() {
    let mut c1 = Color::new(fx(0.2), fx(0.3), fx(0.4));
    assert!(c1.mul_scalar(fx(2.0)).approx_eq(&Color::new(fx(0.4), fx(0.6), fx(0.8))));

    c1 = c1.mul_scalar(fx(2.0));
    assert!(c1.approx_eq(&Color::new(fx(0.4), fx(0.6), fx(0.8))));

    c1 = Color::new(fx(1.0), fx(0.2), fx(0.4));
    let c2 = Color::new(fx(0.9), fx(1.0), fx(0.1));

    assert!(c1.mul_color(&c2).approx_eq(&Color::new(fx(0.9), fx(0.2), fx(0.04))));
    c1 = c1.mul_color(&c2);
    assert!(c1.approx_eq(&Color::new(fx(0.9), fx(0.2), fx(0.04))));
}

#[test]
fn channels_to_int() {
    let c = Color::new(fx(1.5), 0, fx(-0.5));
    assert_eq!(c.red_to_int(), 255);
    assert_eq!(c.green_to_int(), 0);
    assert_eq!(c.blue_to_int(), 0);

    let half = Color::new(0, fx(0.5), fx(0.8));
    assert_eq!(half.red_to_int(), 0);
    assert_eq!(half.green_to_int(), 128);
    assert_eq!(half.blue_to_int(), 204);
}

use ray_tracer::fx::EPSILON;
use ray_tracer::ray::Ray;
use ray_tracer::shape::Shape;
use ray_tracer::tuple::Tuple;

fn fx(v: f64) -> i64 {
    (v * 100_000_000.0).round() as i64
}

fn near(a: i64, b: i64) -> bool {
    (a - b).abs() < EPSILON
}

fn point(x: f64, y: f64, z: f64) -> Tuple {
    Tuple::point(fx(x), fx(y), fx(z))
}

fn vector(x: f64, y: f64, z: f64) -> Tuple {
    Tuple::vector(fx(x), fx(y), fx(z))
}

#[test]
fn constant_normal() {
    let p = Shape::plane();
    let n = p.normal_at(point(0.0, 0.0, 0.0));
    let n2 = p.normal_at(point(10.0, 0.0, -10.0));
    let n3 = p.normal_at(point(-5.0, 0.0, 150.0));

    assert!(n.approx_eq(&vector(0.0, 1.0, 0.0)));
    assert!(n2.approx_eq(&vector(0.0, 1.0, 0.0)));
    assert!(n3.approx_eq(&vector(0.0, 1.0, 0.0)));
}

#[test]
fn intersect() {
    let mut p = Shape::plane();
    p.set_id(0);
    let r = Ray::new(point(0.0, 10.0, 0.0), vector(0.0, 0.0, 1.0));
    let xs = p.intersect(&r).unwrap();
    assert_eq!(xs.len(), 0);

    let r2 = Ray::new(point(0.0, 0.0, 0.0), vector(0.0, 0.0, 1.0));
    let xs2 = p.intersect(&r2).unwrap();
    assert_eq!(xs2.len(), 0);

    let r3 = Ray::new(point(0.0, 1.0, 0.0), vector(0.0, -1.0, 0.0));
    let xs3 = p.intersect(&r3).unwrap();
    assert_eq!(xs3.len(), 1);
    assert!(near(xs3[0].t, fx(1.0)));

    let r4 = Ray::new(point(0.0, -1.0, 0.0), vector(0.0, 1.0, 0.0));
    let xs4 = p.intersect(&r4).unwrap();
    assert_eq!(xs4.len(), 1);
    assert!(near(xs4[0].t, fx(1.0)));
}

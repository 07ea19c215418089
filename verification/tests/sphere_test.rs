use std::f64::consts::{FRAC_1_SQRT_2, PI};

use ray_tracer::fx::EPSILON;
use ray_tracer::material::Material;
use ray_tracer::ray::Ray;
use ray_tracer::shape::Shape;
use ray_tracer::transform::Transform;
use ray_tracer::tuple::Tuple;

fn fx(v: f64) -> i64 {
    (v * 100_000_000.0).round() as i64
}

fn near(a: i64, b: i64) -> bool {
    (a - b).abs() < EPSILON
}

fn point(x: f64, y: f64, z: f64) -> Tuple {
    Tuple::point(fx(x), fx(y), fx(z))
}

fn vector(x: f64, y: f64, z: f64) -> Tuple {
    Tuple::vector(fx(x), fx(y), fx(z))
}

#[test]
fn sphere_test_init() {
    let s = Shape::sphere();
    assert!(s.transform().approx_eq(&Transform::new()));
}

#[test]
fn intersect_scaled_sphere() {
    let r = Ray::new(point(0.0, 0.0, -5.0), vector(0.0, 0.0, 1.0));
    let mut s = Shape::sphere();
    s.set_id(0);
    s.scale(fx(2.0), fx(2.0), fx(2.0));
    let xs = s.intersect(&r).unwrap();
    assert_eq!(xs.len(), 2);
    assert!(near(xs[0].t, fx(3.0)));
    assert!(near(xs[1].t, fx(7.0)));
}

#[test]
fn intersect_translated_sphere() {
    let r = Ray::new(point(0.0, 0.0, -5.0), vector(0.0, 0.0, 1.0));
    let mut s = Shape::sphere();
    s.translate(fx(5.0), 0, 0);
    let xs = s.intersect(&r);
    assert!(xs.is_none());
}

#[test]
fn normal_at() {
    let s = Shape::sphere();
    let mut n = s.normal_at(point(1.0, 0.0, 0.0));
    assert!(n.approx_eq(&vector(1.0, 0.0, 0.0)));

    n = s.normal_at(point(0.0, 1.0, 0.0));
    assert!(n.approx_eq(&vector(0.0, 1.0, 0.0)));

    n = s.normal_at(point(0.0, 0.0, 1.0));
    assert!(n.approx_eq(&vector(0.0, 0.0, 1.0)));

    n = s.normal_at(point(3_f64.sqrt() / 3.0, 3_f64.sqrt() / 3.0, 3_f64.sqrt() / 3.0));
    assert!(n.approx_eq(&vector(3_f64.sqrt() / 3.0, 3_f64.sqrt() / 3.0, 3_f64.sqrt() / 3.0)));
}

#[test]
fn normals_are_normalized() {
    let s = Shape::sphere();
    let n = s.normal_at(point(3_f64.sqrt() / 3.0, 3_f64.sqrt() / 3.0, 3_f64.sqrt() / 3.0));
    assert!(n.approx_eq(&n.normalize()));
}

#[test]
fn normal_after_transform() {
    let mut s = Shape::sphere();
    s.translate(0, fx(1.0), 0);
    let mut n = s.normal_at(point(0.0, FRAC_1_SQRT_2 + 1.0, -FRAC_1_SQRT_2));
    assert!(n.approx_eq(&vector(0.0, FRAC_1_SQRT_2, -FRAC_1_SQRT_2)));

    s = Shape::sphere();
    let fifth = PI / 5.0;
    s.rotate_z(fx(fifth.sin()), fx(fifth.cos()));
    s.scale(fx(1.0), fx(0.5), fx(1.0));

    n = s.normal_at(point(0.0, 2_f64.sqrt() / 2.0, -(2_f64.sqrt()) / 2.0));
    assert!(n.approx_eq(&vector(0.0, 0.97014250, -0.24253563)));
}

#[test]
fn sphere_material() {
    let mut s = Shape::sphere();
    let m = s.material();
    let fresh = Material::new();
    assert!(m.color.approx_eq(&fresh.color));
    assert_eq!(m.ambient, fresh.ambient);
    assert_eq!(m.diffuse, fresh.diffuse);
    assert_eq!(m.specular, fresh.specular);
    assert_eq!(m.shininess, fresh.shininess);
    assert!(m.pattern.is_none());

    s.set_ambient(fx(1.0));
    assert_eq!(s.material().ambient, fx(1.0));
    assert_eq!(s.material().diffuse, fresh.diffuse);
}

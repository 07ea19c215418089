use std::f64::consts::PI;

use ray_tracer::camera::Camera;
use ray_tracer::color::Color;
use ray_tracer::fx::EPSILON;
use ray_tracer::transform::Transform;
use ray_tracer::tuple::Tuple;
use ray_tracer::world::World;

fn fx(v: f64) -> i64 {
    (v * 100_000_000.0).round() as i64
}

fn near(a: i64, b: i64) -> bool {
    (a - b).abs() < EPSILON
}

fn point(x: f64, y: f64, z: f64) -> Tuple {
    Tuple::point(fx(x), fx(y), fx(z))
}

fn vector(x: f64, y: f64, z: f64) -> Tuple {
    Tuple::vector(fx(x), fx(y), fx(z))
}

#[test]
fn camera_test_init() {
    let hsize = fx(160.0);
    let vsize = fx(120.0);
    let half_view = fx((PI / 4.0).tan());
    let c = Camera::new(hsize, vsize, half_view);
    assert!(near(c.hsize, fx(160.0)));
    assert!(near(c.vsize, fx(120.0)));
    assert!(near(c.half_view, fx(1.0)));
    assert!(c.transform.approx_eq(&Transform::new()));
}

#[test]
fn pixel_size() {
    let c = Camera::new(fx(200.0), fx(125.0), fx((PI / 4.0).tan()));
    assert!(near(c.pixel_size, fx(0.01)));

    let c2 = Camera::new(fx(125.0), fx(200.0), fx((PI / 4.0).tan()));
    assert!(near(c2.pixel_size, fx(0.01)));
}

#[test]
fn ray_construction() {
    let mut c = Camera::new(fx(201.0), fx(101.0), fx((PI / 4.0).tan()));
    let through_center = c.ray_for_pixel(fx(100.0), fx(50.0));
    assert!(through_center.origin.approx_eq(&point(0.0, 0.0, 0.0)));
    assert!(through_center.direction.approx_eq(&vector(0.0, 0.0, -1.0)));

    let through_corner = c.ray_for_pixel(0, 0);
    assert!(through_corner.origin.approx_eq(&point(0.0, 0.0, 0.0)));
    assert!(through_corner.direction.approx_eq(&vector(0.66519, 0.33259, -0.66851)));

    c.transform = c.transform.translate(0, fx(-2.0), fx(5.0));
    let quarter = PI / 4.0;
    c.transform = c.transform.rotate_y(fx(quarter.sin()), fx(quarter.cos()));
    let after_transform = c.ray_for_pixel(fx(100.0), fx(50.0));
    assert!(after_transform.origin.approx_eq(&point(0.0, 2.0, -5.0)));
    assert!(
        after_transform.direction.approx_eq(
            &vector(2_f64.sqrt() / 2.0, 0.0, -(2_f64.sqrt()) / 2.0),
        )
    );
}

#[test]
fn render() {
    let w = World::default_world();
    let mut c = Camera::new(fx(11.0), fx(11.0), fx((PI / 4.0).tan()));
    let from = point(0.0, 0.0, -5.0);
    let to = point(0.0, 0.0, 0.0);
    let up = vector(0.0, 1.0, 0.0);
    c.transform = Transform::view_transform(&from, &to, &up);
    let image = c.render(&w);
    assert!(
        image.pixel_at(5, 5).approx_eq(&Color::new(fx(0.38066), fx(0.47583), fx(0.28550)))
    );
}

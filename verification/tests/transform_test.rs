use std::f64::consts::PI;

use ray_tracer::matrix::Matrix;
use ray_tracer::ray::Ray;
use ray_tracer::transform::Transform;
use ray_tracer::tuple::Tuple;

fn fx(v: f64) -> i64 {
    (v * 100_000_000.0).round() as i64
}

fn point(x: f64, y: f64, z: f64) -> Tuple {
    Tuple::point(fx(x), fx(y), fx(z))
}

fn vector(x: f64, y: f64, z: f64) -> Tuple {
    Tuple::vector(fx(x), fx(y), fx(z))
}

#[test]
fn multiply_by_translation() {
    let p = point(-3.0, 4.0, 5.0);
    let mut t = Transform::new();
    t = t.translate(fx(5.0), fx(-3.0), fx(2.0));
    assert!(t.transform(&p).approx_eq(&point(2.0, 1.0, 7.0)));
    t = t.inverse();
    assert!(t.transform(&p).approx_eq(&point(-8.0, 7.0, 3.0)));
}

#[test]
fn translate_vector() {
    let v = vector(-3.0, 4.0, 5.0);
    assert!(Transform::new().translate(fx(5.0), fx(-3.0), fx(2.0)).transform(&v).approx_eq(&v));
}

#[test]
fn scale_point() {
    let p = point(-4.0, 6.0, 8.0);
    assert!(
        Transform::new().scale(fx(2.0), fx(3.0), fx(4.0)).transform(&p).approx_eq(
            &point(-8.0, 18.0, 32.0),
        )
    );
}

#[test]
fn scale_vector() {
    let v = vector(-4.0, 6.0, 8.0);
    assert!(
        Transform::new().scale(fx(2.0), fx(3.0), fx(4.0)).transform(&v).approx_eq(
            &vector(-8.0, 18.0, 32.0),
        )
    );
}

#[test]
fn scale_inverse() {
    let v = vector(-4.0, 6.0, 8.0);
    assert!(
        Transform::new().scale(fx(2.0), fx(3.0), fx(4.0)).inverse().transform(&v).approx_eq(
            &vector(-2.0, 2.0, 2.0),
        )
    );
}

#[test]
fn transform_test_reflection() {
    let p = point(2.0, 3.0, 4.0);
    assert!(
        Transform::new().scale(fx(-1.0), fx(1.0), fx(1.0)).transform(&p).approx_eq(
            &point(-2.0, 3.0, 4.0),
        )
    );
}

#[test]
fn rotate_x() {
    let p = point(0.0, 1.0, 0.0);
    let quarter = PI / 4.0;
    assert!(
        Transform::new().rotate_x(fx(quarter.sin()), fx(quarter.cos())).transform(&p).approx_eq(
            &point(0.0, 2_f64.sqrt() / 2.0, 2_f64.sqrt() / 2.0),
        )
    );
    let half = PI / 2.0;
    assert!(
        Transform::new().rotate_x(fx(half.sin()), fx(half.cos())).transform(&p).approx_eq(
            &point(0.0, 0.0, 1.0),
        )
    );
}

#[test]
fn inverse_rotate_x() {
    let p = point(0.0, 1.0, 0.0);
    let quarter = PI / 4.0;
    assert!(
        Transform::new()
            .rotate_x(fx(quarter.sin()), fx(quarter.cos()))
            .inverse()
            .transform(&p)
            .approx_eq(&point(0.0, 2_f64.sqrt() / 2.0, -(2_f64.sqrt() / 2.0)))
    );
}

#[test]
fn rotate_y() {
    let p = point(0.0, 0.0, 1.0);
    let quarter = PI / 4.0;
    assert!(
        Transform::new().rotate_y(fx(quarter.sin()), fx(quarter.cos())).transform(&p).approx_eq(
            &point(2_f64.sqrt() / 2.0, 0.0, 2_f64.sqrt() / 2.0),
        )
    );
    let half = PI / 2.0;
    assert!(
        Transform::new().rotate_y(fx(half.sin()), fx(half.cos())).transform(&p).approx_eq(
            &point(1.0, 0.0, 0.0),
        )
    );
}

#[test]
fn rotate_z() {
    let p = point(0.0, 1.0, 0.0);
    let quarter = PI / 4.0;
    assert!(
        Transform::new().rotate_z(fx(quarter.sin()), fx(quarter.cos())).transform(&p).approx_eq(
            &point(-(2_f64.sqrt() / 2.0), 2_f64.sqrt() / 2.0, 0.0),
        )
    );
    let half = PI / 2.0;
    assert!(
        Transform::new().rotate_z(fx(half.sin()), fx(half.cos())).transform(&p).approx_eq(
            &point(-1.0, 0.0, 0.0),
        )
    );
}

#[test]
fn shear() {
    let p = point(2.0, 3.0, 4.0);

    assert!(
        Transform::new().shear(fx(1.0), 0, 0, 0, 0, 0).transform(&p).approx_eq(
            &point(5.0, 3.0, 4.0),
        )
    );
    assert!(
        Transform::new().shear(0, fx(1.0), 0, 0, 0, 0).transform(&p).approx_eq(
            &point(6.0, 3.0, 4.0),
        )
    );
    assert!(
        Transform::new().shear(0, 0, fx(1.0), 0, 0, 0).transform(&p).approx_eq(
            &point(2.0, 5.0, 4.0),
        )
    );
    assert!(
        Transform::new().shear(0, 0, 0, fx(1.0), 0, 0).transform(&p).approx_eq(
            &point(2.0, 7.0, 4.0),
        )
    );
    assert!(
        Transform::new().shear(0, 0, 0, 0, fx(1.0), 0).transform(&p).approx_eq(
            &point(2.0, 3.0, 6.0),
        )
    );
    assert!(
        Transform::new().shear(0, 0, 0, 0, 0, fx(1.0)).transform(&p).approx_eq(
            &point(2.0, 3.0, 7.0),
        )
    );
}

#[test]
fn transforms_in_sequence() {
    let p = point(1.0, 0.0, 1.0);
    let half = PI / 2.0;
    let p2 = Transform::new().rotate_x(fx(half.sin()), fx(half.cos())).transform(&p);
    assert!(p2.approx_eq(&point(1.0, -1.0, 0.0)));
    let p3 = Transform::new().scale(fx(5.0), fx(5.0), fx(5.0)).transform(&p2);
    assert!(p3.approx_eq(&point(5.0, -5.0, 0.0)));
    let p4 = Transform::new().translate(fx(10.0), fx(5.0), fx(7.0)).transform(&p3);
    assert!(p4.approx_eq(&point(15.0, 0.0, 7.0)));
}

#[test]
fn builder() {
    let p = point(1.0, 0.0, 1.0);
    let half = PI / 2.0;
    assert!(
        Transform::new()
            .rotate_x(fx(half.sin()), fx(half.cos()))
            .scale(fx(5.0), fx(5.0), fx(5.0))
            .translate(fx(10.0), fx(5.0), fx(7.0))
            .transform(&p)
            .approx_eq(&point(15.0, 0.0, 7.0))
    );
}

#[test]
fn transform_ray() {
    let r = Ray::new(point(1.0, 2.0, 3.0), vector(0.0, 1.0, 0.0));
    let r2 = Transform::new().translate(fx(3.0), fx(4.0), fx(5.0)).transform_ray(&r);
    assert!(r2.origin.approx_eq(&point(4.0, 6.0, 8.0)));
    assert!(r2.direction.approx_eq(&vector(0.0, 1.0, 0.0)));

    let r3 = Transform::new().scale(fx(2.0), fx(3.0), fx(4.0)).transform_ray(&r);
    assert!(r3.origin.approx_eq(&point(2.0, 6.0, 12.0)));
    assert!(r3.direction.approx_eq(&vector(0.0, 3.0, 0.0)));
}

#[test]
fn view_transform() {
    let mut from = point(0.0, 0.0, 0.0);
    let mut to = point(0.0, 0.0, -1.0);
    let mut up = vector(0.0, 1.0, 0.0);

    let mut t = Transform::view_transform(&from, &to, &up);
    assert!(t.approx_eq(&Transform::new()));

    to = point(0.0, 0.0, 1.0);
    t = Transform::view_transform(&from, &to, &up);
    assert!(t.approx_eq(&Transform::new().scale(fx(-1.0), fx(1.0), fx(-1.0))));

    from = point(0.0, 0.0, 8.0);
    to = point(0.0, 0.0, 0.0);
    up = vector(0.0, 1.0, 0.0);
    t = Transform::view_transform(&from, &to, &up);
    assert!(t.approx_eq(&Transform::new().translate(0, 0, fx(-8.0))));

    from = point(1.0, 3.0, 2.0);
    to = point(4.0, -2.0, 8.0);
    up = vector(1.0, 1.0, 0.0);
    t = Transform::view_transform(&from, &to, &up);

    let expected = Matrix::new(vec![
        vec![fx(-0.50709), fx(0.50709), fx(0.67612), fx(-2.36643)],
        vec![fx(0.76772), fx(0.60609), fx(0.12122), fx(-2.82843)],
        vec![fx(-0.35857), fx(0.59761), fx(-0.71714), 0],
        vec![0, 0, 0, fx(1.0)],
    ]);
    assert!(t.matrix.approx_eq(&expected));
}

#[test]
fn transform_round_trip() {
    let quarter = PI / 4.0;
    let t = Transform::new()
        .rotate_x(fx(quarter.sin()), fx(quarter.cos()))
        .scale(fx(2.0), fx(0.5), fx(4.0))
        .translate(fx(-3.5), fx(1.25), fx(7.0));
    let points = [
        point(1.0, 2.0, 3.0),
        point(-4.5, 0.25, 9.0),
        point(0.0, 0.0, 0.0),
        vector(1.0, -1.0, 2.0),
    ];
    for p in points.iter() {
        let forward = t.transform(p);
        let back = t.inverse().transform(&forward);
        assert!(back.approx_eq(p));
    }
}

#[test]
fn inverse_times_matrix() {
    let t = Transform::new().translate(fx(5.0), fx(-3.0), fx(2.0)).scale(
        fx(2.0),
        fx(2.0),
        fx(2.0),
    );
    let product = t.matrix.matrix_multiply(&t.matrix.inverse());
    assert!(product.approx_eq(&Matrix::identity_matrix()));
}

use ray_tracer::color::Color;
use ray_tracer::fx::EPSILON;
use ray_tracer::material::Material;
use ray_tracer::point_light::PointLight;
use ray_tracer::shape::Shape;
use ray_tracer::tuple::Tuple;

fn fx(v: f64) -> i64 {
    (v * 100_000_000.0).round() as i64
}

fn near(a: i64, b: i64) -> bool {
    (a - b).abs() < EPSILON
}

fn point(x: f64, y: f64, z: f64) -> Tuple {
    Tuple::point(fx(x), fx(y), fx(z))
}

fn vector(x: f64, y: f64, z: f64) -> Tuple {
    Tuple::vector(fx(x), fx(y), fx(z))
}

fn color(r: f64, g: f64, b: f64) -> Color {
    Color::new(fx(r), fx(g), fx(b))
}

#[test]
fn light_init() {
    let intensity = color(1.0, 1.0, 1.0);
    let position = point(0.0, 0.0, 0.0);
    let light = PointLight::new(position, intensity);
    assert!(light.position.approx_eq(&position));
    assert!(light.intensity.approx_eq(&intensity));
}

#[test]
fn material_init() {
    let m = Material::new();
    assert!(m.color.approx_eq(&color(1.0, 1.0, 1.0)));
    assert!(near(m.ambient, fx(0.1)));
    assert!(near(m.diffuse, fx(0.9)));
    assert!(near(m.specular, fx(0.9)));
    assert!(near(m.shininess, fx(200.0)));
}

#[test]
fn lighting() {
    let m = Material::new();
    let position = point(0.0, 0.0, 0.0);
    let object = Shape::sphere();

    let mut eye = vector(0.0, 0.0, -1.0);
    let normal = vector(0.0, 0.0, -1.0);
    let mut light = PointLight::new(point(0.0, 0.0, -10.0), color(1.0, 1.0, 1.0));
    let mut result = m.lighting(&light, &object, position, eye, normal, false);
    assert!(result.approx_eq(&color(1.9, 1.9, 1.9)));

    eye = vector(0.0, 2_f64.sqrt() / 2.0, -(2_f64.sqrt()) / 2.0);
    result = m.lighting(&light, &object, position, eye, normal, false);
    assert!(result.approx_eq(&color(1.0, 1.0, 1.0)));

    eye = vector(0.0, 0.0, -1.0);
    light = PointLight::new(point(0.0, 10.0, -10.0), color(1.0, 1.0, 1.0));
    result = m.lighting(&light, &object, position, eye, normal, false);
    assert!(result.approx_eq(&color(0.7363961, 0.7363961, 0.7363961)));

    eye = vector(0.0, -(2_f64.sqrt()) / 2.0, -(2_f64.sqrt()) / 2.0);
    result = m.lighting(&light, &object, position, eye, normal, false);
    assert!(result.approx_eq(&color(1.6363961, 1.6363961, 1.6363961)));

    eye = vector(0.0, 0.0, -1.0);
    light = PointLight::new(point(0.0, 0.0, 10.0), color(1.0, 1.0, 1.0));
    result = m.lighting(&light, &object, position, eye, normal, false);
    assert!(result.approx_eq(&color(0.1, 0.1, 0.1)));
}

#[test]
fn lighting_in_shadow() {
    let m = Material::new();
    let object = Shape::sphere();
    let position = point(0.0, 0.0, 0.0);
    let eyev = vector(0.0, 0.0, -1.0);
    let normalv = vector(0.0, 0.0, -1.0);
    let light = PointLight::new(point(0.0, 0.0, -10.0), color(1.0, 1.0, 1.0));
    let result = m.lighting(&light, &object, position, eyev, normalv, true);
    assert!(result.approx_eq(&color(0.1, 0.1, 0.1)));
}

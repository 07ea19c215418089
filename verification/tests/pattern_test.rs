use ray_tracer::color::Color;
use ray_tracer::material::Material;
use ray_tracer::pattern::Pattern;
use ray_tracer::point_light::PointLight;
use ray_tracer::shape::Shape;
use ray_tracer::tuple::Tuple;

fn fx(v: f64) -> i64 {
    (v * 100_000_000.0).round() as i64
}

fn point(x: f64, y: f64, z: f64) -> Tuple {
    Tuple::point(fx(x), fx(y), fx(z))
}

fn white() -> Color {
    Color::white()
}

fn black() -> Color {
    Color::black()
}

#[test]
fn constant_in_y() {
    let pattern = Pattern::stripes(white(), black());
    assert!(pattern.color_at(point(0.0, 0.0, 0.0)).approx_eq(&white()));
    assert!(pattern.color_at(point(0.0, 1.0, 0.0)).approx_eq(&white()));
    assert!(pattern.color_at(point(0.0, 2.0, 0.0)).approx_eq(&white()));
}

#[test]
fn constant_in_z() {
    let pattern = Pattern::stripes(white(), black());
    assert!(pattern.color_at(point(0.0, 0.0, 0.0)).approx_eq(&white()));
    assert!(pattern.color_at(point(0.0, 0.0, 1.0)).approx_eq(&white()));
    assert!(pattern.color_at(point(0.0, 0.0, 2.0)).approx_eq(&white()));
}

#[test]
fn alternates_in_x() {
    let pattern = Pattern::stripes(white(), black());
    assert!(pattern.color_at(point(0.0, 0.0, 0.0)).approx_eq(&white()));
    assert!(pattern.color_at(point(0.9, 0.0, 0.0)).approx_eq(&white()));
    assert!(pattern.color_at(point(1.0, 0.0, 0.0)).approx_eq(&black()));
    assert!(pattern.color_at(point(-0.1, 0.0, 0.0)).approx_eq(&black()));
    assert!(pattern.color_at(point(-1.0, 0.0, 0.0)).approx_eq(&black()));
    assert!(pattern.color_at(point(-1.1, 0.0, 0.0)).approx_eq(&white()));
}

#[test]
fn lighting_with_pattern() {
    let mut m = Material::new();
    let pattern = Pattern::stripes(white(), black());
    let object = Shape::sphere();
    m.ambient = fx(1.0);
    m.diffuse = 0;
    m.specular = 0;
    m.set_pattern(&pattern);
    let eyev = Tuple::vector(0, 0, fx(-1.0));
    let normalv = Tuple::vector(0, 0, fx(-1.0));
    let light = PointLight::new(point(0.0, 0.0, -10.0), white());
    let c1 = m.lighting(&light, &object, point(0.9, 0.0, 0.0), eyev, normalv, false);
    let c2 = m.lighting(&light, &object, point(1.1, 0.0, 0.0), eyev, normalv, false);
    assert!(c1.approx_eq(&white()));
    assert!(c2.approx_eq(&black()));
}

#[test]
fn stripes_with_object_transform() {
    let mut object = Shape::sphere();
    object.scale(fx(2.0), fx(2.0), fx(2.0));
    let pattern = Pattern::stripes(white(), black());
    let c = pattern.color_at_object(&object, point(1.5, 0.0, 0.0));
    assert!(c.approx_eq(&white()));
}

#[test]
fn stripes_with_pattern_transform() {
    let object = Shape::sphere();
    let mut pattern = Pattern::stripes(white(), black());
    pattern.scale(fx(2.0), fx(2.0), fx(2.0));
    let c = pattern.color_at_object(&object, point(1.5, 0.0, 0.0));
    assert!(c.approx_eq(&white()));
}

#[test]
fn stripes_with_both_transforms() {
    let mut object = Shape::sphere();
    object.scale(fx(2.0), fx(2.0), fx(2.0));
    let mut pattern = Pattern::stripes(white(), black());
    pattern.scale(fx(2.0), fx(2.0), fx(2.0));
    let c = pattern.color_at_object(&object, point(1.5, 0.0, 0.0));
    assert!(c.approx_eq(&white()));
}

#[test]
fn gradients() {
    let pattern = Pattern::gradient(white(), black());
    assert!(pattern.color_at(point(0.0, 0.0, 0.0)).approx_eq(&white()));
    assert!(
        pattern.color_at(point(0.25, 0.0, 0.0)).approx_eq(
            &Color::new(fx(0.75), fx(0.75), fx(0.75)),
        )
    );
    assert!(
        pattern.color_at(point(0.5, 0.0, 0.0)).approx_eq(&Color::new(fx(0.5), fx(0.5), fx(0.5)))
    );
    assert!(
        pattern.color_at(point(0.75, 0.0, 0.0)).approx_eq(
            &Color::new(fx(0.25), fx(0.25), fx(0.25)),
        )
    );
}

#[test]
fn rings() {
    let pattern = Pattern::rings(white(), black());
    assert!(pattern.color_at(point(0.0, 0.0, 0.0)).approx_eq(&white()));
    assert!(pattern.color_at(point(1.0, 0.0, 0.0)).approx_eq(&black()));
    assert!(pattern.color_at(point(0.0, 0.0, 1.0)).approx_eq(&black()));
    assert!(pattern.color_at(point(0.708, 0.0, 0.708)).approx_eq(&black()));
}

#[test]
fn checkered() {
    let pattern = Pattern::checkered(white(), black());
    assert!(pattern.color_at(point(0.0, 0.0, 0.0)).approx_eq(&white()));
    assert!(pattern.color_at(point(0.99, 0.0, 0.0)).approx_eq(&white()));
    assert!(pattern.color_at(point(1.01, 0.0, 0.0)).approx_eq(&black()));

    assert!(pattern.color_at(point(0.0, 0.0, 0.0)).approx_eq(&white()));
    assert!(pattern.color_at(point(0.0, 0.99, 0.0)).approx_eq(&white()));
    assert!(pattern.color_at(point(0.0, 1.01, 0.0)).approx_eq(&black()));

    assert!(pattern.color_at(point(0.0, 0.0, 0.0)).approx_eq(&white()));
    assert!(pattern.color_at(point(0.0, 0.0, 0.99)).approx_eq(&white()));
    assert!(pattern.color_at(point(0.0, 0.0, 1.01)).approx_eq(&black()));
}

#[test]
fn checkered_at_whole_unit_boundaries() {
    let pattern = Pattern::checkered(white(), black());
    let samples = [0.5, -0.5, 2.5, -1.5];
    for base in samples.iter() {
        let c0 = pattern.color_at(point(*base, 0.0, 0.0));
        let c1 = pattern.color_at(point(*base + 1.0, 0.0, 0.0));
        let c2 = pattern.color_at(point(0.0, *base + 1.0, 0.0));
        let c3 = pattern.color_at(point(0.0, 0.0, *base + 1.0));
        let c0y = pattern.color_at(point(0.0, *base, 0.0));
        let c0z = pattern.color_at(point(0.0, 0.0, *base));
        assert!(c0.approx_eq(&white()) == c1.approx_eq(&black()));
        assert!(c0y.approx_eq(&white()) == c2.approx_eq(&black()));
        assert!(c0z.approx_eq(&white()) == c3.approx_eq(&black()));
    }
}

#[test]
fn test_pattern() {
    let mut test = Pattern::test_pattern();
    let mut shape = Shape::sphere();
    shape.scale(fx(2.0), fx(2.0), fx(2.0));
    test.translate(fx(0.5), fx(1.0), fx(1.5));
    shape.set_pattern(&test);
    let c = test.color_at_object(&shape, point(2.5, 3.0, 3.5));
    assert!(c.approx_eq(&Color::new(fx(0.75), fx(0.5), fx(0.25))));
}

use ray_tracer::canvas::Canvas;
use ray_tracer::color::Color;
use ray_tracer::fx::FX_ONE;

#[test]
fn canvas_test_init() {
    let width = 10;
    let height = 20;

    let c = Canvas::new(width, height);

    for n in 0..height {
        for m in 0..width {
            assert!(c.pixel_at(m, n).approx_eq(&Color::new(0, 0, 0)));
        }
    }
}

#[test]
fn write_pixel() {
    let mut c = Canvas::new(10, 20);
    let red = Color::new(FX_ONE, 0, 0);
    c.write_pixel(2, 3, red);
    assert!(c.pixel_at(2, 3).approx_eq(&red));
}

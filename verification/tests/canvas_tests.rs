use raytrace::canvas::Canvas;
use raytrace::ray_tracer::color::Color;
use raytrace::ray_tracer::scalar::Scalar;

fn s(x: f64) -> Scalar {
    Scalar::from_bits(x.to_bits())
}

fn color(r: f64, g: f64, b: f64) -> Color {
    Color::new(s(r), s(g), s(b))
}

#[test]
fn test_creating_a_canvas() {
    let c = Canvas::new(10, 20);

    assert_eq!(c.width, 10);
    assert_eq!(c.height, 20);
}

#[test]
fn test_writing_pixels_to_a_canvas() {
    let mut c = Canvas::new(10, 20);
    let red = color(1.0, 0.0, 0.0);

    c.put_pixel(2, 3, &red);

    assert_eq!(c.pixel_at(2, 3), red);
}

#[test]
fn test_a_new_canvas_is_white() {
    let c = Canvas::new(4, 6);

    assert_eq!(c.pixels.len(), 24);
    let mut y = -3;
    while y < 3 {
        let mut x = -2;
        while x < 2 {
            assert_eq!(c.pixel_at(x, y).as_u8_array(), [255, 255, 255, 255]);
            x += 1;
        }
        y += 1;
    }
}

#[test]
fn test_an_empty_canvas_draws_nothing() {
    assert_eq!(Canvas::new(0, 0).draw().len(), 0);
    assert_eq!(Canvas::new(0, 7).draw().len(), 0);
    assert_eq!(Canvas::new(7, 0).draw().len(), 0);
}

#[test]
fn test_the_origin_is_the_middle_pixel() {
    let mut c = Canvas::new(4, 6);
    let red = color(1.0, 0.0, 0.0);

    c.put_pixel(0, 0, &red);

    // Row 3 of 6, column 2 of 4.
    assert_eq!(c.pixels[3 * 4 + 2], red);
    let image = c.draw();
    assert_eq!(image.len(), 4 * 6 * 4);
    assert_eq!(&image[4 * 14..4 * 15], &[255, 0, 0, 255]);
    assert_eq!(&image[4 * 13..4 * 14], &[255, 255, 255, 255]);
}

#[test]
fn test_the_corners_of_the_canvas() {
    let mut c = Canvas::new(4, 6);
    let green = color(0.0, 1.0, 0.0);
    let blue = color(0.0, 0.0, 1.0);

    c.put_pixel(-2, -3, &green);
    c.put_pixel(1, 2, &blue);

    assert_eq!(c.pixels[0], green);
    assert_eq!(c.pixels[23], blue);
    let image = c.draw();
    assert_eq!(&image[0..4], &[0, 255, 0, 255]);
    assert_eq!(&image[92..96], &[0, 0, 255, 255]);
}

#[test]
fn test_writing_one_pixel_leaves_the_others() {
    let mut c = Canvas::new(3, 3);
    let red = color(1.0, 0.0, 0.0);

    c.put_pixel(1, -1, &red);

    let mut i = 0;
    while i < 9 {
        if i == 2 {
            assert_eq!(c.pixels[i], red);
        } else {
            assert_eq!(c.pixels[i], Color::white());
        }
        i += 1;
    }
}

#[test]
fn test_drawing_clamps_each_channel() {
    let mut c = Canvas::new(2, 2);
    let mut odd = color(1.5, -0.5, 0.5);
    odd.a = 9;

    c.put_pixel(-1, -1, &odd);

    let image = c.draw();
    assert_eq!(&image[0..4], &[255, 0, 127, 9]);
    // What the canvas holds is the color as it was written.
    assert_eq!(c.pixel_at(-1, -1).r.to_bits(), 1.5f64.to_bits());
}

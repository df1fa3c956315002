use trtc::canvas::Canvas;
use trtc::color::Color;

#[test]
fn test_canvas_create() {
    let canvas = Canvas::new(10, 20);

    assert_eq!(canvas.width(), 10);
    assert_eq!(canvas.height(), 20);
    assert_eq!(canvas.len(), 200);
    let black = Color::black();
    for y in 0..20 {
        for x in 0..10 {
            assert_eq!(canvas.pixel_at(x, y), black);
        }
    }
}

#[test]
fn test_canvas_write() {
    let mut canvas = Canvas::new(10, 20);
    let red = Color::red();
    canvas.write_pixel(2, 3, red);

    let pixel = canvas.pixel_at(2, 3);
    assert_eq!(pixel, red);
}

#[test]
fn calc_index_is_row_major() {
    let canvas = Canvas::new(10, 20);
    assert_eq!(canvas.calc_index(2, 3), 32);
    assert_eq!(canvas.calc_index(0, 0), 0);
    assert_eq!(canvas.calc_index(9, 0), 9);
    assert_eq!(canvas.calc_index(0, 1), 10);
    assert_eq!(canvas.calc_index(9, 19), 199);
}

#[test]
fn size_is_width_times_height() {
    assert_eq!(Canvas::new(10, 20).size(), 200);
    assert_eq!(Canvas::new(1, 1).size(), 1);
    assert_eq!(Canvas::new(3, 7).size(), 21);
}

#[test]
fn zero_dimension_holds_no_pixel() {
    let canvas = Canvas::new(0, 20);
    assert_eq!(canvas.len(), 0);
    assert!(!canvas.in_bounds(0, 0));
    assert_eq!(canvas.size(), 0);
    let canvas = Canvas::new(10, 0);
    assert_eq!(canvas.len(), 0);
    assert!(!canvas.in_bounds(0, 0));
    assert_eq!(canvas.size(), 0);
}

#[test]
fn in_bounds_is_strict_on_both_axes() {
    let canvas = Canvas::new(10, 20);
    assert!(canvas.in_bounds(0, 0));
    assert!(canvas.in_bounds(9, 19));
    assert!(!canvas.in_bounds(10, 0));
    assert!(!canvas.in_bounds(0, 20));
    assert!(!canvas.in_bounds(10, 20));
}

#[test]
fn write_changes_one_cell_only() {
    let mut canvas = Canvas::new(4, 3);
    let red = Color::red();
    let other = Color::new(0.5f32.to_bits(), 2.0f32.to_bits(), (-1.0f32).to_bits());
    canvas.write_pixel(1, 2, red);
    canvas.write_pixel(3, 0, other);
    for y in 0..3 {
        for x in 0..4 {
            let expected = if (x, y) == (1, 2) {
                red
            } else if (x, y) == (3, 0) {
                other
            } else {
                Color::black()
            };
            assert_eq!(canvas.pixel_at(x, y), expected);
        }
    }
    assert_eq!(canvas.pixel_at(3, 0).green, 2.0f32.to_bits());
    canvas.write_pixel(1, 2, other);
    assert_eq!(canvas.pixel_at(1, 2), other);
    assert_eq!(canvas.len(), 12);
}

#[test]
fn clone_copies_every_cell() {
    let mut canvas = Canvas::new(3, 2);
    canvas.write_pixel(2, 1, Color::red());
    let copy = canvas.clone();
    canvas.write_pixel(0, 0, Color::red());
    assert_eq!(copy.width(), 3);
    assert_eq!(copy.height(), 2);
    assert_eq!(copy.pixel_at(2, 1), Color::red());
    assert_eq!(copy.pixel_at(0, 0), Color::black());
    assert_eq!(canvas.pixel_at(0, 0), Color::red());
}

#[test]
fn checked_access_rejects_coordinates_outside() {
    let mut canvas = Canvas::new(10, 20);
    let red = Color::red();
    assert!(canvas.checked_write_pixel(2, 3, red));
    assert_eq!(canvas.checked_pixel_at(2, 3), Some(red));
    assert_eq!(canvas.checked_pixel_at(3, 2), Some(Color::black()));
    assert!(!canvas.checked_write_pixel(10, 3, red));
    assert!(!canvas.checked_write_pixel(2, 20, red));
    assert!(!canvas.checked_write_pixel(u32::MAX, u32::MAX, red));
    assert_eq!(canvas.checked_pixel_at(10, 3), None);
    assert_eq!(canvas.checked_pixel_at(2, 20), None);
    assert_eq!(canvas.checked_pixel_at(0, 4), Some(Color::black()));
    assert_eq!(canvas.len(), 200);
    let mut written = 0;
    for y in 0..20 {
        for x in 0..10 {
            if canvas.pixel_at(x, y) == red {
                written += 1;
            }
        }
    }
    assert_eq!(written, 1);
}

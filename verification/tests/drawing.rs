use pixel_canvas::drawing::color::Color;
use pixel_canvas::drawing::{Drawing, DEFAULT_SIZE};

const CLEAR: Color = Color { r: 0, g: 0, b: 0, a: 0 };

fn numbered(width: usize, height: usize) -> Drawing {
    let mut drawing = Drawing::new(width, height);
    for y in 0..height {
        for x in 0..width {
            *drawing.pixel_mut(x, y).unwrap() = Color::from_rgba8(x as u8, y as u8, 7, 255);
        }
    }
    drawing
}

#[test]
fn new_drawing_is_transparent() {
    let drawing = Drawing::new(3, 2);
    assert_eq!(drawing.width, 3);
    assert_eq!(drawing.height, 2);
    assert_eq!(drawing.pixels, vec![CLEAR; 6]);
}

#[test]
fn new_drawing_may_be_empty() {
    let drawing = Drawing::new(0, 5);
    assert!(drawing.pixels.is_empty());
    assert_eq!(drawing.pixel(0, 0), None);
    let drawing = Drawing::new(5, 0);
    assert!(drawing.pixels.is_empty());
    assert_eq!(drawing.pixel(0, 0), None);
}

#[test]
fn default_drawing_is_a_square_of_sixteen() {
    let drawing = Drawing::default();
    assert_eq!(DEFAULT_SIZE, 16);
    assert_eq!(drawing.width, 16);
    assert_eq!(drawing.height, 16);
    assert_eq!(drawing.pixels, vec![CLEAR; 256]);
}

#[test]
fn pixels_lie_row_by_row() {
    let drawing = numbered(3, 2);
    assert_eq!(drawing.pixels[0], Color::from_rgba8(0, 0, 7, 255));
    assert_eq!(drawing.pixels[2], Color::from_rgba8(2, 0, 7, 255));
    assert_eq!(drawing.pixels[3], Color::from_rgba8(0, 1, 7, 255));
    assert_eq!(drawing.pixel(1, 1), Some(&Color::from_rgba8(1, 1, 7, 255)));
}

#[test]
fn pixel_outside_the_grid_is_absent() {
    for (width, height) in [(0usize, 0usize), (1, 1), (3, 2), (2, 3), (0, 4)] {
        let mut drawing = Drawing::new(width, height);
        for (x, y) in [
            (width, 0),
            (0, height),
            (width, height),
            (width + 7, 0),
            (0, height + 7),
            (usize::MAX, 0),
            (0, usize::MAX),
            (usize::MAX, usize::MAX),
        ] {
            assert_eq!(drawing.pixel(x, y), None);
            assert!(drawing.pixel_mut(x, y).is_none());
        }
    }
}

#[test]
fn column_beyond_the_width_does_not_wrap_into_the_next_row() {
    let drawing = numbered(3, 2);
    assert_eq!(drawing.pixel(3, 0), None);
    assert_eq!(drawing.pixel(4, 0), None);
}

#[test]
fn pixel_mut_writes_one_pixel() {
    let mut drawing = Drawing::new(3, 2);
    let red = Color::from_rgba8(255, 0, 0, 255);
    *drawing.pixel_mut(2, 1).unwrap() = red;
    let mut expected = vec![CLEAR; 6];
    expected[5] = red;
    assert_eq!(drawing.pixels, expected);
    assert_eq!(drawing.width, 3);
    assert_eq!(drawing.height, 2);
}

#[test]
fn pixel_is_absent_where_pixels_are_missing() {
    let mut drawing = Drawing { width: 2, height: 2, pixels: vec![CLEAR; 3] };
    assert_eq!(drawing.pixel(0, 1), Some(&CLEAR));
    assert_eq!(drawing.pixel(1, 1), None);
    assert!(drawing.pixel_mut(1, 1).is_none());
    let huge = Drawing { width: usize::MAX, height: usize::MAX, pixels: vec![CLEAR; 3] };
    assert_eq!(huge.pixel(1, 0), Some(&CLEAR));
    assert_eq!(huge.pixel(0, 2), None);
    assert_eq!(huge.pixel(3, usize::MAX - 1), None);
}

#[test]
fn resize_larger_keeps_the_drawing() {
    let mut drawing = numbered(2, 2);
    drawing.resize(3, 4);
    assert_eq!(drawing.width, 3);
    assert_eq!(drawing.height, 4);
    assert_eq!(drawing.pixels.len(), 12);
    for y in 0..4 {
        for x in 0..3 {
            let expected = if x < 2 && y < 2 {
                Color::from_rgba8(x as u8, y as u8, 7, 255)
            } else {
                CLEAR
            };
            assert_eq!(drawing.pixel(x, y), Some(&expected));
        }
    }
}

#[test]
fn resize_smaller_cuts_the_drawing() {
    let mut drawing = numbered(4, 3);
    drawing.resize(2, 1);
    assert_eq!(drawing.width, 2);
    assert_eq!(drawing.height, 1);
    assert_eq!(
        drawing.pixels,
        vec![Color::from_rgba8(0, 0, 7, 255), Color::from_rgba8(1, 0, 7, 255)]
    );
}

#[test]
fn resize_wider_and_lower() {
    let mut drawing = numbered(2, 3);
    drawing.resize(3, 2);
    assert_eq!(
        drawing.pixels,
        vec![
            Color::from_rgba8(0, 0, 7, 255),
            Color::from_rgba8(1, 0, 7, 255),
            CLEAR,
            Color::from_rgba8(0, 1, 7, 255),
            Color::from_rgba8(1, 1, 7, 255),
            CLEAR,
        ]
    );
}

#[test]
fn resize_to_nothing_and_back() {
    let mut drawing = numbered(2, 2);
    drawing.resize(0, 0);
    assert!(drawing.pixels.is_empty());
    drawing.resize(2, 2);
    assert_eq!(drawing.pixels, vec![CLEAR; 4]);
}

#[test]
fn resize_repairs_a_drawing_with_missing_pixels() {
    let mut drawing = Drawing { width: 2, height: 2, pixels: vec![Color::from_rgba8(9, 9, 9, 255); 3] };
    drawing.resize(2, 2);
    let nine = Color::from_rgba8(9, 9, 9, 255);
    assert_eq!(drawing.pixels, vec![nine, nine, nine, CLEAR]);
}

#[test]
fn erase_all_keeps_the_size() {
    let mut drawing = numbered(3, 2);
    drawing.erase_all();
    assert_eq!(drawing.width, 3);
    assert_eq!(drawing.height, 2);
    assert_eq!(drawing.pixels, vec![CLEAR; 6]);
    for y in 0..2 {
        for x in 0..3 {
            assert_eq!(drawing.pixel(x, y), Some(&CLEAR));
        }
    }
}

#[test]
fn validate_fills_in_missing_pixels() {
    let mut drawing = Drawing { width: 3, height: 2, pixels: vec![] };
    assert!(drawing.validate());
    assert_eq!(drawing.pixels, vec![CLEAR; 6]);
    assert_eq!(drawing.width, 3);
    assert_eq!(drawing.height, 2);
}

#[test]
fn validate_accepts_a_full_drawing_as_it_is() {
    let mut drawing = numbered(3, 2);
    let before = drawing.pixels.clone();
    assert!(drawing.validate());
    assert_eq!(drawing.pixels, before);
}

#[test]
fn validate_refuses_a_wrong_number_of_pixels() {
    let mut drawing = Drawing { width: 3, height: 2, pixels: vec![CLEAR; 5] };
    assert!(!drawing.validate());
    assert_eq!(drawing.pixels, vec![CLEAR; 5]);
    let mut drawing = Drawing { width: 1, height: 1, pixels: vec![CLEAR; 2] };
    assert!(!drawing.validate());
}

#[test]
fn validate_accepts_an_empty_grid() {
    let mut drawing = Drawing { width: 0, height: 9, pixels: vec![] };
    assert!(drawing.validate());
    assert!(drawing.pixels.is_empty());
}

#[test]
fn validate_refuses_a_size_that_cannot_be_held() {
    let mut drawing = Drawing { width: usize::MAX, height: 2, pixels: vec![] };
    assert!(!drawing.validate());
    assert!(drawing.pixels.is_empty());
}

use compositor::color::Color;
use compositor::rect::Rect;
use compositor::screen::Screen;

const RED: Color = Color { r: 255, g: 0, b: 0 };
const GREEN: Color = Color { r: 0, g: 255, b: 0 };
const BLUE: Color = Color { r: 0, g: 0, b: 255 };
const BACKGROUND: Color = Color { r: 0x33, g: 0x33, b: 0x33 };
const BLANK: Color = Color { r: 0, g: 0, b: 0 };

fn count(screen: &Screen, c: Color) -> usize {
    let mut n = 0;
    for y in 0..screen.height() {
        for x in 0..screen.width() {
            if screen.pixel(x, y) == Some(c) {
                n += 1;
            }
        }
    }
    n
}

#[test]
fn color_constructors() {
    assert_eq!(Color::new(1, 2, 3), Color { r: 1, g: 2, b: 3 });
    assert_eq!(Color::background(), BACKGROUND);
}

#[test]
fn new_screen_is_blank() {
    let s = Screen::new(7, 5);
    assert_eq!(s.width(), 7);
    assert_eq!(s.height(), 5);
    assert_eq!(count(&s, BLANK), 35);
}

#[test]
fn pixel_off_canvas_is_none() {
    let s = Screen::new(7, 5);
    assert_eq!(s.pixel(6, 4), Some(BLANK));
    assert_eq!(s.pixel(7, 0), None);
    assert_eq!(s.pixel(0, 5), None);
    assert_eq!(s.pixel(u32::MAX, u32::MAX), None);
}

#[test]
fn empty_screen_has_no_pixels() {
    let mut s = Screen::new(0, 0);
    assert_eq!(s.pixel(0, 0), None);
    s.compose(vec![(Rect::new(0, 0, 5, 5), RED)]);
    assert_eq!(s.pixel(0, 0), None);
    assert_eq!(s.to_rgb8(), Vec::<u8>::new());
}

#[test]
fn zero_width_screen_of_any_height() {
    let s = Screen::new(0, u32::MAX);
    assert_eq!(s.width(), 0);
    assert_eq!(s.height(), u32::MAX);
    assert_eq!(s.pixel(0, 0), None);
    assert_eq!(s.pixel(0, u32::MAX - 1), None);
}

#[test]
fn draw_rect_is_half_open() {
    let mut s = Screen::new(10, 10);
    s.draw_rect(Rect::new(2, 3, 4, 5), RED);
    assert_eq!(s.pixel(2, 3), Some(RED));
    assert_eq!(s.pixel(5, 7), Some(RED));
    assert_eq!(s.pixel(6, 7), Some(BLANK));
    assert_eq!(s.pixel(5, 8), Some(BLANK));
    assert_eq!(s.pixel(1, 3), Some(BLANK));
    assert_eq!(s.pixel(2, 2), Some(BLANK));
    assert_eq!(count(&s, RED), 20);
    assert_eq!(count(&s, BLANK), 80);
}

#[test]
fn draw_rect_overwrites_without_blending() {
    let mut s = Screen::new(4, 4);
    s.draw_rect(Rect::new(0, 0, 4, 4), RED);
    s.draw_rect(Rect::new(1, 1, 2, 2), Color::new(10, 20, 30));
    assert_eq!(s.pixel(1, 1), Some(Color::new(10, 20, 30)));
    assert_eq!(s.pixel(2, 2), Some(Color::new(10, 20, 30)));
    assert_eq!(s.pixel(0, 0), Some(RED));
    assert_eq!(s.pixel(3, 3), Some(RED));
    assert_eq!(count(&s, RED), 12);
}

#[test]
fn draw_rect_clips_to_canvas() {
    let mut s = Screen::new(100, 100);
    s.draw_rect(Rect::new(-10, -10, 20, 20), RED);
    for y in 0..100 {
        for x in 0..100 {
            let expected = if x < 10 && y < 10 { RED } else { BLANK };
            assert_eq!(s.pixel(x, y), Some(expected));
        }
    }
}

#[test]
fn draw_rect_clips_at_far_edges() {
    let mut s = Screen::new(10, 8);
    s.draw_rect(Rect::new(7, 6, 100, 100), GREEN);
    assert_eq!(count(&s, GREEN), 6);
    assert_eq!(s.pixel(7, 6), Some(GREEN));
    assert_eq!(s.pixel(9, 7), Some(GREEN));
    assert_eq!(s.pixel(6, 6), Some(BLANK));
    assert_eq!(s.pixel(7, 5), Some(BLANK));
}

#[test]
fn draw_rect_off_canvas_paints_nothing() {
    let mut s = Screen::new(10, 10);
    s.draw_rect(Rect::new(-30, -30, 20, 20), RED);
    s.draw_rect(Rect::new(10, 0, 5, 5), RED);
    s.draw_rect(Rect::new(0, 10, 5, 5), RED);
    s.draw_rect(Rect::new(i32::MAX, i32::MAX, i32::MAX, i32::MAX), RED);
    s.draw_rect(Rect::new(i32::MIN, i32::MIN, i32::MAX, i32::MAX), RED);
    assert_eq!(count(&s, BLANK), 100);
}

#[test]
fn draw_rect_of_negative_size_paints_nothing() {
    let mut s = Screen::new(10, 10);
    s.draw_rect(Rect::new(5, 5, -3, 3), RED);
    s.draw_rect(Rect::new(5, 5, 3, -3), RED);
    s.draw_rect(Rect::new(5, 5, -3, -3), RED);
    s.draw_rect(Rect::new(5, 5, 0, 3), RED);
    s.draw_rect(Rect::new(5, 5, i32::MIN, i32::MIN), RED);
    assert_eq!(count(&s, BLANK), 100);
}

#[test]
fn draw_rect_covering_everything() {
    let mut s = Screen::new(6, 3);
    s.draw_rect(Rect::new(i32::MIN, i32::MIN, -1, -1), BLUE);
    assert_eq!(count(&s, BLANK), 18);
    s.draw_rect(Rect::new(-5, -5, i32::MAX, i32::MAX), BLUE);
    assert_eq!(count(&s, BLUE), 18);
}

#[test]
fn compose_later_window_wins() {
    let mut s = Screen::new(100, 100);
    s.compose(vec![(Rect::new(0, 0, 50, 50), RED), (Rect::new(25, 25, 50, 50), BLUE)]);
    assert_eq!(s.pixel(10, 10), Some(RED));
    assert_eq!(s.pixel(40, 40), Some(BLUE));
    assert_eq!(s.pixel(90, 90), Some(BACKGROUND));
    assert_eq!(count(&s, BLUE), 2500);
    assert_eq!(count(&s, RED), 2500 - 625);
    assert_eq!(count(&s, BACKGROUND), 10000 - 2500 - 2500 + 625);
}

#[test]
fn compose_order_matters() {
    let mut s = Screen::new(100, 100);
    s.compose(vec![(Rect::new(25, 25, 50, 50), BLUE), (Rect::new(0, 0, 50, 50), RED)]);
    assert_eq!(s.pixel(10, 10), Some(RED));
    assert_eq!(s.pixel(40, 40), Some(RED));
    assert_eq!(s.pixel(60, 60), Some(BLUE));
    assert_eq!(s.pixel(90, 90), Some(BACKGROUND));
}

#[test]
fn compose_is_idempotent() {
    let windows = vec![
        (Rect::new(0, 0, 50, 50), RED),
        (Rect::new(25, 25, 50, 50), BLUE),
        (Rect::new(-10, 80, 200, 5), GREEN),
    ];
    let mut s = Screen::new(100, 100);
    s.compose(windows.clone());
    let first = s.to_rgb8();
    s.compose(windows);
    assert_eq!(s.to_rgb8(), first);
}

#[test]
fn compose_forgets_earlier_content() {
    let mut s = Screen::new(20, 20);
    s.draw_rect(Rect::new(0, 0, 20, 20), GREEN);
    s.compose(vec![(Rect::new(5, 5, 5, 5), RED)]);
    assert_eq!(count(&s, GREEN), 0);
    assert_eq!(count(&s, RED), 25);
    assert_eq!(count(&s, BACKGROUND), 375);
}

#[test]
fn compose_clips_windows() {
    let mut s = Screen::new(100, 100);
    s.compose(vec![(Rect::new(-10, -10, 20, 20), RED)]);
    for y in 0..100 {
        for x in 0..100 {
            let expected = if x < 10 && y < 10 { RED } else { BACKGROUND };
            assert_eq!(s.pixel(x, y), Some(expected));
        }
    }
}

#[test]
fn compose_without_windows_is_background() {
    let mut s = Screen::new(100, 100);
    s.compose(Vec::new());
    assert_eq!(count(&s, BACKGROUND), 10000);
}

#[test]
fn compose_the_demo_scene() {
    let mut s = Screen::new(1024, 768);
    s.compose(vec![(Rect::new(220, 50, 500, 500), BLUE), (Rect::new(400, 400, 300, 200), GREEN)]);
    assert_eq!(s.pixel(0, 0), Some(BACKGROUND));
    assert_eq!(s.pixel(220, 50), Some(BLUE));
    assert_eq!(s.pixel(219, 50), Some(BACKGROUND));
    assert_eq!(s.pixel(719, 549), Some(BLUE));
    assert_eq!(s.pixel(400, 400), Some(GREEN));
    assert_eq!(s.pixel(699, 549), Some(GREEN));
    assert_eq!(s.pixel(699, 599), Some(GREEN));
    assert_eq!(s.pixel(700, 599), Some(BACKGROUND));
    assert_eq!(s.pixel(699, 600), Some(BACKGROUND));
    assert_eq!(s.pixel(719, 399), Some(BLUE));
    assert_eq!(s.pixel(720, 399), Some(BACKGROUND));
    assert_eq!(s.pixel(1023, 767), Some(BACKGROUND));
}

#[test]
fn to_rgb8_is_row_major() {
    let mut s = Screen::new(3, 2);
    s.draw_rect(Rect::new(1, 0, 1, 1), Color::new(1, 2, 3));
    s.draw_rect(Rect::new(0, 1, 1, 1), Color::new(4, 5, 6));
    s.draw_rect(Rect::new(2, 1, 1, 1), Color::new(7, 8, 9));
    assert_eq!(
        s.to_rgb8(),
        vec![0, 0, 0, 1, 2, 3, 0, 0, 0, 4, 5, 6, 0, 0, 0, 7, 8, 9]
    );
}

#[test]
fn to_rgb8_makes_an_image_of_the_same_pixels() {
    let mut s = Screen::new(100, 100);
    s.compose(vec![(Rect::new(0, 0, 50, 50), RED), (Rect::new(25, 25, 50, 50), BLUE)]);
    let img = image::RgbImage::from_raw(s.width(), s.height(), s.to_rgb8()).unwrap();
    assert_eq!(img.dimensions(), (100, 100));
    assert_eq!(*img.get_pixel(10, 10), image::Rgb([255, 0, 0]));
    assert_eq!(*img.get_pixel(40, 40), image::Rgb([0, 0, 255]));
    assert_eq!(*img.get_pixel(90, 90), image::Rgb([0x33, 0x33, 0x33]));
}

use pixel_canvas::config::mode::Mode;
use pixel_canvas::config::Config;
use pixel_canvas::drawing::color::{Color, Rgb};
use pixel_canvas::layout::Rect;
use pixel_canvas::widgets::command_bar::CommandBar;
use pixel_canvas::widgets::status_bar::{to_superscript, Span, StatusBar};

fn look(span: &Span) -> (&str, Option<Rgb>, Option<Rgb>, bool) {
    (span.text.as_str(), span.fg, span.bg, span.bold)
}

const BLACK: Rgb = Rgb { r: 0, g: 0, b: 0 };
const WHITE: Rgb = Rgb { r: 255, g: 255, b: 255 };

#[test]
fn superscripts() {
    let digits: String = (1..=10).map(to_superscript).collect();
    assert_eq!(digits, "¹²³⁴⁵⁶⁷⁸⁹⁰");
}

#[test]
fn status_bar_of_the_default_config() {
    let config = Config::default();
    let spans = StatusBar::new(&config).spans();
    assert_eq!(spans.len(), 10);
    assert_eq!(look(&spans[0]), (" ", None, None, false));
    assert_eq!(look(&spans[1]), ("NORMAL", None, None, true));
    assert_eq!(look(&spans[2]), (" ", None, None, false));
    // black, named in white
    assert_eq!(look(&spans[3]), (" #000000 ", Some(WHITE), Some(BLACK), true));
    // the history, newest first: yellow, cyan, blue, green, red, white
    assert_eq!(look(&spans[4]), ("¹", Some(BLACK), Some(Rgb { r: 255, g: 255, b: 0 }), true));
    assert_eq!(look(&spans[5]), ("²", Some(BLACK), Some(Rgb { r: 0, g: 255, b: 255 }), true));
    assert_eq!(look(&spans[6]), ("³", Some(WHITE), Some(Rgb { r: 0, g: 0, b: 255 }), true));
    assert_eq!(look(&spans[7]), ("⁴", Some(BLACK), Some(Rgb { r: 0, g: 255, b: 0 }), true));
    assert_eq!(look(&spans[8]), ("⁵", Some(WHITE), Some(Rgb { r: 255, g: 0, b: 0 }), true));
    assert_eq!(look(&spans[9]), ("⁶", Some(BLACK), Some(WHITE), true));
}

#[test]
fn status_bar_in_command_mode() {
    let mut config = Config::default();
    config.mode = Mode::Command("w".to_string());
    let spans = StatusBar::new(&config).spans();
    assert_eq!(look(&spans[1]), ("COMMAND", None, None, true));
}

#[test]
fn status_bar_with_a_full_history() {
    let mut config = Config::default();
    for level in 1..=20 {
        config.set_color(Color::from_rgba8(level, level, level, 255));
    }
    let spans = StatusBar::new(&config).spans();
    assert_eq!(spans.len(), 14);
    assert_eq!(look(&spans[3]), (" #141414 ", Some(WHITE), Some(Rgb { r: 20, g: 20, b: 20 }), true));
    assert_eq!(look(&spans[4]), ("¹", Some(WHITE), Some(Rgb { r: 19, g: 19, b: 19 }), true));
    assert_eq!(look(&spans[13]), ("⁰", Some(WHITE), Some(Rgb { r: 10, g: 10, b: 10 }), true));
}

#[test]
fn status_bar_with_an_empty_history() {
    let mut config = Config::default();
    config.color_history.clear();
    assert_eq!(StatusBar::new(&config).spans().len(), 4);
}

#[test]
fn status_bar_lays_a_translucent_color_over_black() {
    let mut config = Config::default();
    config.color = Color::from_rgba8(255, 255, 255, 128);
    let spans = StatusBar::new(&config).spans();
    // white at 128 of 255 over black; the name is chosen for white
    assert_eq!(look(&spans[3]), (" #ffffff80 ", Some(BLACK), Some(Rgb { r: 128, g: 128, b: 128 }), true));
}

#[test]
fn status_bar_names_every_channel_value() {
    let mut config = Config::default();
    config.color_history.clear();
    for value in 0..=255u8 {
        config.color = Color::from_rgba8(value, 255 - value, value / 2, 255);
        let spans = StatusBar::new(&config).spans();
        assert_eq!(spans[3].text, format!(" #{:02x}{:02x}{:02x} ", value, 255 - value, value / 2));
        config.color = Color::from_rgba8(7, 8, 9, value);
        let spans = StatusBar::new(&config).spans();
        if value < 255 {
            assert_eq!(spans[3].text, format!(" #070809{:02x} ", value));
        } else {
            assert_eq!(spans[3].text, " #070809 ");
        }
    }
}

#[test]
fn command_bar_in_normal_mode() {
    let config = Config::default();
    let bar = CommandBar::new(&config, None);
    assert_eq!(bar.line(), None);
    assert_eq!(bar.cursor(Rect::new(0, 23, 80, 1)), None);
    let bar = CommandBar::new(&config, Some("write success"));
    assert_eq!(bar.line(), Some("-- write success --".to_string()));
    assert_eq!(bar.cursor(Rect::new(0, 23, 80, 1)), None);
}

#[test]
fn command_bar_in_command_mode() {
    let mut config = Config::default();
    config.mode = Mode::Command(String::new());
    let bar = CommandBar::new(&config, Some("write success"));
    assert_eq!(bar.line(), Some(":".to_string()));
    assert_eq!(bar.cursor(Rect::new(0, 23, 80, 1)), Some((1, 23)));
    config.mode = Mode::Command("w out.json".to_string());
    let bar = CommandBar::new(&config, None);
    assert_eq!(bar.line(), Some(":w out.json".to_string()));
    assert_eq!(bar.cursor(Rect::new(0, 23, 80, 1)), Some((11, 23)));
}

#[test]
fn command_bar_counts_columns_not_characters() {
    let mut config = Config::default();
    // two characters of two columns each, and one that takes none
    config.mode = Mode::Command("w 日本e\u{301}".to_string());
    let bar = CommandBar::new(&config, None);
    assert_eq!(bar.cursor(Rect::new(3, 7, 80, 1)), Some((8, 7)));
}

#[test]
fn command_bar_cursor_stops_at_the_last_column() {
    let mut config = Config::default();
    config.mode = Mode::Command("x".repeat(70000));
    let bar = CommandBar::new(&config, None);
    assert_eq!(bar.cursor(Rect::new(0, 0, 80, 1)), Some((65535, 0)));
    config.mode = Mode::Command("x".repeat(65534));
    let bar = CommandBar::new(&config, None);
    assert_eq!(bar.cursor(Rect::new(0, 0, 80, 1)), Some((65535, 0)));
    config.mode = Mode::Command("x".repeat(65533));
    let bar = CommandBar::new(&config, None);
    assert_eq!(bar.cursor(Rect::new(0, 0, 80, 1)), Some((65534, 0)));
}

use pixel_canvas::cli::Args;
use pixel_canvas::config::mode::Mode;
use pixel_canvas::drawing::color::Color;
use pixel_canvas::drawing::Drawing;
use pixel_canvas::layout::{Rect, WindowSize};
use pixel_canvas::session::action::{Action, ColorChoice, Effect};
use pixel_canvas::session::command::{run_command, split_words};
use pixel_canvas::session::event::{KeyCode, KeyEvent, MouseButton, MouseEvent, MouseEventKind};
use pixel_canvas::session::App;
use pixel_canvas::utils::mouse::{EnableSgrPixel, ENABLE_SGR_PIXEL};

const BLACK: Color = Color { r: 0, g: 0, b: 0, a: 255 };
const CLEAR: Color = Color { r: 0, g: 0, b: 0, a: 0 };

fn window() -> WindowSize {
    WindowSize { rows: 24, columns: 80, width: 800, height: 480 }
}

fn app() -> App {
    let mut app = App::new(None, Drawing::new(4, 4), Some(window())).unwrap();
    app.canvas_area = Some(Rect::new(2, 3, 4, 2));
    app
}

fn key(app: &mut App, code: KeyCode) -> Effect {
    app.on_key(KeyEvent { code })
}

fn typed(app: &mut App, text: &str) {
    for c in text.chars() {
        assert!(matches!(key(app, KeyCode::Char(c)), Effect::Nothing));
    }
}

fn command(app: &App) -> Option<&str> {
    app.config.mode.as_command()
}

fn mouse(kind: MouseEventKind, column: u16, row: u16) -> MouseEvent {
    MouseEvent { kind, column, row }
}

#[test]
fn new_app() {
    let app = App::new(Some("art.json".to_string()), Drawing::new(2, 3), None).unwrap();
    assert!(!app.should_exit);
    assert_eq!(app.path.as_deref(), Some("art.json"));
    assert_eq!((app.drawing.width, app.drawing.height), (2, 3));
    assert_eq!(app.window_size, None);
    assert_eq!(app.canvas_area, None);
    assert_eq!(app.message, None);
    assert_eq!(app.config.color, BLACK);
    assert!(matches!(app.config.mode, Mode::Normal));
}

#[test]
fn new_app_repairs_a_drawing_without_pixels() {
    let loaded = Drawing { width: 2, height: 2, pixels: vec![] };
    let app = App::new(None, loaded, None).unwrap();
    assert_eq!(app.drawing.pixels, vec![CLEAR; 4]);
}

#[test]
fn new_app_refuses_a_broken_drawing() {
    let loaded = Drawing { width: 2, height: 2, pixels: vec![CLEAR; 3] };
    assert!(App::new(None, loaded, None).is_none());
}

#[test]
fn args_hold_the_path() {
    assert_eq!(Args::new(Some("art.json".to_string())).path.as_deref(), Some("art.json"));
    assert_eq!(Args::new(None).path, None);
}

#[test]
fn sgr_pixel_mode_sequence() {
    assert_eq!(ENABLE_SGR_PIXEL, "\x1B[?1016h");
    assert_eq!(EnableSgrPixel.ansi(), "\x1B[?1016h");
}

#[test]
fn q_quits() {
    let mut app = app();
    assert!(matches!(key(&mut app, KeyCode::Char('q')), Effect::Nothing));
    assert!(app.should_exit);
}

#[test]
fn w_saves_to_the_own_path() {
    let mut app = app();
    assert!(matches!(key(&mut app, KeyCode::Char('w')), Effect::Message(text) if text == "no path specified"));
    app.path = Some("art.json".to_string());
    assert!(matches!(key(&mut app, KeyCode::Char('w')), Effect::Write(path) if path == "art.json"));
    assert!(!app.should_exit);
}

#[test]
fn plus_and_minus_resize() {
    let mut app = app();
    *app.drawing.pixel_mut(3, 3).unwrap() = BLACK;
    assert!(matches!(key(&mut app, KeyCode::Char('+')), Effect::Nothing));
    assert_eq!((app.drawing.width, app.drawing.height), (5, 5));
    assert_eq!(app.drawing.pixel(3, 3), Some(&BLACK));
    assert_eq!(app.drawing.pixel(4, 4), Some(&CLEAR));
    key(&mut app, KeyCode::Char('='));
    assert_eq!((app.drawing.width, app.drawing.height), (6, 6));
    key(&mut app, KeyCode::Char('-'));
    key(&mut app, KeyCode::Char('-'));
    key(&mut app, KeyCode::Char('-'));
    assert_eq!((app.drawing.width, app.drawing.height), (3, 3));
    assert_eq!(app.drawing.pixel(3, 3), None);
}

#[test]
fn minus_stops_at_one_column() {
    let mut app = App::new(None, Drawing::new(2, 5), None).unwrap();
    key(&mut app, KeyCode::Char('-'));
    assert_eq!((app.drawing.width, app.drawing.height), (1, 4));
    key(&mut app, KeyCode::Char('-'));
    assert_eq!((app.drawing.width, app.drawing.height), (1, 4));
}

#[test]
fn minus_stops_without_rows() {
    let mut app = App::new(None, Drawing::new(5, 1), None).unwrap();
    key(&mut app, KeyCode::Char('-'));
    assert_eq!((app.drawing.width, app.drawing.height), (4, 0));
    key(&mut app, KeyCode::Char('-'));
    assert_eq!((app.drawing.width, app.drawing.height), (4, 0));
}

#[test]
fn capital_e_erases() {
    let mut app = app();
    *app.drawing.pixel_mut(1, 2).unwrap() = BLACK;
    key(&mut app, KeyCode::Char('E'));
    assert_eq!(app.drawing.pixels, vec![CLEAR; 16]);
    assert_eq!((app.drawing.width, app.drawing.height), (4, 4));
}

#[test]
fn digits_recall_a_color() {
    let mut app = app();
    // the history ends: blue, cyan, yellow; 1 is the newest
    key(&mut app, KeyCode::Char('1'));
    assert_eq!(app.config.color, Color::from_rgba8(255, 255, 0, 255));
    // black went to the back, and is the newest now
    key(&mut app, KeyCode::Char('1'));
    assert_eq!(app.config.color, BLACK);
    key(&mut app, KeyCode::Char('2'));
    assert_eq!(app.config.color, Color::from_rgba8(255, 255, 0, 255));
    key(&mut app, KeyCode::Char('3'));
    assert_eq!(app.config.color, Color::from_rgba8(0, 255, 255, 255));
    key(&mut app, KeyCode::Char('7'));
    assert_eq!(app.config.color, Color::from_rgba8(255, 255, 255, 255));
    let before: Vec<Color> = app.config.color_history.iter().copied().collect();
    assert_eq!(before.len(), 7);
    // the history holds seven colors: 8 and 9 reach too far
    for digit in ['8', '9'] {
        key(&mut app, KeyCode::Char(digit));
        assert_eq!(app.config.color, Color::from_rgba8(255, 255, 255, 255));
        assert_eq!(app.config.color_history.iter().copied().collect::<Vec<Color>>(), before);
    }
}

#[test]
fn digit_recalls_the_color_that_the_status_bar_numbers() {
    for digit in 1..=6u8 {
        let mut app = app();
        let spans = pixel_canvas::widgets::status_bar::StatusBar::new(&app.config).spans();
        let numbered = spans[3 + digit as usize].bg.unwrap();
        key(&mut app, KeyCode::Char((b'0' + digit) as char));
        assert_eq!(app.config.color.rgb(), numbered);
        assert_eq!(app.config.color.a, 255);
        assert_eq!(app.config.color_history.back(), Some(&BLACK));
    }
}

#[test]
fn first_digit_recalls_the_color_displaced_last() {
    let mut app = App::new(None, Drawing::new(1, 1), None).unwrap();
    app.config.color_history.clear();
    key(&mut app, KeyCode::Char('1'));
    assert_eq!(app.config.color, BLACK);
    assert!(app.config.color_history.is_empty());
    let red = Color::from_rgba8(200, 0, 0, 255);
    app.perform(Action::SetColor(ColorChoice::Color(red)));
    key(&mut app, KeyCode::Char('1'));
    assert_eq!(app.config.color, BLACK);
    key(&mut app, KeyCode::Char('1'));
    assert_eq!(app.config.color, red);
}

#[test]
fn zero_and_other_keys_do_nothing() {
    let mut app = app();
    for code in [KeyCode::Char('0'), KeyCode::Char('x'), KeyCode::Enter, KeyCode::Esc, KeyCode::Backspace, KeyCode::Other] {
        assert!(matches!(key(&mut app, code), Effect::Nothing));
    }
    assert!(!app.should_exit);
    assert_eq!(app.config.color, BLACK);
    assert_eq!(app.config.color_history.len(), 6);
    assert!(matches!(app.config.mode, Mode::Normal));
    assert_eq!(app.drawing.pixels, vec![CLEAR; 16]);
}

#[test]
fn colon_starts_a_command_line() {
    let mut app = app();
    key(&mut app, KeyCode::Char(':'));
    assert_eq!(command(&app), Some(""));
    typed(&mut app, "q+E1:");
    assert_eq!(command(&app), Some("q+E1:"));
    assert!(!app.should_exit);
    assert_eq!((app.drawing.width, app.drawing.height), (4, 4));
    key(&mut app, KeyCode::Backspace);
    assert_eq!(command(&app), Some("q+E1"));
    key(&mut app, KeyCode::Other);
    assert_eq!(command(&app), Some("q+E1"));
    key(&mut app, KeyCode::Esc);
    assert_eq!(command(&app), None);
}

#[test]
fn backspace_on_an_empty_command_line() {
    let mut app = app();
    key(&mut app, KeyCode::Char(':'));
    assert!(matches!(key(&mut app, KeyCode::Backspace), Effect::Nothing));
    assert_eq!(command(&app), Some(""));
}

#[test]
fn command_q_quits() {
    let mut app = app();
    key(&mut app, KeyCode::Char(':'));
    typed(&mut app, "q");
    assert!(matches!(key(&mut app, KeyCode::Enter), Effect::Nothing));
    assert!(app.should_exit);
    assert_eq!(command(&app), None);
}

#[test]
fn command_w_saves() {
    let mut app = app();
    app.path = Some("art.json".to_string());
    key(&mut app, KeyCode::Char(':'));
    typed(&mut app, "w");
    assert!(matches!(key(&mut app, KeyCode::Enter), Effect::Write(path) if path == "art.json"));
    assert_eq!(command(&app), None);
    key(&mut app, KeyCode::Char(':'));
    typed(&mut app, "  w \t copy.json ");
    assert!(matches!(key(&mut app, KeyCode::Enter), Effect::Write(path) if path == "copy.json"));
    assert_eq!(app.path.as_deref(), Some("art.json"));
    assert!(!app.should_exit);
}

#[test]
fn unknown_command_does_nothing_but_end_the_line() {
    let mut app = app();
    for line in ["", "wq", "q now", "w a b", "quit", "W"] {
        key(&mut app, KeyCode::Char(':'));
        typed(&mut app, line);
        assert!(matches!(key(&mut app, KeyCode::Enter), Effect::Nothing));
        assert_eq!(command(&app), None);
        assert!(!app.should_exit);
    }
}

#[test]
fn command_with_equals_sign_is_a_script() {
    let mut app = app();
    key(&mut app, KeyCode::Char(':'));
    typed(&mut app, "=color = 'red'");
    assert!(matches!(key(&mut app, KeyCode::Enter), Effect::Script(script) if script == "color = 'red'"));
    assert_eq!(command(&app), None);
    key(&mut app, KeyCode::Char(':'));
    typed(&mut app, "=");
    assert!(matches!(key(&mut app, KeyCode::Enter), Effect::Script(script) if script.is_empty()));
    key(&mut app, KeyCode::Char(':'));
    typed(&mut app, " =q");
    assert!(matches!(key(&mut app, KeyCode::Enter), Effect::Nothing));
    assert!(!app.should_exit);
}

#[test]
fn typing_outside_command_mode_is_reported() {
    let mut app = app();
    assert!(matches!(app.perform(Action::CommandPush('x')), Effect::Message(text) if text == "Not command mode"));
    assert!(matches!(app.perform(Action::CommandPop), Effect::Message(text) if text == "Not command mode"));
    assert!(matches!(app.config.mode, Mode::Normal));
}

#[test]
fn perform_sets_a_color() {
    let mut app = app();
    let red = Color::from_rgba8(200, 0, 0, 255);
    assert!(matches!(app.perform(Action::SetColor(ColorChoice::Color(red))), Effect::Nothing));
    assert_eq!(app.config.color, red);
    assert_eq!(app.config.color_history.back(), Some(&BLACK));
    assert!(matches!(app.perform(Action::SetColor(ColorChoice::Recent(0))), Effect::Nothing));
    assert_eq!(app.config.color, BLACK);
    assert_eq!(app.config.color_history.back(), Some(&red));
}

#[test]
fn perform_saves_to_a_given_path() {
    let mut app = app();
    app.path = Some("art.json".to_string());
    let effect = app.perform(Action::Save(Some("other.json".to_string())));
    assert!(matches!(effect, Effect::Write(path) if path == "other.json"));
}

#[test]
fn perform_resizes_and_changes_modes() {
    let mut app = app();
    app.perform(Action::Resize(2, 7));
    assert_eq!((app.drawing.width, app.drawing.height), (2, 7));
    assert_eq!(app.drawing.pixels.len(), 14);
    app.perform(Action::EnterCommandMode);
    assert_eq!(command(&app), Some(""));
    app.perform(Action::EnterNormalMode);
    assert_eq!(command(&app), None);
    app.perform(Action::Execute("q".to_string()));
    assert!(app.should_exit);
}

#[test]
fn left_button_paints_with_the_current_color() {
    let mut app = app();
    app.config.color = Color::from_rgba8(9, 8, 7, 255);
    // cell (2, 3) is the canvas's first; its lower half is row 1
    app.on_mouse(mouse(MouseEventKind::Down(MouseButton::Left), 25, 75));
    let mut expected = vec![CLEAR; 16];
    expected[4] = Color::from_rgba8(9, 8, 7, 255);
    assert_eq!(app.drawing.pixels, expected);
    // dragging paints as pressing does: cell (5, 4), upper half
    app.on_mouse(mouse(MouseEventKind::Drag(MouseButton::Left), 50, 80));
    expected[2 * 4 + 3] = Color::from_rgba8(9, 8, 7, 255);
    assert_eq!(app.drawing.pixels, expected);
}

#[test]
fn right_button_makes_transparent() {
    let mut app = app();
    app.drawing.pixels = vec![BLACK; 16];
    app.on_mouse(mouse(MouseEventKind::Down(MouseButton::Right), 25, 65));
    app.on_mouse(mouse(MouseEventKind::Drag(MouseButton::Right), 35, 65));
    let mut expected = vec![BLACK; 16];
    expected[0] = CLEAR;
    expected[1] = CLEAR;
    assert_eq!(app.drawing.pixels, expected);
}

#[test]
fn other_mouse_events_paint_nothing() {
    let mut app = app();
    app.drawing.pixels = vec![BLACK; 16];
    for kind in [
        MouseEventKind::Down(MouseButton::Middle),
        MouseEventKind::Drag(MouseButton::Middle),
        MouseEventKind::Up(MouseButton::Left),
        MouseEventKind::Up(MouseButton::Right),
        MouseEventKind::Moved,
        MouseEventKind::ScrollDown,
        MouseEventKind::ScrollUp,
        MouseEventKind::ScrollLeft,
        MouseEventKind::ScrollRight,
    ] {
        app.config.color = Color::from_rgba8(9, 8, 7, 255);
        app.on_mouse(mouse(kind, 25, 65));
        assert_eq!(kind.paint(app.config.color), None);
    }
    assert_eq!(app.drawing.pixels, vec![BLACK; 16]);
}

#[test]
fn click_outside_the_canvas_or_the_drawing_paints_nothing() {
    let mut app = app();
    app.on_mouse(mouse(MouseEventKind::Down(MouseButton::Left), 15, 65));
    assert_eq!(app.drawing.pixels, vec![CLEAR; 16]);
    // the canvas is wider than the drawing: column 4 is no pixel
    app.canvas_area = Some(Rect::new(2, 3, 6, 2));
    app.on_mouse(mouse(MouseEventKind::Down(MouseButton::Left), 65, 65));
    assert_eq!(app.drawing.pixels, vec![CLEAR; 16]);
}

#[test]
fn click_before_anything_was_rendered_paints_nothing() {
    let mut app = app();
    app.canvas_area = None;
    app.on_mouse(mouse(MouseEventKind::Down(MouseButton::Left), 25, 65));
    assert_eq!(app.viewport_to_canvas(25, 65), None);
    app.canvas_area = Some(Rect::new(2, 3, 4, 2));
    assert_eq!(app.viewport_to_canvas(25, 65), Some((0, 0)));
    app.on_resize(None);
    assert_eq!(app.viewport_to_canvas(25, 65), None);
    app.on_mouse(mouse(MouseEventKind::Down(MouseButton::Left), 25, 65));
    assert_eq!(app.drawing.pixels, vec![CLEAR; 16]);
    app.on_resize(Some(window()));
    assert_eq!(app.window_size, Some(window()));
}

#[test]
fn message_is_kept() {
    let mut app = app();
    app.on_message("write success".to_string());
    assert_eq!(app.message.as_deref(), Some("write success"));
}

#[test]
fn words_of_a_line() {
    assert_eq!(split_words("w out.json"), vec!["w", "out.json"]);
    assert_eq!(split_words("  a\tb\nc\x0Cd\re  "), vec!["a", "b", "c", "d", "e"]);
    assert_eq!(split_words(""), Vec::<String>::new());
    assert_eq!(split_words(" \t "), Vec::<String>::new());
    assert_eq!(split_words("one"), vec!["one"]);
    // only the five ASCII separators part words
    assert_eq!(split_words("a\u{a0}b\u{b}c 日本 語"), vec!["a\u{a0}b\u{b}c", "日本", "語"]);
}

#[test]
fn words_as_the_standard_library_splits_them() {
    for line in ["w", " w  x ", "q", "\t\tq\r\n", "a b c d", "日 本", "", "x\u{2003}y"] {
        let expected: Vec<String> = line.split_ascii_whitespace().map(str::to_string).collect();
        assert_eq!(split_words(line), expected);
    }
}

#[test]
fn commands() {
    assert!(matches!(run_command("w"), Some(Action::Save(None))));
    assert!(matches!(run_command(" w "), Some(Action::Save(None))));
    assert!(matches!(run_command("w a.json"), Some(Action::Save(Some(path))) if path == "a.json"));
    assert!(matches!(run_command("q"), Some(Action::Quit)));
    assert!(run_command("").is_none());
    assert!(run_command("q q").is_none());
    assert!(run_command("x a.json").is_none());
    assert!(run_command("w a b").is_none());
    assert!(run_command("ww").is_none());
}

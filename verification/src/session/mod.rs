//! The editor's state, and what keys, the mouse and commands do to it.
//!
//! The editor itself reads no key and writes no file. It is told what
//! happened, changes its state, and says what is left to do: an
//! [`Effect`]. Whoever runs it reads the terminal, hands each event to
//! [`App::on_key`], [`App::on_mouse`] or [`App::on_resize`], and carries
//! out the effect that comes back.

use vstd::prelude::*;

pub mod action;
pub mod command;
pub mod event;

use self::action::Action;
use self::action::ActionView;
use self::action::ColorChoice;
use self::action::Effect;
use self::action::EffectView;
use self::command::parsed_command;
use self::command::run_command;
use self::event::paint_of;
use self::event::KeyCode;
use self::event::KeyEvent;
use self::event::MouseEvent;
use crate::config::mode::Mode;
use crate::config::recalled;
use crate::config::Config;
use crate::drawing::color::Color;
use crate::drawing::Drawing;
use crate::layout::pixel_under;
use crate::layout::viewport_to_canvas;
use crate::layout::Rect;
use crate::layout::WindowSize;
use crate::widgets::status_bar::status_spans;
use crate::widgets::status_bar::superscript;
use crate::widgets::status_bar::swatch;
use crate::text::string_pop;
use crate::text::string_push;

verus! {

/// The editor.
pub struct App {
    /// Whether the editor is to end.
    pub should_exit: bool,
    /// The file that the drawing is saved to, if it has one.
    pub path: Option<String>,
    /// The drawing that is edited.
    pub drawing: Drawing,
    /// The size of the terminal's window, where the terminal tells it.
    pub window_size: Option<WindowSize>,
    /// Where the canvas was rendered last.
    pub canvas_area: Option<Rect>,
    pub config: Config,
    /// The message that the command bar shows.
    pub message: Option<String>,
}

/// A text that may be missing, as the contracts see it.
pub open spec fn text_of(text: Option<String>) -> Option<Seq<char>> {
    match text {
        Some(text) => Some(text@),
        None => None,
    }
}

/// What a key asks for in normal mode, the drawing being `width` by
/// `height`: `q` quits, `w` saves, a colon starts a command line, `+` or
/// `=` makes the drawing one pixel larger each way and `-` one smaller,
/// `E` erases it, and a digit from 1 to 9 recalls the color of the history
/// that the status bar shows under that digit: 1 is the newest.
/// A drawing grows only as far as its pixels can be counted, and shrinks
/// only while it is more than one pixel wide and has a row to lose.
pub open spec fn normal_key(code: KeyCode, width: usize, height: usize) -> Option<ActionView> {
    match code {
        KeyCode::Char(c) => {
            if c == 'q' {
                Some(ActionView::Quit)
            } else if c == 'w' {
                Some(ActionView::Save(None))
            } else if c == ':' {
                Some(ActionView::EnterCommandMode)
            } else if c == '+' || c == '=' {
                if (width + 1) * (height + 1) <= usize::MAX {
                    Some(ActionView::Resize((width + 1) as usize, (height + 1) as usize))
                } else {
                    None
                }
            } else if c == '-' {
                if width > 1 && height > 0 {
                    Some(ActionView::Resize((width - 1) as usize, (height - 1) as usize))
                } else {
                    None
                }
            } else if c == 'E' {
                Some(ActionView::Erase)
            } else if '1' <= c <= '9' {
                Some(ActionView::SetColor(ColorChoice::Recent((c as u8 - '1' as u8) as u8)))
            } else {
                None
            }
        },
        _ => None,
    }
}

/// What a key asks for in command mode, the command line being
/// `command`: escape leaves the mode, a character is typed, backspace
/// takes one back, enter runs the line.
pub open spec fn command_key(code: KeyCode, command: Seq<char>) -> Option<ActionView> {
    match code {
        KeyCode::Esc => Some(ActionView::EnterNormalMode),
        KeyCode::Char(c) => Some(ActionView::CommandPush(c)),
        KeyCode::Backspace => Some(ActionView::CommandPop),
        KeyCode::Enter => Some(ActionView::Execute(command)),
        KeyCode::Other => None,
    }
}

impl App {
    /// The drawing is well-formed, and so are the settings.
    pub open spec fn wf(&self) -> bool {
        self.drawing.wf() && self.config.wf()
    }

    /// This state, in normal mode.
    pub open spec fn in_normal_mode(&self) -> App {
        App { config: Config { mode: Mode::Normal, ..self.config }, ..*self }
    }

    /// Whether `post` is this state but for the mode.
    pub open spec fn same_but_mode(&self, post: App) -> bool {
        post == (App { config: Config { mode: post.config.mode, ..self.config }, ..*self })
    }

    /// Whether `post` is this state but for the drawing.
    pub open spec fn same_but_drawing(&self, post: App) -> bool {
        post == (App { drawing: post.drawing, ..*self })
    }

    /// Whether `post` is this state but for the current color and the
    /// history.
    pub open spec fn same_but_colors(&self, post: App) -> bool {
        post == (App {
            config: Config {
                color: post.config.color,
                color_history: post.config.color_history,
                ..self.config
            },
            ..*self
        })
    }

    /// What is left to do to save the drawing: to write it to `path`, or
    /// to the drawing's own file where `path` is `None`, or to say that
    /// there is no file to write to.
    pub open spec fn save_effect(&self, path: Option<Seq<char>>) -> EffectView {
        match path {
            Some(path) => EffectView::Write(path),
            None => match self.path {
                Some(own) => EffectView::Write(own@),
                None => EffectView::Message("no path specified"@),
            },
        }
    }

    /// The color that `choice` names; `None` where the history does not
    /// reach as far back as it asks.
    pub open spec fn chosen(&self, choice: ColorChoice) -> Option<Color> {
        match choice {
            ColorChoice::Color(color) => Some(color),
            ColorChoice::Recent(index) => recalled(self.config.color_history@, index as int),
        }
    }

    /// What a key asks for in this state; `None` for a key without a
    /// meaning.
    pub open spec fn key_action(&self, code: KeyCode) -> Option<ActionView> {
        match self.config.mode {
            Mode::Normal => normal_key(code, self.drawing.width, self.drawing.height),
            Mode::Command(command) => command_key(code, command@),
        }
    }

    /// The pixel of the drawing under the mouse at `(x, y)`, in hardware
    /// pixels; `None` while the size of the window or the place of the
    /// canvas is not known, and where the mouse is outside the canvas.
    pub open spec fn pixel_under_mouse(&self, x: u16, y: u16) -> Option<(u16, u16)> {
        match (self.window_size, self.canvas_area) {
            (Some(window_size), Some(canvas_area)) => pixel_under(window_size, canvas_area, x, y),
            _ => None,
        }
    }

    /// The pixels of the drawing after a mouse event: the pixel under the
    /// mouse takes the color that the event paints with, where the drawing
    /// has that pixel and the event paints.
    pub open spec fn painted_pixels(&self, mouse: MouseEvent) -> Seq<Color> {
        match self.pixel_under_mouse(mouse.column, mouse.row) {
            Some((x, y)) => match (
                self.drawing.pixel_at(x as int, y as int),
                paint_of(mouse.kind, self.config.color),
            ) {
                (Some(_), Some(color)) => self.drawing.pixels@.update(
                    y * self.drawing.width + x,
                    color,
                ),
                _ => self.drawing.pixels@,
            },
            None => self.drawing.pixels@,
        }
    }

    /// Whether performing `action` in this state leads to the state `post`
    /// and leaves `effect` to do.
    pub open spec fn performed(&self, action: ActionView, post: App, effect: EffectView) -> bool {
        match action {
            ActionView::Quit => post == (App { should_exit: true, ..*self }) && effect
                == EffectView::Nothing,
            ActionView::Save(path) => post == *self && effect == self.save_effect(path),
            ActionView::EnterCommandMode => {
                &&& self.same_but_mode(post)
                &&& post.config.mode.command_text() == Some(Seq::<char>::empty())
                &&& effect == EffectView::Nothing
            },
            ActionView::EnterNormalMode => post == self.in_normal_mode() && effect
                == EffectView::Nothing,
            ActionView::CommandPush(c) => match self.config.mode.command_text() {
                Some(command) => {
                    &&& self.same_but_mode(post)
                    &&& post.config.mode.command_text() == Some(command.push(c))
                    &&& effect == EffectView::Nothing
                },
                None => post == *self && effect == EffectView::Message("Not command mode"@),
            },
            ActionView::CommandPop => match self.config.mode.command_text() {
                Some(command) => {
                    &&& self.same_but_mode(post)
                    &&& post.config.mode.command_text() == Some(
                        if command.len() > 0 {
                            command.drop_last()
                        } else {
                            command
                        },
                    )
                    &&& effect == EffectView::Nothing
                },
                None => post == *self && effect == EffectView::Message("Not command mode"@),
            },
            ActionView::Resize(width, height) => {
                &&& self.same_but_drawing(post)
                &&& post.drawing.is_resized(self.drawing, width, height)
                &&& effect == EffectView::Nothing
            },
            ActionView::Erase => {
                &&& self.same_but_drawing(post)
                &&& post.drawing.is_erased(self.drawing)
                &&& effect == EffectView::Nothing
            },
            ActionView::SetColor(choice) => {
                &&& match self.chosen(choice) {
                    Some(color) => self.same_but_colors(post) && post.config.is_set_color(
                        self.config,
                        color,
                    ),
                    None => post == *self,
                }
                &&& effect == EffectView::Nothing
            },
            ActionView::Execute(command) => {
                if command.len() > 0 && command[0] == '=' {
                    post == self.in_normal_mode() && effect == EffectView::Script(command.skip(1))
                } else {
                    match parsed_command(command) {
                        Some(ActionView::Save(path)) => post == self.in_normal_mode() && effect
                            == self.save_effect(path),
                        Some(ActionView::Quit) => post == (App {
                            should_exit: true,
                            ..self.in_normal_mode()
                        }) && effect == EffectView::Nothing,
                        _ => post == self.in_normal_mode() && effect == EffectView::Nothing,
                    }
                }
            },
        }
    }

    /// In normal mode the digit `d`, from 1 to 9, recalls the color that the
    /// status bar shows under the number `d`: the color that was displaced
    /// `d - 1` changes before the last, where the history reaches that far.
    pub proof fn lemma_digit_recalls_numbered_swatch(&self, d: int)
        requires
            self.config.mode is Normal,
            1 <= d <= 9,
            d <= self.config.color_history@.len(),
        ensures
            ({
                let history = self.config.color_history@;
                let recent = ColorChoice::Recent((d - 1) as u8);
                &&& self.key_action(KeyCode::Char((('0' as u8) + d) as u8 as char)) == Some(
                    ActionView::SetColor(recent),
                )
                &&& self.chosen(recent) == Some(history[history.len() - d])
                &&& status_spans(self.config)[3 + d] == swatch(
                    seq![superscript(d)],
                    history[history.len() - d],
                )
            }),
    {
    }

    /// A key never asks for a drawing whose pixels cannot be counted.
    pub proof fn lemma_key_resize_fits(&self, code: KeyCode)
        requires
            self.drawing.wf(),
        ensures
            self.key_action(code) matches Some(ActionView::Resize(width, height)) ==> width * height
                <= usize::MAX,
    {
        let width = self.drawing.width;
        let height = self.drawing.height;
        assert(self.drawing.pixels@.len() == self.drawing.pixels.len());
        if width > 1 && height > 0 {
            assert((width - 1) * (height - 1) <= width * height) by (nonlinear_arith)
                requires
                    width > 1,
                    height > 0,
            ;
        }
        if (width + 1) * (height + 1) <= usize::MAX {
            assert(width + 1 <= usize::MAX && height + 1 <= usize::MAX) by (nonlinear_arith)
                requires
                    (width + 1) * (height + 1) <= usize::MAX,
                    width >= 0,
                    height >= 0,
            ;
        }
    }

    /// The editor at its start, with the drawing that was loaded, or made
    /// anew; `None` where the drawing does not hold as many pixels as its
    /// size asks for, and cannot be repaired.
    pub fn new(path: Option<String>, drawing: Drawing, window_size: Option<WindowSize>) -> (app:
        Option<App>)
        ensures
            match app {
                Some(app) => {
                    &&& drawing.repaired_pixels().len() == drawing.width * drawing.height
                    &&& app.drawing.width == drawing.width
                    &&& app.drawing.height == drawing.height
                    &&& app.drawing.pixels@ == drawing.repaired_pixels()
                    &&& app.path == path
                    &&& app.window_size == window_size
                    &&& app.canvas_area is None
                    &&& app.message is None
                    &&& !app.should_exit
                    &&& app.config.is_initial()
                    &&& app.wf()
                },
                None => drawing.repaired_pixels().len() != drawing.width * drawing.height,
            },
    {
        let mut drawing = drawing;
        if drawing.validate() {
            Some(
                App {
                    should_exit: false,
                    path,
                    drawing,
                    window_size,
                    canvas_area: None,
                    config: Config::default(),
                    message: None,
                },
            )
        } else {
            None
        }
    }

    /// The pixel of the drawing under the mouse at `(x, y)`, in hardware
    /// pixels.
    pub fn viewport_to_canvas(&self, x: u16, y: u16) -> (found: Option<(u16, u16)>)
        ensures
            found == self.pixel_under_mouse(x, y),
    {
        match (&self.window_size, &self.canvas_area) {
            (Some(window_size), Some(canvas_area)) => viewport_to_canvas(
                window_size,
                canvas_area,
                x,
                y,
            ),
            _ => None,
        }
    }

    /// The terminal's window has a new size.
    pub fn on_resize(&mut self, window_size: Option<WindowSize>)
        ensures
            *final(self) == (App { window_size, ..*old(self) }),
    {
        self.window_size = window_size;
    }

    /// A message came in, to be shown.
    pub fn on_message(&mut self, message: String)
        ensures
            *final(self) == (App { message: Some(message), ..*old(self) }),
    {
        self.message = Some(message);
    }

    /// The mouse did something: with the left button it paints the pixel
    /// under it with the current color, with the right button it makes
    /// that pixel transparent. Nothing else changes.
    pub fn on_mouse(&mut self, mouse: MouseEvent)
        ensures
            old(self).same_but_drawing(*final(self)),
            final(self).drawing.width == old(self).drawing.width,
            final(self).drawing.height == old(self).drawing.height,
            final(self).drawing.pixels@ == old(self).painted_pixels(mouse),
            old(self).wf() ==> final(self).wf(),
    {
        match self.viewport_to_canvas(mouse.column, mouse.row) {
            Some((x, y)) => {
                let paint = mouse.kind.paint(self.config.color);
                match self.drawing.pixel_mut(x as usize, y as usize) {
                    Some(pixel) => match paint {
                        Some(color) => {
                            *pixel = color;
                        },
                        None => {},
                    },
                    None => {},
                }
            },
            None => {},
        }
    }

    /// What the key `code` asks for in this state.
    pub fn action_of(&self, code: KeyCode) -> (action: Option<Action>)
        ensures
            match action {
                Some(action) => self.key_action(code) == Some(action@),
                None => self.key_action(code) is None,
            },
    {
        match &self.config.mode {
            Mode::Normal => match code {
                KeyCode::Char(c) => {
                    if c == 'q' {
                        Some(Action::Quit)
                    } else if c == 'w' {
                        Some(Action::Save(None))
                    } else if c == ':' {
                        Some(Action::EnterCommandMode)
                    } else if c == '+' || c == '=' {
                        self.grown()
                    } else if c == '-' {
                        if self.drawing.width > 1 && self.drawing.height > 0 {
                            Some(Action::Resize(self.drawing.width - 1, self.drawing.height - 1))
                        } else {
                            None
                        }
                    } else if c == 'E' {
                        Some(Action::Erase)
                    } else if '1' <= c && c <= '9' {
                        Some(Action::SetColor(ColorChoice::Recent(c as u8 - '1' as u8)))
                    } else {
                        None
                    }
                },
                _ => None,
            },
            Mode::Command(command) => match code {
                KeyCode::Esc => Some(Action::EnterNormalMode),
                KeyCode::Char(c) => Some(Action::CommandPush(c)),
                KeyCode::Backspace => Some(Action::CommandPop),
                KeyCode::Enter => Some(Action::Execute(command.clone())),
                KeyCode::Other => None,
            },
        }
    }

    /// The action that makes the drawing one pixel larger each way, where
    /// the pixels of the larger drawing can be counted.
    fn grown(&self) -> (action: Option<Action>)
        ensures
            match action {
                Some(action) => (self.drawing.width + 1) * (self.drawing.height + 1) <= usize::MAX
                    && action@ == ActionView::Resize(
                    (self.drawing.width + 1) as usize,
                    (self.drawing.height + 1) as usize,
                ),
                None => (self.drawing.width + 1) * (self.drawing.height + 1) > usize::MAX,
            },
    {
        let width = match self.drawing.width.checked_add(1) {
            Some(width) => width,
            None => {
                proof {
                    assert((self.drawing.width + 1) * (self.drawing.height + 1) > usize::MAX)
                        by (nonlinear_arith)
                        requires
                            self.drawing.width + 1 > usize::MAX,
                            self.drawing.height >= 0,
                    ;
                }
                return None;
            },
        };
        let height = match self.drawing.height.checked_add(1) {
            Some(height) => height,
            None => {
                proof {
                    assert((self.drawing.width + 1) * (self.drawing.height + 1) > usize::MAX)
                        by (nonlinear_arith)
                        requires
                            self.drawing.height + 1 > usize::MAX,
                            self.drawing.width >= 0,
                    ;
                }
                return None;
            },
        };
        match width.checked_mul(height) {
            Some(_) => Some(Action::Resize(width, height)),
            None => None,
        }
    }

    /// A key was pressed: the editor does what the key asks for in the
    /// mode that it is in, and nothing where the key asks for nothing.
    pub fn on_key(&mut self, key: KeyEvent) -> (effect: Effect)
        requires
            old(self).wf(),
        ensures
            final(self).wf(),
            match old(self).key_action(key.code) {
                Some(action) => old(self).performed(action, *final(self), effect@),
                None => *final(self) == *old(self) && effect@ == EffectView::Nothing,
            },
    {
        proof {
            self.lemma_key_resize_fits(key.code);
        }
        match self.action_of(key.code) {
            Some(action) => self.perform(action),
            None => Effect::Nothing,
        }
    }

    /// Does what `action` asks for, and says what is left to do.
    pub fn perform(&mut self, action: Action) -> (effect: Effect)
        requires
            old(self).wf(),
            action@ matches ActionView::Resize(width, height) ==> width * height <= usize::MAX,
        ensures
            final(self).wf(),
            old(self).performed(action@, *final(self), effect@),
    {
        match action {
            Action::Quit => {
                self.should_exit = true;
                Effect::Nothing
            },
            Action::Save(path) => self.save(path),
            Action::EnterCommandMode => {
                self.config.mode = Mode::Command(String::new());
                Effect::Nothing
            },
            Action::EnterNormalMode => {
                self.config.mode = Mode::Normal;
                Effect::Nothing
            },
            Action::CommandPush(c) => match &mut self.config.mode {
                Mode::Normal => Effect::Message(String::from_str("Not command mode")),
                Mode::Command(command) => {
                    string_push(command, c);
                    Effect::Nothing
                },
            },
            Action::CommandPop => match &mut self.config.mode {
                Mode::Normal => Effect::Message(String::from_str("Not command mode")),
                Mode::Command(command) => {
                    let _ = string_pop(command);
                    Effect::Nothing
                },
            },
            Action::Resize(width, height) => {
                self.drawing.resize(width, height);
                Effect::Nothing
            },
            Action::Erase => {
                proof {
                    assert(self.drawing.width * self.drawing.height == self.drawing.pixels@.len());
                    assert(self.drawing.pixels.len() <= usize::MAX);
                }
                self.drawing.erase_all();
                Effect::Nothing
            },
            Action::SetColor(choice) => {
                let color = match choice {
                    ColorChoice::Color(color) => Some(color),
                    ColorChoice::Recent(index) => self.config.recall(index as usize),
                };
                match color {
                    Some(color) => {
                        self.config.set_color(color);
                    },
                    None => {},
                }
                Effect::Nothing
            },
            Action::Execute(command) => {
                let text = command.as_str();
                let len = text.unicode_len();
                let effect = if len > 0 && text.get_char(0) == '=' {
                    let script = text.substring_char(1, len).to_owned();
                    proof {
                        assert(command@.skip(1) =~= command@.subrange(1, len as int));
                    }
                    Effect::Script(script)
                } else {
                    match run_command(text) {
                        Some(Action::Save(path)) => self.save(path),
                        Some(Action::Quit) => {
                            self.should_exit = true;
                            Effect::Nothing
                        },
                        _ => Effect::Nothing,
                    }
                };
                self.config.mode = Mode::Normal;
                effect
            },
        }
    }

    /// What is left to do to save the drawing.
    fn save(&self, path: Option<String>) -> (effect: Effect)
        ensures
            effect@ == self.save_effect(text_of(path)),
    {
        match path {
            Some(path) => Effect::Write(path),
            None => match &self.path {
                Some(own) => Effect::Write(own.clone()),
                None => Effect::Message(String::from_str("no path specified")),
            },
        }
    }
}

} // verus!

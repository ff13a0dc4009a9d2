//! What the editor can be told to do, and what it asks for in return.

use vstd::prelude::*;

use crate::drawing::color::Color;

verus! {

/// The color to make current.
#[derive(Clone, Copy, Debug, PartialEq, Eq, Structural)]
pub enum ColorChoice {
    /// This color.
    Color(Color),
    /// The color of the history that was displaced this many changes
    /// before the last.
    Recent(u8),
}

/// Something to do.
#[derive(Debug)]
pub enum Action {
    /// Quit the editor.
    Quit,
    /// Save the drawing, to the given path or to its own.
    Save(Option<String>),
    EnterCommandMode,
    EnterNormalMode,
    /// Type a character into the command line.
    CommandPush(char),
    /// Take the last character from the command line.
    CommandPop,
    /// Resize the drawing to the given width and height.
    Resize(usize, usize),
    /// Erase the drawing.
    Erase,
    SetColor(ColorChoice),
    /// Run the command line.
    Execute(String),
}

impl Clone for Action {
    fn clone(&self) -> (copy: Action)
        ensures
            copy == *self,
    {
        match self {
            Action::Quit => Action::Quit,
            Action::Save(path) => Action::Save(
                match path {
                    Some(path) => Some(path.clone()),
                    None => None,
                },
            ),
            Action::EnterCommandMode => Action::EnterCommandMode,
            Action::EnterNormalMode => Action::EnterNormalMode,
            Action::CommandPush(c) => Action::CommandPush(*c),
            Action::CommandPop => Action::CommandPop,
            Action::Resize(width, height) => Action::Resize(*width, *height),
            Action::Erase => Action::Erase,
            Action::SetColor(choice) => Action::SetColor(*choice),
            Action::Execute(command) => Action::Execute(command.clone()),
        }
    }
}

/// An action as the contracts see it.
pub enum ActionView {
    Quit,
    Save(Option<Seq<char>>),
    EnterCommandMode,
    EnterNormalMode,
    CommandPush(char),
    CommandPop,
    Resize(usize, usize),
    Erase,
    SetColor(ColorChoice),
    Execute(Seq<char>),
}

impl View for Action {
    type V = ActionView;

    open spec fn view(&self) -> ActionView {
        match self {
            Action::Quit => ActionView::Quit,
            Action::Save(path) => ActionView::Save(
                match path {
                    Some(path) => Some(path@),
                    None => None,
                },
            ),
            Action::EnterCommandMode => ActionView::EnterCommandMode,
            Action::EnterNormalMode => ActionView::EnterNormalMode,
            Action::CommandPush(c) => ActionView::CommandPush(*c),
            Action::CommandPop => ActionView::CommandPop,
            Action::Resize(width, height) => ActionView::Resize(*width, *height),
            Action::Erase => ActionView::Erase,
            Action::SetColor(choice) => ActionView::SetColor(*choice),
            Action::Execute(command) => ActionView::Execute(command@),
        }
    }
}

/// What is left to do outside the editor's own state once an action was
/// performed.
#[derive(Debug)]
pub enum Effect {
    /// Nothing.
    Nothing,
    /// Write the drawing to the file at this path.
    Write(String),
    /// Show this message.
    Message(String),
    /// Run this script.
    Script(String),
}

/// An effect as the contracts see it.
pub enum EffectView {
    Nothing,
    Write(Seq<char>),
    Message(Seq<char>),
    Script(Seq<char>),
}

impl View for Effect {
    type V = EffectView;

    open spec fn view(&self) -> EffectView {
        match self {
            Effect::Nothing => EffectView::Nothing,
            Effect::Write(path) => EffectView::Write(path@),
            Effect::Message(text) => EffectView::Message(text@),
            Effect::Script(script) => EffectView::Script(script@),
        }
    }
}

} // verus!

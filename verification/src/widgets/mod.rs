//! What the editor shows: the canvas in its workspace, the status bar and
//! the command bar.

pub mod buffer;
pub mod canvas;
pub mod command_bar;
pub mod status_bar;
pub mod workspace;

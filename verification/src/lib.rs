//! The raster core of a terminal pixel-art editor.
//!
//! A drawing is a rectangular grid of RGBA pixels. It is shown in a terminal
//! with half-block glyphs, two pixel rows per character cell, over a
//! checkerboard that stands for transparency, and edited with the mouse,
//! whose position the terminal reports in hardware pixels.

pub mod cli;
pub mod config;
pub mod drawing;
pub mod layout;
pub mod session;
pub mod text;
pub mod utils;
pub mod widgets;

//! The terminal emulation of `shellshot`.
//!
//! The bytes that a command writes to its terminal are decoded into actions
//! ([`escape`]), the actions are carried out on a screen of attributed cells
//! ([`screen`], [`terminal_builder`]), and the screen is cropped to its
//! content.  What the renderer computes before it draws is here too
//! ([`image_renderer`], [`window_decoration`]).
//!
//! The cells are kept and the bytes are decoded by `termwiz`.  What is
//! taken on trust of it is stated in [`surface`] and [`escape::parser`], in
//! terms of the models in [`grid`] and [`escape`]; everything else is proved
//! by Verus against those statements.

pub mod app;
pub mod cell;
pub mod constants;
pub mod escape;
pub mod grid;
pub mod image_renderer;
pub mod os_command;
pub mod pty_executor;
pub mod report;
pub mod screen;
pub mod surface;
pub mod terminal_builder;
pub mod text;
pub mod window_decoration;

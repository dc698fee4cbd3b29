//! A tile world with a single movable glyph.
//!
//! The world is a fixed square grid of coloured tiles with one wall at its
//! centre. A player, drawn as a character, moves over it by whole tiles in
//! answer to arrow-key presses. The library holds the state, the rule that
//! turns an input event into the next state, and the list of drawing
//! commands that make up one frame; opening a window and putting pixels on
//! it is left to the caller.

pub mod color;
pub mod tile;
pub mod grid;
pub mod input;
pub mod object;
pub mod render;
pub mod game;
pub mod window;

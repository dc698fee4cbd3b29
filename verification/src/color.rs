//! Colours of tiles and glyphs.

use vstd::prelude::*;

verus! {

/// An RGBA colour: red, green, blue and alpha, in that order, with eight
/// bits per channel. 0 is none of a channel and 255 all of it; an alpha of
/// 255 is fully opaque.
pub type Color = [u8; 4];

pub const RED: Color = [255, 0, 0, 255];

pub const GREEN: Color = [0, 255, 0, 255];

pub const BLUE: Color = [0, 0, 255, 255];

pub const WHITE: Color = [255, 255, 255, 255];

pub const BLACK: Color = [0, 0, 0, 255];

} // verus!

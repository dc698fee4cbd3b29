//! What the world asks of the window that shows it.

use vstd::prelude::*;
use crate::grid::WINDOW_SIZE;

verus! {

/// The title of the window.
pub const WINDOW_TITLE: &'static str = "Game";

/// Width of the window, in pixels.
pub const SCREEN_WIDTH: u32 = 992;

/// Height of the window, in pixels.
pub const SCREEN_HEIGHT: u32 = 992;

/// Where the font of the player's glyph is read from, relative to the
/// directory the program runs in.
pub const FONT_PATH: &'static str = "assets/FiraSans-Regular.ttf";

/// The window is large enough to show the whole world, which covers the
/// square of `WINDOW_SIZE` pixels in its top-left corner.
pub proof fn lemma_world_fits_the_window()
    ensures
        WINDOW_SIZE <= SCREEN_WIDTH,
        WINDOW_SIZE <= SCREEN_HEIGHT,
{
}

} // verus!

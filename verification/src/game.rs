//! The world as a whole, and what one tick of the event loop does to it.

use vstd::prelude::*;
use crate::color::RED;
use crate::grid::{initial_tiles, make_map, Grid};
use crate::input::ButtonArgs;
use crate::object::Object;
use crate::render::{frame, render, DrawCommand};

verus! {

/// What the event loop can hand to the world.
#[derive(Clone, Copy, Debug, PartialEq, Eq, Structural)]
pub enum Event {
    /// It is time to draw a frame.
    Render,
    /// A button was pressed or released.
    Button(ButtonArgs),
    /// Anything else.
    Other,
}

/// The whole state: the grid and the player on it.
#[derive(Debug, PartialEq, Eq)]
pub struct Game {
    pub map: Grid,
    pub player: Object,
}

impl Game {
    /// The world after `event`: the same grid, and the player moved by a
    /// button event and left alone by anything else.
    pub open spec fn after(self, event: Event) -> Game {
        Game {
            map: self.map,
            player: match event {
                Event::Button(args) => self.player.moved(args),
                _ => self.player,
            },
        }
    }

    /// What is drawn in answer to `event`: a frame for a render event,
    /// nothing for anything else.
    pub open spec fn drawn(self, event: Event) -> Seq<DrawCommand> {
        match event {
            Event::Render => frame(self.map@, self.player),
            _ => Seq::empty(),
        }
    }

    /// Whether the world can take `event`: whether a button event among
    /// them leaves the player's position within its type.
    pub open spec fn spec_accepts(&self, event: Event) -> bool {
        match event {
            Event::Button(args) => self.player.spec_can_move(args),
            _ => true,
        }
    }

    /// The world at the start: a fresh grid, and a red `@` in its top-left
    /// corner.
    pub fn new() -> (game: Game)
        ensures
            game.map@ == initial_tiles(),
            game.player == (Object { x_pos: 0, y_pos: 0, character: '@', color: RED }),
    {
        Game { map: make_map(), player: Object::new(0, 0, '@', RED) }
    }

    /// Tells whether `tick` may be called with `event`.
    #[verifier::when_used_as_spec(spec_accepts)]
    pub fn accepts(&self, event: Event) -> (fits: bool)
        ensures
            fits == self.spec_accepts(event),
    {
        match event {
            Event::Button(args) => self.player.can_move(args),
            _ => true,
        }
    }

    /// One tick of the event loop. A render event leaves the world as it
    /// is and returns the frame to draw. A button event moves the player
    /// and draws nothing. Any other event does neither. The grid never
    /// changes.
    pub fn tick(&mut self, event: Event) -> (commands: Vec<DrawCommand>)
        requires
            old(self).spec_accepts(event),
        ensures
            *final(self) == old(self).after(event),
            final(self).map == old(self).map,
            commands@ == old(self).drawn(event),
    {
        match event {
            Event::Render => render(&self.map, &self.player),
            Event::Button(args) => {
                self.player.handle_button(args);
                Vec::new()
            },
            Event::Other => Vec::new(),
        }
    }
}

/// A frame depends on nothing but the tiles and the player: two worlds
/// that agree on both are drawn with the same commands.
pub proof fn lemma_frame_depends_on_state_only(first: Game, second: Game)
    requires
        first.map@ == second.map@,
        first.player == second.player,
    ensures
        first.drawn(Event::Render) == second.drawn(Event::Render),
{
}

/// Drawing changes nothing. So a world can always be drawn, it is the
/// same world afterwards, and drawn again it gives the same commands in
/// the same order.
pub proof fn lemma_render_twice(game: Game)
    ensures
        game.spec_accepts(Event::Render),
        game.after(Event::Render) == game,
        game.after(Event::Render).drawn(Event::Render) == game.drawn(Event::Render),
{
}

} // verus!

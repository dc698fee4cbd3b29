//! The player.

use vstd::prelude::*;
use crate::color::Color;
use crate::grid::TILE_SIZE;
use crate::input::{pressed_arrow, step_x, step_y, Button, ButtonArgs, ButtonState, Key};

verus! {

/// Something that stands in the world and is drawn as a character: the
/// player. Its position is in pixels, from the top-left corner of the
/// world, `x_pos` to the right and `y_pos` down. Nothing keeps it on
/// the grid or off the wall.
#[derive(Clone, Copy, Debug, PartialEq, Eq)]
pub struct Object {
    pub x_pos: i32,
    pub y_pos: i32,
    pub character: char,
    pub color: Color,
}

impl Object {
    /// Whether this object can take the button event `args`: whether the
    /// position it moves to still fits the coordinates' type.
    pub open spec fn spec_can_move(&self, args: ButtonArgs) -> bool {
        &&& i32::MIN <= self.x_pos + step_x(pressed_arrow(args)) <= i32::MAX
        &&& i32::MIN <= self.y_pos + step_y(pressed_arrow(args)) <= i32::MAX
    }

    /// This object after the button event `args`: one tile further in the
    /// direction of the arrow key that was pressed, and where it was after
    /// any other event. Glyph and colour stay.
    pub open spec fn moved(self, args: ButtonArgs) -> Object {
        Object {
            x_pos: (self.x_pos + step_x(pressed_arrow(args))) as i32,
            y_pos: (self.y_pos + step_y(pressed_arrow(args))) as i32,
            character: self.character,
            color: self.color,
        }
    }

    /// This object after `count` presses of `key`, one after the other.
    pub open spec fn pressed_times(self, key: Key, count: nat) -> Object
        decreases count,
    {
        if count == 0 {
            self
        } else {
            self.pressed_times(key, (count - 1) as nat).moved(ButtonArgs::press(Button::Keyboard(key)))
        }
    }

    /// An object at (`x_pos`, `y_pos`), drawn as `character` in `color`.
    pub fn new(x_pos: i32, y_pos: i32, character: char, color: Color) -> (object: Object)
        ensures
            object == (Object { x_pos, y_pos, character, color }),
    {
        Object { x_pos, y_pos, character, color }
    }

    /// Tells whether `handle_button` may be called with `args`.
    #[verifier::when_used_as_spec(spec_can_move)]
    pub fn can_move(&self, args: ButtonArgs) -> (fits: bool)
        ensures
            fits == self.spec_can_move(args),
    {
        match args.state {
            ButtonState::Press => match args.button {
                Button::Keyboard(Key::Up) => self.y_pos >= i32::MIN + TILE_SIZE,
                Button::Keyboard(Key::Down) => self.y_pos <= i32::MAX - TILE_SIZE,
                Button::Keyboard(Key::Left) => self.x_pos >= i32::MIN + TILE_SIZE,
                Button::Keyboard(Key::Right) => self.x_pos <= i32::MAX - TILE_SIZE,
                _ => true,
            },
            ButtonState::Release => true,
        }
    }

    /// Reacts to a button event. A press of an arrow key moves the object
    /// by one tile: up and left towards smaller coordinates, down and
    /// right towards larger ones. A release, and a press of anything
    /// else, changes nothing.
    pub fn handle_button(&mut self, args: ButtonArgs)
        requires
            old(self).spec_can_move(args),
        ensures
            *final(self) == old(self).moved(args),
            final(self).x_pos == old(self).x_pos + step_x(pressed_arrow(args)),
            final(self).y_pos == old(self).y_pos + step_y(pressed_arrow(args)),
    {
        match args.state {
            ButtonState::Press => match args.button {
                Button::Keyboard(Key::Up) => self.y_pos -= TILE_SIZE,
                Button::Keyboard(Key::Down) => self.y_pos += TILE_SIZE,
                Button::Keyboard(Key::Left) => self.x_pos -= TILE_SIZE,
                Button::Keyboard(Key::Right) => self.x_pos += TILE_SIZE,
                _ => (),
            },
            ButtonState::Release => (),
        }
    }
}

/// A press of an arrow key moves the player by exactly one tile, which is
/// 32 pixels: Up takes 32 from `y_pos`, Down adds 32 to it, Left takes 32
/// from `x_pos` and Right adds 32 to it, and the other coordinate stays.
/// A press of any other key, or of a button that is no key, leaves the
/// player where it is.
pub proof fn lemma_press_moves_one_tile(player: Object, button: Button)
    requires
        player.spec_can_move(ButtonArgs::press(button)),
    ensures
        TILE_SIZE == 32,
        ({
            let next = player.moved(ButtonArgs::press(button));
            &&& button == Button::Keyboard(Key::Up) ==> next.x_pos == player.x_pos && next.y_pos
                == player.y_pos - 32
            &&& button == Button::Keyboard(Key::Down) ==> next.x_pos == player.x_pos && next.y_pos
                == player.y_pos + 32
            &&& button == Button::Keyboard(Key::Left) ==> next.x_pos == player.x_pos - 32
                && next.y_pos == player.y_pos
            &&& button == Button::Keyboard(Key::Right) ==> next.x_pos == player.x_pos + 32
                && next.y_pos == player.y_pos
            &&& button == Button::Keyboard(Key::Other) || button == Button::Other ==> next
                == player
            &&& next.character == player.character
            &&& next.color == player.color
        }),
{
}

/// A release never moves the player, whatever was released, and the
/// player can always take it.
pub proof fn lemma_release_changes_nothing(player: Object, button: Button)
    ensures
        player.spec_can_move(ButtonArgs::release(button)),
        player.moved(ButtonArgs::release(button)) == player,
{
}

/// Presses of one key add up: `count` of them move the player `count`
/// times as far as one, as long as that position fits the coordinates'
/// type. Every press on the way there can be taken.
pub proof fn lemma_presses_add_up(player: Object, key: Key, count: nat)
    requires
        i32::MIN <= player.x_pos + count * step_x(key) <= i32::MAX,
        i32::MIN <= player.y_pos + count * step_y(key) <= i32::MAX,
    ensures
        player.pressed_times(key, count).x_pos == player.x_pos + count * step_x(key),
        player.pressed_times(key, count).y_pos == player.y_pos + count * step_y(key),
        forall|done: nat| done < count ==> (#[trigger] player.pressed_times(key, done)).spec_can_move(
            ButtonArgs::press(Button::Keyboard(key)),
        ),
    decreases count,
{
    let ahead = ButtonArgs::press(Button::Keyboard(key));
    if count == 0 {
        assert(count * step_x(key) == 0 && count * step_y(key) == 0) by (nonlinear_arith)
            requires
                count == 0,
        ;
    } else {
        let before = (count - 1) as nat;
        lemma_part_way(player.x_pos as int, step_x(key), count);
        lemma_part_way(player.y_pos as int, step_y(key), count);
        lemma_presses_add_up(player, key, before);
        assert(player.pressed_times(key, before).spec_can_move(ahead));
        assert(player.pressed_times(key, count) == player.pressed_times(key, before).moved(ahead));
    }
}

/// On a straight walk of `count` steps, the place reached one step
/// before the end lies between the start and the end, one step short.
proof fn lemma_part_way(start: int, step: int, count: nat)
    requires
        0 < count,
        i32::MIN <= start <= i32::MAX,
        i32::MIN <= start + count * step <= i32::MAX,
    ensures
        i32::MIN <= start + (count - 1) * step <= i32::MAX,
        start + count * step == start + (count - 1) * step + step,
{
    assert(count * step == (count - 1) * step + step) by (nonlinear_arith);
    if step >= 0 {
        assert(0 <= (count - 1) * step <= count * step) by (nonlinear_arith)
            requires
                0 < count,
                step >= 0,
        ;
    } else {
        assert(count * step <= (count - 1) * step <= 0) by (nonlinear_arith)
            requires
                0 < count,
                step < 0,
        ;
    }
}

/// Nothing holds the player on the grid. From the left edge, where
/// `x_pos` is 0, every press of Left takes it one tile further into the
/// negative: after `count` presses it stands at minus 32 times `count`.
pub proof fn lemma_left_leaves_the_grid(player: Object, count: nat)
    requires
        player.x_pos == 0,
        0 < count,
        -32 * count >= i32::MIN,
    ensures
        player.pressed_times(Key::Left, count).x_pos == -32 * count,
        player.pressed_times(Key::Left, count).x_pos < 0,
        player.pressed_times(Key::Left, count).y_pos == player.y_pos,
{
    assert(count * step_x(Key::Left) == -32 * count) by (nonlinear_arith)
        requires
            step_x(Key::Left) == -32,
    ;
    assert(count * step_y(Key::Left) == 0) by (nonlinear_arith)
        requires
            step_y(Key::Left) == 0,
    ;
    lemma_presses_add_up(player, Key::Left, count);
}

} // verus!

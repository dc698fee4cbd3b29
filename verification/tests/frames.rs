use tile_walk::color::{BLACK, GREEN, RED, WHITE};
use tile_walk::game::{Event, Game};
use tile_walk::grid::make_map;
use tile_walk::input::{Button, ButtonArgs, ButtonState, Key};
use tile_walk::object::Object;
use tile_walk::render::{render, DrawCommand};

fn press(key: Key) -> Event {
    Event::Button(ButtonArgs { state: ButtonState::Press, button: Button::Keyboard(key) })
}

fn release(key: Key) -> Event {
    Event::Button(ButtonArgs { state: ButtonState::Release, button: Button::Keyboard(key) })
}

#[test]
fn a_frame_has_257_commands() {
    let commands = render(&make_map(), &Object::new(0, 0, '@', RED));
    assert_eq!(commands.len(), 257);
}

#[test]
fn tiles_are_drawn_column_by_column() {
    let commands = render(&make_map(), &Object::new(0, 0, '@', RED));
    for col in 0..16 {
        for row in 0..16 {
            let color = if (col, row) == (8, 8) { BLACK } else { WHITE };
            let expected = DrawCommand::Rectangle {
                x: 32 * col,
                y: 32 * row,
                width: 32,
                height: 32,
                color,
            };
            assert_eq!(commands[(16 * col + row) as usize], expected);
        }
    }
}

#[test]
fn one_tile_is_drawn_where_it_stands() {
    let commands = render(&make_map(), &Object::new(0, 0, '@', RED));
    assert_eq!(
        commands[53],
        DrawCommand::Rectangle { x: 96, y: 160, width: 32, height: 32, color: WHITE }
    );
    assert_eq!(
        commands[1],
        DrawCommand::Rectangle { x: 0, y: 32, width: 32, height: 32, color: WHITE }
    );
    assert_eq!(
        commands[16],
        DrawCommand::Rectangle { x: 32, y: 0, width: 32, height: 32, color: WHITE }
    );
    assert_eq!(
        commands[255],
        DrawCommand::Rectangle { x: 480, y: 480, width: 32, height: 32, color: WHITE }
    );
}

#[test]
fn the_wall_is_drawn_black_at_the_centre() {
    let commands = render(&make_map(), &Object::new(0, 0, '@', RED));
    assert_eq!(
        commands[136],
        DrawCommand::Rectangle { x: 256, y: 256, width: 32, height: 32, color: BLACK }
    );
    let black = commands
        .iter()
        .filter(|command| matches!(command, DrawCommand::Rectangle { color: BLACK, .. }))
        .count();
    assert_eq!(black, 1);
}

#[test]
fn the_player_is_drawn_last() {
    let commands = render(&make_map(), &Object::new(64, 96, '@', RED));
    assert_eq!(
        commands[256],
        DrawCommand::Glyph { x: 64, y: 96, size: 32, character: '@', color: RED }
    );
    let glyphs = commands
        .iter()
        .filter(|command| matches!(command, DrawCommand::Glyph { .. }))
        .count();
    assert_eq!(glyphs, 1);
}

#[test]
fn the_player_is_drawn_at_its_raw_position() {
    let commands = render(&make_map(), &Object::new(-96, 1000, 'g', GREEN));
    assert_eq!(
        commands[256],
        DrawCommand::Glyph { x: -96, y: 1000, size: 32, character: 'g', color: GREEN }
    );
}

#[test]
fn rendering_twice_gives_the_same_commands() {
    let map = make_map();
    let player = Object::new(32, 64, '@', RED);
    let first = render(&map, &player);
    let second = render(&map, &player);
    assert_eq!(first, second);
}

#[test]
fn equal_states_give_equal_frames() {
    let first = render(&make_map(), &Object::new(32, 64, '@', RED));
    let second = render(&make_map(), &Object::new(32, 64, '@', RED));
    assert_eq!(first, second);
}

#[test]
fn a_moved_player_changes_only_the_last_command() {
    let map = make_map();
    let first = render(&map, &Object::new(0, 0, '@', RED));
    let second = render(&map, &Object::new(32, 0, '@', RED));
    assert_eq!(first[..256], second[..256]);
    assert_ne!(first[256], second[256]);
}

#[test]
fn a_new_game_starts_in_the_corner() {
    let game = Game::new();
    assert_eq!(game.player, Object::new(0, 0, '@', RED));
    assert_eq!(game.map, make_map());
}

#[test]
fn a_render_tick_draws_and_changes_nothing() {
    let mut game = Game::new();
    let commands = game.tick(Event::Render);
    assert_eq!(commands, render(&make_map(), &Object::new(0, 0, '@', RED)));
    assert_eq!(game.player, Object::new(0, 0, '@', RED));
    assert_eq!(game.map, make_map());
}

#[test]
fn two_render_ticks_draw_the_same() {
    let mut game = Game::new();
    game.tick(press(Key::Down));
    let first = game.tick(Event::Render);
    let second = game.tick(Event::Render);
    assert_eq!(first.len(), 257);
    assert_eq!(first, second);
}

#[test]
fn a_button_tick_moves_and_draws_nothing() {
    let mut game = Game::new();
    let commands = game.tick(press(Key::Right));
    assert!(commands.is_empty());
    assert_eq!(game.player, Object::new(32, 0, '@', RED));
    let commands = game.tick(press(Key::Down));
    assert!(commands.is_empty());
    assert_eq!(game.player, Object::new(32, 32, '@', RED));
    assert_eq!(game.map, make_map());
}

#[test]
fn a_release_tick_changes_nothing() {
    let mut game = Game::new();
    for key in [Key::Up, Key::Down, Key::Left, Key::Right, Key::Other] {
        assert!(game.accepts(release(key)));
        let commands = game.tick(release(key));
        assert!(commands.is_empty());
        assert_eq!(game.player, Object::new(0, 0, '@', RED));
    }
}

#[test]
fn any_other_tick_changes_nothing() {
    let mut game = Game::new();
    assert!(game.accepts(Event::Other));
    let commands = game.tick(Event::Other);
    assert!(commands.is_empty());
    assert_eq!(game.player, Object::new(0, 0, '@', RED));
    assert_eq!(game.map, make_map());
}

#[test]
fn the_frame_follows_the_player() {
    let mut game = Game::new();
    game.tick(press(Key::Left));
    game.tick(press(Key::Left));
    game.tick(press(Key::Up));
    let commands = game.tick(Event::Render);
    assert_eq!(
        commands[256],
        DrawCommand::Glyph { x: -64, y: -32, size: 32, character: '@', color: RED }
    );
}

#[test]
fn a_game_accepts_what_its_player_can_take() {
    let mut game = Game::new();
    game.player = Object::new(i32::MIN, i32::MAX, '@', RED);
    assert!(!game.accepts(press(Key::Left)));
    assert!(!game.accepts(press(Key::Down)));
    assert!(game.accepts(press(Key::Right)));
    assert!(game.accepts(press(Key::Up)));
    assert!(game.accepts(Event::Render));
    assert!(game.accepts(release(Key::Left)));
}

use tilepaste::atlas::TileAtlas;
use tilepaste::error::Error;
use tilepaste::game::{DrawCall, Game};
use tilepaste::input::{InputEvent, Key, KeyState};
use tilepaste::projector::{AspectRatio, Projector};
use tilepaste::tile::Tile;
use tilepaste::tilemap::TileMap;

fn press(key: Key) -> InputEvent {
    InputEvent::Keyboard { state: KeyState::Pressed, key: Some(key) }
}

fn release(key: Key) -> InputEvent {
    InputEvent::Keyboard { state: KeyState::Released, key: Some(key) }
}

/// A 5 by 5 map with a collectible tile under the player at `(1, 1)` and a
/// window of 3 by 3 cells.
fn small_game() -> Game {
    let mut map = TileMap::new(5, 5);
    map.set(1, 1, 14).unwrap();
    Game::new(TileAtlas::new(16, 16), map, Projector::new(2, 3).unwrap(), 3, 3, 13, 1, 1).unwrap()
}

fn player_at(game: &Game) -> (u32, u32) {
    (game.player().x(), game.player().y())
}

fn origin(game: &Game) -> (u32, u32) {
    (game.viewport().origin_x(), game.viewport().origin_y())
}

#[test]
fn new_game_starts_without_score_at_the_top_left() {
    let game = small_game();
    assert_eq!(game.score(), 0);
    assert_eq!(player_at(&game), (1, 1));
    assert_eq!(game.player().atlas_entry(), 13);
    assert_eq!(origin(&game), (0, 0));
    assert_eq!((game.viewport().width(), game.viewport().height()), (3, 3));
    assert_eq!((game.viewport().map_width(), game.viewport().map_height()), (5, 5));
    assert_eq!((game.player().map_width(), game.player().map_height()), (5, 5));
    assert_eq!((game.atlas().cols(), game.atlas().rows()), (16, 16));
    assert_eq!((game.projector().scale_num(), game.projector().scale_den()), (2, 3));
    assert_eq!(game.map().get(1, 1), Ok(Tile { tex_id: 14 }));
}

#[test]
fn new_game_cuts_the_window_down_to_the_map() {
    let game = Game::new(
        TileAtlas::new(16, 16),
        TileMap::new(4, 2),
        Projector::new(2, 11).unwrap(),
        11,
        11,
        13,
        0,
        0,
    )
    .unwrap();
    assert_eq!((game.viewport().width(), game.viewport().height()), (4, 2));
}

#[test]
fn new_game_rejects_player_outside_the_map() {
    let r = Game::new(
        TileAtlas::new(16, 16),
        TileMap::new(5, 5),
        Projector::new(2, 3).unwrap(),
        3,
        3,
        13,
        5,
        1,
    );
    assert_eq!(r.err(), Some(Error::OutOfBounds));
}

#[test]
fn new_game_rejects_player_entry_that_the_atlas_lacks() {
    let r = Game::new(
        TileAtlas::new(2, 2),
        TileMap::new(5, 5),
        Projector::new(2, 3).unwrap(),
        3,
        3,
        4,
        1,
        1,
    );
    assert_eq!(r.err(), Some(Error::InvalidAtlasEntry));
}

#[test]
fn new_game_rejects_tile_entry_that_the_atlas_lacks() {
    let mut map = TileMap::new(5, 5);
    map.set(4, 4, 14).unwrap();
    let r = Game::new(TileAtlas::new(2, 2), map, Projector::new(2, 3).unwrap(), 3, 3, 1, 1, 1);
    assert_eq!(r.err(), Some(Error::InvalidAtlasEntry));
}

#[test]
fn new_game_reports_out_of_bounds_before_invalid_entry() {
    let r = Game::new(
        TileAtlas::new(0, 0),
        TileMap::new(5, 5),
        Projector::new(2, 3).unwrap(),
        3,
        3,
        99,
        9,
        9,
    );
    assert_eq!(r.err(), Some(Error::OutOfBounds));
}

#[test]
fn collect_check_collects_the_tile_under_the_player() {
    let mut game = small_game();
    assert!(game.collect_check());
    assert_eq!(game.map().get(1, 1), Ok(Tile { tex_id: 12 }));
    assert_eq!(game.score(), 1);
}

#[test]
fn collect_check_twice_counts_once() {
    let mut game = small_game();
    assert!(game.collect_check());
    assert!(!game.collect_check());
    assert!(!game.collect_check());
    assert_eq!(game.score(), 1);
    assert_eq!(game.map().get(1, 1), Ok(Tile { tex_id: 12 }));
}

#[test]
fn collect_check_leaves_other_tiles_alone() {
    let mut map = TileMap::new(3, 3);
    map.set(0, 0, 14).unwrap();
    map.set(2, 2, 14).unwrap();
    map.set(1, 0, 7).unwrap();
    let mut game =
        Game::new(TileAtlas::new(16, 16), map, Projector::new(2, 3).unwrap(), 3, 3, 13, 0, 0)
            .unwrap();
    assert!(game.collect_check());
    assert_eq!(game.map().get(0, 0), Ok(Tile { tex_id: 12 }));
    assert_eq!(game.map().get(2, 2), Ok(Tile { tex_id: 14 }));
    assert_eq!(game.map().get(1, 0), Ok(Tile { tex_id: 7 }));
    assert_eq!(game.map().get(1, 1), Ok(Tile { tex_id: 0 }));
    assert_eq!(player_at(&game), (0, 0));
    assert_eq!(origin(&game), (0, 0));
}

#[test]
fn collect_check_on_normal_or_collected_tile_does_nothing() {
    for entry in [0usize, 12, 13, 15] {
        let mut map = TileMap::new(3, 3);
        map.set(1, 1, entry).unwrap();
        let mut game =
            Game::new(TileAtlas::new(16, 16), map, Projector::new(2, 3).unwrap(), 3, 3, 13, 1, 1)
                .unwrap();
        assert!(!game.collect_check());
        assert_eq!(game.score(), 0);
        assert_eq!(game.map().get(1, 1), Ok(Tile { tex_id: entry }));
    }
}

#[test]
fn score_counts_every_collected_tile() {
    let mut map = TileMap::new(4, 1);
    for x in 0..4 {
        map.set(x, 0, 14).unwrap();
    }
    let mut game =
        Game::new(TileAtlas::new(16, 16), map, Projector::new(2, 3).unwrap(), 2, 1, 13, 0, 0)
            .unwrap();
    for expected in 1..=4 {
        assert!(game.collect_check());
        assert_eq!(game.score(), expected);
        game.handle_event(press(Key::D));
    }
    assert!(!game.collect_check());
    assert_eq!(game.score(), 4);
}

#[test]
fn end_to_end_scenario() {
    let mut game = small_game();
    // One collect check of the frame loop.
    assert!(game.collect_check());
    assert_eq!(game.map().get(1, 1), Ok(Tile { tex_id: 12 }));
    assert_eq!(game.score(), 1);
    // A press of the key for "right".
    assert!(!game.handle_event(press(Key::D)));
    assert_eq!(player_at(&game), (2, 1));
    assert_eq!(origin(&game), (1, 0));
    // Moving on pans the window until it stops at 5 - 3.
    assert!(!game.handle_event(press(Key::D)));
    assert_eq!(player_at(&game), (3, 1));
    assert_eq!(origin(&game), (2, 0));
    assert!(!game.handle_event(press(Key::D)));
    assert_eq!(player_at(&game), (4, 1));
    assert_eq!(origin(&game), (2, 0));
    assert!(!game.handle_event(press(Key::D)));
    assert_eq!(player_at(&game), (4, 1));
    assert_eq!(origin(&game), (2, 0));
    assert_eq!(game.score(), 1);
}

#[test]
fn handle_event_moves_player_and_window_in_all_directions() {
    let mut game = small_game();
    game.handle_event(press(Key::S));
    assert_eq!((player_at(&game), origin(&game)), ((1, 2), (0, 1)));
    game.handle_event(press(Key::D));
    assert_eq!((player_at(&game), origin(&game)), ((2, 2), (1, 1)));
    game.handle_event(press(Key::W));
    assert_eq!((player_at(&game), origin(&game)), ((2, 1), (1, 0)));
    game.handle_event(press(Key::A));
    assert_eq!((player_at(&game), origin(&game)), ((1, 1), (0, 0)));
    game.handle_event(press(Key::W));
    assert_eq!((player_at(&game), origin(&game)), ((1, 0), (0, 0)));
}

#[test]
fn handle_event_quits_on_close_and_on_q() {
    let mut game = small_game();
    assert!(game.handle_event(InputEvent::Closed));
    assert!(game.handle_event(press(Key::Q)));
    assert!(!game.handle_event(release(Key::Q)));
    assert_eq!((player_at(&game), origin(&game)), ((1, 1), (0, 0)));
}

#[test]
fn handle_event_ignores_everything_else() {
    let mut game = small_game();
    for event in [
        InputEvent::Other,
        release(Key::D),
        press(Key::Other),
        InputEvent::Keyboard { state: KeyState::Pressed, key: None },
    ] {
        assert!(!game.handle_event(event));
        assert_eq!((player_at(&game), origin(&game)), ((1, 1), (0, 0)));
    }
    assert_eq!(game.score(), 0);
    assert_eq!(game.map().get(1, 1), Ok(Tile { tex_id: 14 }));
}

#[test]
fn process_events_applies_each_press_once_in_order() {
    let mut game = small_game();
    let events =
        vec![press(Key::D), release(Key::D), InputEvent::Other, press(Key::S), press(Key::D)];
    assert!(!game.process_events(&events));
    assert_eq!((player_at(&game), origin(&game)), ((3, 2), (2, 1)));
}

#[test]
fn process_events_stops_at_the_first_quit() {
    let mut game = small_game();
    let events = vec![press(Key::D), press(Key::Q), press(Key::D), press(Key::D)];
    assert!(game.process_events(&events));
    assert_eq!((player_at(&game), origin(&game)), ((2, 1), (1, 0)));
    let mut game = small_game();
    assert!(game.process_events(&vec![InputEvent::Closed, press(Key::S)]));
    assert_eq!((player_at(&game), origin(&game)), ((1, 1), (0, 0)));
}

#[test]
fn process_events_without_events_changes_nothing() {
    let mut game = small_game();
    assert!(!game.process_events(&vec![]));
    assert_eq!((player_at(&game), origin(&game)), ((1, 1), (0, 0)));
}

#[test]
fn draw_list_has_one_quad_per_visible_tile_and_the_player_last() {
    let game = small_game();
    let aspect = AspectRatio::new(800, 600).unwrap();
    let calls = game.draw_list(&aspect);
    assert_eq!(calls.len(), 10);
    let viewport = game.viewport();
    for (i, call) in calls[..9].iter().enumerate() {
        let (x, y) = ((i % 3) as u32, (i / 3) as u32);
        let entry = if (x, y) == (1, 1) { 14 } else { 0 };
        assert_eq!(
            *call,
            DrawCall {
                x,
                y,
                entry,
                rect: game.atlas().rect_for(entry).unwrap(),
                transform: game.projector().transform_for(x, y, &viewport, &aspect),
            }
        );
    }
    assert_eq!(
        calls[9],
        DrawCall {
            x: 1,
            y: 1,
            entry: 13,
            rect: game.atlas().rect_for(13).unwrap(),
            transform: game.projector().transform_for(1, 1, &viewport, &aspect),
        }
    );
}

#[test]
fn draw_list_follows_the_window() {
    let mut game = small_game();
    game.process_events(&vec![press(Key::D), press(Key::D), press(Key::S)]);
    assert_eq!(origin(&game), (2, 1));
    let calls = game.draw_list(&AspectRatio::new(1, 1).unwrap());
    let cells: Vec<(u32, u32)> = calls.iter().map(|c| (c.x, c.y)).collect();
    assert_eq!(
        cells,
        vec![(2, 1), (3, 1), (4, 1), (2, 2), (3, 2), (4, 2), (2, 3), (3, 3), (4, 3), (3, 2)]
    );
}

#[test]
fn draw_list_draws_the_player_even_outside_the_window() {
    // The window starts at the top left; the player starts to the right of it.
    let game = Game::new(
        TileAtlas::new(16, 16),
        TileMap::new(5, 5),
        Projector::new(2, 3).unwrap(),
        3,
        3,
        13,
        4,
        1,
    )
    .unwrap();
    assert_eq!((player_at(&game), origin(&game)), ((4, 1), (0, 0)));
    let aspect = AspectRatio::new(1, 1).unwrap();
    let calls = game.draw_list(&aspect);
    assert_eq!(calls.len(), 10);
    assert!(calls[..9].iter().all(|c| c.x < 3 && c.y < 3));
    assert_eq!(
        calls[9],
        DrawCall {
            x: 4,
            y: 1,
            entry: 13,
            rect: game.atlas().rect_for(13).unwrap(),
            transform: game.projector().transform_for(4, 1, &game.viewport(), &aspect),
        }
    );
    // Three cells right of the window's middle column: outside clip space.
    assert_eq!(calls[9].transform.columns[3][0].num, 2 * 1 * (2 * 4 + 1 - 3));
    assert_eq!(calls[9].transform.columns[3][0].den, 3 * 1 * 2);
}

#[test]
fn collect_check_and_frame_without_collectible_leave_the_score() {
    let mut game = Game::new(
        TileAtlas::new(16, 16),
        TileMap::new(2, 2),
        Projector::new(2, 3).unwrap(),
        2,
        2,
        13,
        0,
        0,
    )
    .unwrap();
    assert!(!game.collect_check());
    assert_eq!(game.frame(&AspectRatio::new(1, 1).unwrap()).len(), 5);
    assert_eq!(game.score(), 0);
}

#[test]
fn frame_draws_the_state_it_starts_in_and_then_collects() {
    let mut game = small_game();
    let aspect = AspectRatio::new(800, 600).unwrap();
    let expected = game.draw_list(&aspect);
    let calls = game.frame(&aspect);
    assert_eq!(calls, expected);
    assert_eq!(calls[4].entry, 14);
    assert_eq!(game.score(), 1);
    assert_eq!(game.map().get(1, 1), Ok(Tile { tex_id: 12 }));
    let calls = game.frame(&aspect);
    assert_eq!(calls[4].entry, 12);
    assert_eq!(game.score(), 1);
}

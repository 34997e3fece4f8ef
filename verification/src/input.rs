//! Key presses: which command a key asks for, and what the command does to the
//! player and to the window over the map.

use vstd::prelude::*;
use crate::player::{Player, PlayerModel};
use crate::viewport::{Viewport, ViewportModel};

verus! {

/// A key of the keyboard, as far as the game tells keys apart.
#[derive(Clone, Copy, Debug, PartialEq, Eq, Structural)]
pub enum Key {
    W,
    A,
    S,
    D,
    Q,
    /// Any other key.
    Other,
}

/// Whether a key went down or came up.
#[derive(Clone, Copy, Debug, PartialEq, Eq, Structural)]
pub enum KeyState {
    Pressed,
    Released,
}

/// What a key press asks for.
#[derive(Clone, Copy, Debug, PartialEq, Eq, Structural)]
pub enum Command {
    Up,
    Down,
    Left,
    Right,
    Quit,
}

/// What the window reports between two frames.
#[derive(Clone, Copy, Debug, PartialEq, Eq, Structural)]
pub enum InputEvent {
    /// The window was closed.
    Closed,
    /// A key went down or came up. The key is `None` when the keyboard did not
    /// say which.
    Keyboard { state: KeyState, key: Option<Key> },
    /// Anything else.
    Other,
}

/// The command that a change of a key asks for: a press of `W`, `S`, `A` or `D`
/// moves up, down, left or right, a press of `Q` quits, and nothing else asks for
/// anything.
pub open spec fn command_of(key: Option<Key>, state: KeyState) -> Option<Command> {
    if state == KeyState::Pressed {
        match key {
            Some(Key::W) => Some(Command::Up),
            Some(Key::S) => Some(Command::Down),
            Some(Key::A) => Some(Command::Left),
            Some(Key::D) => Some(Command::Right),
            Some(Key::Q) => Some(Command::Quit),
            _ => None,
        }
    } else {
        None
    }
}

/// The player after a command: one cell in the direction asked for, if the map
/// has a cell there.
pub open spec fn moved(player: PlayerModel, command: Option<Command>) -> PlayerModel {
    match command {
        Some(Command::Up) => player.up(),
        Some(Command::Down) => player.down(),
        Some(Command::Left) => player.left(),
        Some(Command::Right) => player.right(),
        _ => player,
    }
}

/// The window after a command: one cell in the direction asked for, as far as
/// the map reaches.
pub open spec fn panned(viewport: ViewportModel, command: Option<Command>) -> ViewportModel {
    match command {
        Some(Command::Up) => viewport.pan(0, -1),
        Some(Command::Down) => viewport.pan(0, 1),
        Some(Command::Left) => viewport.pan(-1, 0),
        Some(Command::Right) => viewport.pan(1, 0),
        _ => viewport,
    }
}

/// The command that a change of a key asks for.
pub fn command_for(key: Option<Key>, state: KeyState) -> (command: Option<Command>)
    ensures
        command == command_of(key, state),
{
    match state {
        KeyState::Released => None,
        KeyState::Pressed => match key {
            Some(Key::W) => Some(Command::Up),
            Some(Key::S) => Some(Command::Down),
            Some(Key::A) => Some(Command::Left),
            Some(Key::D) => Some(Command::Right),
            Some(Key::Q) => Some(Command::Quit),
            _ => None,
        },
    }
}

/// Carries out a command on the player.
pub fn move_player(player: &mut Player, command: Option<Command>)
    ensures
        final(player)@ == moved(old(player)@, command),
        final(player)@.wf(),
{
    proof {
        use_type_invariant(&*player);
    }
    match command {
        Some(Command::Up) => player.up(),
        Some(Command::Down) => player.down(),
        Some(Command::Left) => player.left(),
        Some(Command::Right) => player.right(),
        _ => {},
    }
}

/// Carries out a command on the window: one single-step pan in the direction
/// asked for.
pub fn pan_viewport(viewport: &mut Viewport, command: Option<Command>)
    ensures
        final(viewport)@ == panned(old(viewport)@, command),
        final(viewport)@.wf(),
{
    proof {
        use_type_invariant(&*viewport);
    }
    match command {
        Some(Command::Up) => viewport.up(),
        Some(Command::Down) => viewport.down(),
        Some(Command::Left) => viewport.left(),
        Some(Command::Right) => viewport.right(),
        _ => {},
    }
}

/// Handles one change of a key. A press of `W`, `S`, `A` or `D` moves the player
/// one cell up, down, left or right and pans the window one cell the same way,
/// each as far as the map lets it; a press of `Q` asks to quit, and only then is
/// `true` returned. A released key, an unknown key and any other key change
/// nothing.
pub fn handle_input(
    key: Option<Key>,
    state: KeyState,
    player: &mut Player,
    viewport: &mut Viewport,
) -> (quit: bool)
    ensures
        final(player)@ == moved(old(player)@, command_of(key, state)),
        final(player)@.wf(),
        final(viewport)@ == panned(old(viewport)@, command_of(key, state)),
        final(viewport)@.wf(),
        quit == (command_of(key, state) == Some(Command::Quit)),
{
    let command = command_for(key, state);
    move_player(player, command);
    pan_viewport(viewport, command);
    match command {
        Some(Command::Quit) => true,
        _ => false,
    }
}

/// Only the press of a key asks for anything, one press asks for one thing, and
/// what it asks for moves the player and the window by at most one cell each,
/// along one axis, and leaves both on the map.
pub proof fn law_one_move_per_key_press(
    key: Option<Key>,
    state: KeyState,
    player: PlayerModel,
    viewport: ViewportModel,
)
    requires
        player.wf(),
        viewport.wf(),
    ensures
        state == KeyState::Released ==> command_of(key, state) is None,
        moved(player, command_of(key, state)).wf(),
        -1 <= moved(player, command_of(key, state)).x - player.x <= 1,
        -1 <= moved(player, command_of(key, state)).y - player.y <= 1,
        moved(player, command_of(key, state)).x == player.x || moved(
            player,
            command_of(key, state),
        ).y == player.y,
        panned(viewport, command_of(key, state)).wf(),
        -1 <= panned(viewport, command_of(key, state)).origin_x - viewport.origin_x <= 1,
        -1 <= panned(viewport, command_of(key, state)).origin_y - viewport.origin_y <= 1,
        panned(viewport, command_of(key, state)).origin_x == viewport.origin_x || panned(
            viewport,
            command_of(key, state),
        ).origin_y == viewport.origin_y,
        panned(viewport, command_of(key, state)).width == viewport.width,
        panned(viewport, command_of(key, state)).height == viewport.height,
{
}

} // verus!

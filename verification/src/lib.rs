//! A map of tiles seen through a window, exactly.
//!
//! The library holds what a small tile game decides and computes: which part of
//! a texture atlas an entry names, what a map of tiles holds, where the window
//! over the map may go, which matrix puts a tile on the screen, and what a frame
//! and the keyboard do to the state of the game. Positions on the screen and in
//! the texture are exact fractions; turning them into floats, drawing and
//! reading the keyboard are left to the program that uses the library.

pub mod atlas;
pub mod error;
pub mod game;
pub mod grid;
pub mod input;
pub mod player;
pub mod projector;
pub mod ratio;
pub mod tile;
pub mod tilemap;
pub mod vertex;
pub mod viewport;

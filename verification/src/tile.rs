//! One cell of the map, and the three states that its atlas entry stands for.

use vstd::prelude::*;

verus! {

/// The atlas entry of a tile that can be collected.
pub const COLLECTIBLE_TILE: usize = 14;

/// The atlas entry of a tile that has been collected.
pub const COLLECTED_TILE: usize = 12;

/// The atlas entry that a new map is filled with.
pub const DEFAULT_TILE: usize = 0;

/// What a tile means to the game.
#[derive(Clone, Copy, Debug, PartialEq, Eq, Structural)]
pub enum TileState {
    /// Neither waiting to be collected nor collected.
    Normal,
    /// Waiting to be collected.
    Collectible,
    /// Collected.
    Collected,
}

/// One cell of the map.
#[derive(Clone, Copy, Debug, PartialEq, Eq, Structural)]
pub struct Tile {
    /// The atlas entry that the cell is drawn with.
    pub tex_id: usize,
}

impl Tile {
    /// The state that the atlas entry stands for.
    pub open spec fn state_of(self) -> TileState {
        if self.tex_id == COLLECTIBLE_TILE {
            TileState::Collectible
        } else if self.tex_id == COLLECTED_TILE {
            TileState::Collected
        } else {
            TileState::Normal
        }
    }

    /// The tile after the player has stood on it: a collectible tile becomes a
    /// collected one, and every other tile stays as it is.
    pub open spec fn visited(self) -> Tile {
        if self.state_of() == TileState::Collectible {
            Tile { tex_id: COLLECTED_TILE }
        } else {
            self
        }
    }

    /// The state that the atlas entry stands for.
    pub fn state(&self) -> (s: TileState)
        ensures
            s == self.state_of(),
    {
        if self.tex_id == COLLECTIBLE_TILE {
            TileState::Collectible
        } else if self.tex_id == COLLECTED_TILE {
            TileState::Collected
        } else {
            TileState::Normal
        }
    }
}

/// The only change of state is from collectible to collected, and a tile that has
/// been visited once is not changed by another visit.
pub proof fn law_tile_transitions(tile: Tile)
    ensures
        tile.state_of() == TileState::Collectible ==> tile.visited().state_of()
            == TileState::Collected,
        tile.state_of() != TileState::Collectible ==> tile.visited() == tile,
        tile.visited().visited() == tile.visited(),
{
}

} // verus!

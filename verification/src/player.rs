//! The player: a sprite that stands on one cell of the map and moves one cell at
//! a time, never leaving the map.

use vstd::prelude::*;
use crate::error::Error;

verus! {

/// Mathematical model of a [`Player`].
pub struct PlayerModel {
    /// Column of the cell that the player stands on.
    pub x: int,
    /// Row of the cell that the player stands on.
    pub y: int,
    /// The atlas entry that the player is drawn with.
    pub atlas_entry: int,
    /// Number of columns of the map.
    pub map_width: int,
    /// Number of rows of the map.
    pub map_height: int,
}

impl PlayerModel {
    /// The player stands on a cell of the map.
    pub open spec fn wf(self) -> bool {
        &&& 0 <= self.x < self.map_width <= u32::MAX
        &&& 0 <= self.y < self.map_height <= u32::MAX
        &&& 0 <= self.atlas_entry <= usize::MAX
    }

    /// One row towards the top of the map, unless the player is in the top row.
    pub open spec fn up(self) -> PlayerModel {
        if self.y > 0 {
            PlayerModel { y: self.y - 1, ..self }
        } else {
            self
        }
    }

    /// One row towards the bottom of the map, unless the player is in the bottom
    /// row.
    pub open spec fn down(self) -> PlayerModel {
        if self.y + 1 < self.map_height {
            PlayerModel { y: self.y + 1, ..self }
        } else {
            self
        }
    }

    /// One column to the left, unless the player is in the leftmost column.
    pub open spec fn left(self) -> PlayerModel {
        if self.x > 0 {
            PlayerModel { x: self.x - 1, ..self }
        } else {
            self
        }
    }

    /// One column to the right, unless the player is in the rightmost column.
    pub open spec fn right(self) -> PlayerModel {
        if self.x + 1 < self.map_width {
            PlayerModel { x: self.x + 1, ..self }
        } else {
            self
        }
    }
}

/// The player. Where it stands can change; its sprite and the size of the map
/// that it walks on cannot.
#[derive(Clone, Copy, Debug)]
pub struct Player {
    x: u32,
    y: u32,
    atlas_entry: usize,
    map_width: u32,
    map_height: u32,
}

impl View for Player {
    type V = PlayerModel;

    closed spec fn view(&self) -> PlayerModel {
        PlayerModel {
            x: self.x as int,
            y: self.y as int,
            atlas_entry: self.atlas_entry as int,
            map_width: self.map_width as int,
            map_height: self.map_height as int,
        }
    }
}

impl Player {
    /// What every value of the type keeps: its model is well-formed.
    #[verifier::type_invariant]
    pub open spec fn inv(self) -> bool {
        self@.wf()
    }

    /// A player drawn with `atlas_entry` on the cell `(x, y)` of a map of
    /// `map_width` by `map_height` cells, or `OutOfBounds` when the map has no
    /// such cell.
    pub fn new(atlas_entry: usize, x: u32, y: u32, map_width: u32, map_height: u32) -> (r: Result<
        Player,
        Error,
    >)
        ensures
            r is Ok <==> x < map_width && y < map_height,
            r matches Ok(p) ==> p@ == (PlayerModel {
                x: x as int,
                y: y as int,
                atlas_entry: atlas_entry as int,
                map_width: map_width as int,
                map_height: map_height as int,
            }) && p@.wf(),
            r matches Err(e) ==> e == Error::OutOfBounds,
    {
        if x < map_width && y < map_height {
            Ok(Player { x, y, atlas_entry, map_width, map_height })
        } else {
            Err(Error::OutOfBounds)
        }
    }

    /// Column of the cell that the player stands on.
    pub fn x(&self) -> (r: u32)
        ensures
            r == self@.x,
            self@.wf(),
    {
        proof {
            use_type_invariant(self);
        }
        self.x
    }

    /// Row of the cell that the player stands on.
    pub fn y(&self) -> (r: u32)
        ensures
            r == self@.y,
            self@.wf(),
    {
        proof {
            use_type_invariant(self);
        }
        self.y
    }

    /// The atlas entry that the player is drawn with.
    pub fn atlas_entry(&self) -> (r: usize)
        ensures
            r == self@.atlas_entry,
            self@.wf(),
    {
        proof {
            use_type_invariant(self);
        }
        self.atlas_entry
    }

    /// Number of columns of the map that the player walks on.
    pub fn map_width(&self) -> (r: u32)
        ensures
            r == self@.map_width,
            self@.wf(),
    {
        proof {
            use_type_invariant(self);
        }
        self.map_width
    }

    /// Number of rows of the map that the player walks on.
    pub fn map_height(&self) -> (r: u32)
        ensures
            r == self@.map_height,
            self@.wf(),
    {
        proof {
            use_type_invariant(self);
        }
        self.map_height
    }

    /// Moves one row towards the top of the map, or stays in the top row.
    pub fn up(&mut self)
        ensures
            final(self)@ == old(self)@.up(),
            final(self)@.wf(),
    {
        proof {
            use_type_invariant(&*self);
        }
        if self.y > 0 {
            self.y = self.y - 1;
        }
    }

    /// Moves one row towards the bottom of the map, or stays in the bottom row.
    pub fn down(&mut self)
        ensures
            final(self)@ == old(self)@.down(),
            final(self)@.wf(),
    {
        proof {
            use_type_invariant(&*self);
        }
        if self.y < self.map_height - 1 {
            self.y = self.y + 1;
        }
    }

    /// Moves one column to the left, or stays in the leftmost column.
    pub fn left(&mut self)
        ensures
            final(self)@ == old(self)@.left(),
            final(self)@.wf(),
    {
        proof {
            use_type_invariant(&*self);
        }
        if self.x > 0 {
            self.x = self.x - 1;
        }
    }

    /// Moves one column to the right, or stays in the rightmost column.
    pub fn right(&mut self)
        ensures
            final(self)@ == old(self)@.right(),
            final(self)@.wf(),
    {
        proof {
            use_type_invariant(&*self);
        }
        if self.x < self.map_width - 1 {
            self.x = self.x + 1;
        }
    }
}

/// However the player moves, it stands on a cell of the map afterwards, at most
/// one cell from where it stood, with the same sprite.
pub proof fn law_player_stays_on_map(p: PlayerModel)
    requires
        p.wf(),
    ensures
        p.up().wf() && p.down().wf() && p.left().wf() && p.right().wf(),
        p.up().x == p.x && p.y - 1 <= p.up().y <= p.y,
        p.down().x == p.x && p.y <= p.down().y <= p.y + 1,
        p.left().y == p.y && p.x - 1 <= p.left().x <= p.x,
        p.right().y == p.y && p.x <= p.right().x <= p.x + 1,
        p.up().atlas_entry == p.atlas_entry && p.down().atlas_entry == p.atlas_entry,
        p.left().atlas_entry == p.atlas_entry && p.right().atlas_entry == p.atlas_entry,
{
}

} // verus!

//! What the grid and the atlas refuse.

use vstd::prelude::*;

verus! {

/// Why an access was refused.
#[derive(Clone, Copy, Debug, PartialEq, Eq, Structural)]
pub enum Error {
    /// A grid position outside `[0, width) x [0, height)`.
    OutOfBounds,
    /// An atlas entry at or above the number of cells of the atlas.
    InvalidAtlasEntry,
}

} // verus!

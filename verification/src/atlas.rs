//! The texture atlas: one texture cut into `cols` by `rows` equal cells, addressed
//! row by row, and the quad that shows one of its cells.

use vstd::prelude::*;
use crate::error::Error;
use crate::grid::{cell_index, index_col, index_row};
use crate::grid::{lemma_cell_index_in_range, lemma_cell_of_index, lemma_index_of_cell};
use crate::ratio::{lemma_quotient_bounds, lemma_quotient_order, lemma_unit_interval_part};
use crate::ratio::Ratio;
use crate::vertex::{quad, quad_of, Vertex};

verus! {

/// An axis-aligned rectangle in texture space, from `(u0, v0)` to `(u1, v1)`.
#[derive(Clone, Copy, Debug, PartialEq, Eq, Structural)]
pub struct TexRect {
    pub u0: Ratio,
    pub v0: Ratio,
    pub u1: Ratio,
    pub v1: Ratio,
}

impl TexRect {
    /// All four coordinates are well-formed fractions.
    pub open spec fn wf(self) -> bool {
        self.u0.wf() && self.v0.wf() && self.u1.wf() && self.v1.wf()
    }

    /// The point `(x, y)` lies in the rectangle, its border included.
    pub open spec fn contains(self, x: real, y: real) -> bool {
        &&& self.u0.value() <= x <= self.u1.value()
        &&& self.v0.value() <= y <= self.v1.value()
    }

    /// The point `(x, y)` lies in the rectangle and not on its border.
    pub open spec fn interior_contains(self, x: real, y: real) -> bool {
        &&& self.u0.value() < x < self.u1.value()
        &&& self.v0.value() < y < self.v1.value()
    }

    /// The rectangle has a positive area and lies in `[0, 1] x [0, 1]`.
    pub open spec fn inside_unit_square(self) -> bool {
        &&& 0real <= self.u0.value() < self.u1.value() <= 1real
        &&& 0real <= self.v0.value() < self.v1.value() <= 1real
    }
}

/// Mathematical model of a [`TileAtlas`].
pub struct AtlasModel {
    pub cols: int,
    pub rows: int,
}

impl AtlasModel {
    /// Both dimensions fit the executable type.
    pub open spec fn wf(self) -> bool {
        &&& 0 <= self.cols <= u32::MAX
        &&& 0 <= self.rows <= u32::MAX
    }

    /// Number of cells of the atlas.
    pub open spec fn entry_count(self) -> int {
        self.cols * self.rows
    }

    /// `entry` names a cell of the atlas.
    pub open spec fn valid_entry(self, entry: int) -> bool {
        0 <= entry < self.entry_count()
    }

    /// The cell of `entry`: column `entry % cols` of row `entry / cols`, as the part
    /// of the texture from `col / cols` to `(col + 1) / cols` across and from
    /// `row / rows` to `(row + 1) / rows` along.
    pub open spec fn rect(self, entry: int) -> TexRect {
        let col = index_col(entry, self.cols);
        let row = index_row(entry, self.cols);
        TexRect {
            u0: Ratio { num: col as i128, den: self.cols as i128 },
            v0: Ratio { num: row as i128, den: self.rows as i128 },
            u1: Ratio { num: (col + 1) as i128, den: self.cols as i128 },
            v1: Ratio { num: (row + 1) as i128, den: self.rows as i128 },
        }
    }

    /// What [`TileAtlas::quad_for`] returns, as a sequence of vertices.
    pub open spec fn quad_for(self, entry: int) -> Result<Seq<Vertex>, Error> {
        if self.valid_entry(entry) {
            Ok(quad_of(self.rect(entry)))
        } else {
            Err(Error::InvalidAtlasEntry)
        }
    }

    /// What [`TileAtlas::rect_for`] returns.
    pub open spec fn rect_for(self, entry: int) -> Result<TexRect, Error> {
        if self.valid_entry(entry) {
            Ok(self.rect(entry))
        } else {
            Err(Error::InvalidAtlasEntry)
        }
    }
}

/// A texture cut into `cols` by `rows` equal cells. It never changes once made.
#[derive(Clone, Copy, Debug)]
pub struct TileAtlas {
    cols: u32,
    rows: u32,
}

impl View for TileAtlas {
    type V = AtlasModel;

    closed spec fn view(&self) -> AtlasModel {
        AtlasModel { cols: self.cols as int, rows: self.rows as int }
    }
}

impl TileAtlas {
    /// An atlas of `cols` by `rows` cells.
    pub fn new(cols: u32, rows: u32) -> (atlas: TileAtlas)
        ensures
            atlas@ == (AtlasModel { cols: cols as int, rows: rows as int }),
            atlas@.wf(),
    {
        TileAtlas { cols, rows }
    }

    /// Number of columns.
    pub fn cols(&self) -> (n: u32)
        ensures
            n == self@.cols,
            self@.wf(),
    {
        self.cols
    }

    /// Number of rows.
    pub fn rows(&self) -> (n: u32)
        ensures
            n == self@.rows,
            self@.wf(),
    {
        self.rows
    }

    /// Number of cells.
    pub fn entry_count(&self) -> (n: u64)
        ensures
            n == self@.entry_count(),
            self@.wf(),
    {
        assert(self.cols * self.rows <= u32::MAX * u32::MAX) by (nonlinear_arith)
            requires
                self.cols <= u32::MAX,
                self.rows <= u32::MAX,
        ;
        self.cols as u64 * self.rows as u64
    }

    /// Whether `entry` names a cell of the atlas.
    pub fn is_valid_entry(&self, entry: usize) -> (b: bool)
        ensures
            b == self@.valid_entry(entry as int),
            self@.wf(),
    {
        (entry as u64) < self.entry_count()
    }

    /// The part of the texture that the cell of `entry` takes up.
    pub(crate) fn rect_of(&self, entry: usize) -> (rect: TexRect)
        requires
            self@.valid_entry(entry as int),
        ensures
            rect == self@.rect(entry as int),
            rect.wf(),
            rect.inside_unit_square(),
    {
        proof {
            lemma_cell_of_index(entry as int, self@.cols, self@.rows);
            law_rect_inside_unit_square(self@, entry as int);
        }
        let cols = self.cols as u64;
        let col = entry as u64 % cols;
        let row = entry as u64 / cols;
        TexRect {
            u0: Ratio { num: col as i128, den: self.cols as i128 },
            v0: Ratio { num: row as i128, den: self.rows as i128 },
            u1: Ratio { num: col as i128 + 1, den: self.cols as i128 },
            v1: Ratio { num: row as i128 + 1, den: self.rows as i128 },
        }
    }

    /// The part of the texture that `entry` names, or `InvalidAtlasEntry` when
    /// `entry` is not below the number of cells. An entry above the count is
    /// refused, never wrapped around.
    pub fn rect_for(&self, entry: usize) -> (r: Result<TexRect, Error>)
        ensures
            r == self@.rect_for(entry as int),
            self@.wf(),
            r matches Ok(rect) ==> rect.wf() && rect.inside_unit_square(),
    {
        if self.is_valid_entry(entry) {
            Ok(self.rect_of(entry))
        } else {
            Err(Error::InvalidAtlasEntry)
        }
    }

    /// The six vertices of the quad that shows the cell of `entry`, or
    /// `InvalidAtlasEntry` when `entry` is not below the number of cells.
    pub fn quad_for(&self, entry: usize) -> (r: Result<[Vertex; 6], Error>)
        ensures
            r is Ok <==> self@.valid_entry(entry as int),
            r matches Ok(q) ==> self@.quad_for(entry as int) == Ok::<Seq<Vertex>, Error>(q@),
            r matches Err(e) ==> e == Error::InvalidAtlasEntry,
    {
        match self.rect_for(entry) {
            Ok(rect) => Ok(quad(rect)),
            Err(e) => Err(e),
        }
    }
}

/// The rectangle of every entry of an atlas has a positive area and lies inside
/// the unit square `[0, 1] x [0, 1]`.
pub proof fn law_rect_inside_unit_square(atlas: AtlasModel, entry: int)
    requires
        atlas.wf(),
        atlas.valid_entry(entry),
    ensures
        atlas.rect(entry).wf(),
        atlas.rect(entry).inside_unit_square(),
{
    lemma_cell_of_index(entry, atlas.cols, atlas.rows);
    let col = index_col(entry, atlas.cols);
    let row = index_row(entry, atlas.cols);
    lemma_quotient_order(col, col + 1, atlas.cols);
    lemma_quotient_order(row, row + 1, atlas.rows);
    lemma_quotient_bounds(col, atlas.cols, 0, 1);
    lemma_quotient_bounds(col + 1, atlas.cols, 0, 1);
    lemma_quotient_bounds(row, atlas.rows, 0, 1);
    lemma_quotient_bounds(row + 1, atlas.rows, 0, 1);
}

/// The rectangles of two distinct entries of an atlas do not overlap: no point
/// lies in the interior of both.
pub proof fn law_rects_do_not_overlap(atlas: AtlasModel, first: int, second: int, x: real, y: real)
    requires
        atlas.wf(),
        atlas.valid_entry(first),
        atlas.valid_entry(second),
        first != second,
    ensures
        !(atlas.rect(first).interior_contains(x, y) && atlas.rect(second).interior_contains(x, y)),
{
    lemma_cell_of_index(first, atlas.cols, atlas.rows);
    lemma_cell_of_index(second, atlas.cols, atlas.rows);
    let c1 = index_col(first, atlas.cols);
    let r1 = index_row(first, atlas.cols);
    let c2 = index_col(second, atlas.cols);
    let r2 = index_row(second, atlas.cols);
    assert(c1 != c2 || r1 != r2);
    if c1 < c2 {
        lemma_quotient_order(c1 + 1, c2, atlas.cols);
    } else if c2 < c1 {
        lemma_quotient_order(c2 + 1, c1, atlas.cols);
    } else if r1 < r2 {
        lemma_quotient_order(r1 + 1, r2, atlas.rows);
    } else {
        lemma_quotient_order(r2 + 1, r1, atlas.rows);
    }
}

/// The rectangles of an atlas with at least one cell cover the unit square: every
/// point of `[0, 1] x [0, 1]` lies in the rectangle of the entry that is returned.
pub proof fn law_rects_cover_unit_square(atlas: AtlasModel, x: real, y: real) -> (entry: int)
    requires
        atlas.wf(),
        atlas.cols > 0,
        atlas.rows > 0,
        0real <= x <= 1real,
        0real <= y <= 1real,
    ensures
        atlas.valid_entry(entry),
        atlas.rect(entry).contains(x, y),
{
    let col = lemma_unit_interval_part(x, atlas.cols);
    let row = lemma_unit_interval_part(y, atlas.rows);
    let entry = cell_index(col, row, atlas.cols);
    lemma_cell_index_in_range(col, row, atlas.cols, atlas.rows);
    lemma_index_of_cell(col, row, atlas.cols);
    entry
}

} // verus!

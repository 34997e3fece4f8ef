//! The map: a grid of `width` by `height` tiles, one for every cell, and the part
//! of it that a viewport shows.

use vstd::prelude::*;
use crate::atlas::{AtlasModel, TileAtlas};
use crate::error::Error;
use crate::grid::{cell_index, in_grid, index_col, index_row};
use crate::grid::{lemma_cell_index_in_range, lemma_cell_index_injective};
use crate::grid::{lemma_cell_of_index, lemma_index_of_cell};
use crate::tile::{Tile, DEFAULT_TILE};
use crate::viewport::{clamp, Viewport, ViewportModel};

verus! {

/// A cell of the map with its position.
#[derive(Clone, Copy, Debug, PartialEq, Eq, Structural)]
pub struct VisibleTile {
    pub x: u32,
    pub y: u32,
    pub tile: Tile,
}

/// A rectangle of cells: `cols` by `rows` cells with `(x0, y0)` at its top left.
pub struct CellRect {
    pub x0: int,
    pub y0: int,
    pub cols: int,
    pub rows: int,
}

impl CellRect {
    /// The cell `(x, y)` lies in the rectangle.
    pub open spec fn contains(self, x: int, y: int) -> bool {
        in_grid(x - self.x0, y - self.y0, self.cols, self.rows)
    }
}

/// Mathematical model of a [`TileMap`]: a tile for every cell of the grid, and for
/// no other position.
pub struct MapModel {
    pub width: int,
    pub height: int,
    pub cells: Map<(int, int), Tile>,
}

impl MapModel {
    /// `(x, y)` is a cell of the map.
    pub open spec fn contains(self, x: int, y: int) -> bool {
        in_grid(x, y, self.width, self.height)
    }

    /// The tiles are those of the cells of the grid, and the grid can be stored.
    pub open spec fn wf(self) -> bool {
        &&& 0 <= self.width <= u32::MAX
        &&& 0 <= self.height <= u32::MAX
        &&& self.width * self.height <= usize::MAX
        &&& forall|x: int, y: int| #[trigger]
            self.cells.dom().contains((x, y)) <==> self.contains(x, y)
    }

    /// The map of the given size with the same tile in every cell.
    pub open spec fn filled(width: int, height: int, tile: Tile) -> MapModel {
        MapModel {
            width,
            height,
            cells: Map::new(
                |p: (int, int)| in_grid(p.0, p.1, width, height),
                |p: (int, int)| tile,
            ),
        }
    }

    /// What [`TileMap::get`] returns.
    pub open spec fn get(self, x: int, y: int) -> Result<Tile, Error> {
        if self.contains(x, y) {
            Ok(self.cells[(x, y)])
        } else {
            Err(Error::OutOfBounds)
        }
    }

    /// What [`TileMap::set`] returns.
    pub open spec fn set_outcome(self, x: int, y: int) -> Result<(), Error> {
        if self.contains(x, y) {
            Ok(())
        } else {
            Err(Error::OutOfBounds)
        }
    }

    /// The map after [`TileMap::set`]: the cell `(x, y)` holds the new entry and
    /// every other cell is as before; outside the grid nothing changes.
    pub open spec fn set(self, x: int, y: int, tex_id: usize) -> MapModel {
        if self.contains(x, y) {
            MapModel { cells: self.cells.insert((x, y), Tile { tex_id }), ..self }
        } else {
            self
        }
    }

    /// Every tile of the map names a cell of the atlas.
    pub open spec fn entries_valid(self, atlas: AtlasModel) -> bool {
        forall|x: int, y: int|
            self.contains(x, y) ==> atlas.valid_entry((#[trigger] self.cells[(x, y)]).tex_id as int)
    }

    /// The part of the window `v` that lies on the map.
    pub open spec fn clip(self, v: ViewportModel) -> CellRect {
        let x0 = clamp(v.origin_x, 0, self.width);
        let y0 = clamp(v.origin_y, 0, self.height);
        let x1 = clamp(v.origin_x + v.width, x0, self.width);
        let y1 = clamp(v.origin_y + v.height, y0, self.height);
        CellRect { x0, y0, cols: x1 - x0, rows: y1 - y0 }
    }

    /// Number of cells of the map that the window `v` shows.
    pub open spec fn visible_count(self, v: ViewportModel) -> int {
        self.clip(v).cols * self.clip(v).rows
    }

    /// The `i`-th cell that the window `v` shows, counting row by row from its top
    /// left.
    pub open spec fn visible_tile(self, v: ViewportModel, i: int) -> VisibleTile {
        let rect = self.clip(v);
        let x = rect.x0 + index_col(i, rect.cols);
        let y = rect.y0 + index_row(i, rect.cols);
        VisibleTile { x: x as u32, y: y as u32, tile: self.cells[(x, y)] }
    }

    /// What [`TileMap::visible_at`] returns.
    pub open spec fn visible_at(self, v: ViewportModel, i: int) -> Option<VisibleTile> {
        if 0 <= i < self.visible_count(v) {
            Some(self.visible_tile(v, i))
        } else {
            None
        }
    }

    /// The cells of the map that the window `v` shows, row by row from its top
    /// left.
    pub open spec fn visible(self, v: ViewportModel) -> Seq<VisibleTile> {
        Seq::new(self.visible_count(v) as nat, |i: int| self.visible_tile(v, i))
    }
}

/// A grid of tiles. Its size is fixed when it is made.
pub struct TileMap {
    width: u32,
    height: u32,
    tiles: Vec<Tile>,
}

impl View for TileMap {
    type V = MapModel;

    closed spec fn view(&self) -> MapModel {
        MapModel {
            width: self.width as int,
            height: self.height as int,
            cells: Map::new(
                |p: (int, int)| in_grid(p.0, p.1, self.width as int, self.height as int),
                |p: (int, int)| self.tiles@[cell_index(p.0, p.1, self.width as int)],
            ),
        }
    }
}

impl TileMap {
    #[verifier::type_invariant]
    closed spec fn inv(self) -> bool {
        self.tiles@.len() == self.width * self.height
    }

    /// A map that keeps the invariant has a well-formed model.
    proof fn lemma_model_wf(self)
        requires
            self.inv(),
        ensures
            self@.wf(),
    {
        assert(self.tiles.len() == self.tiles@.len());
    }

    /// A map of `width` by `height` cells, each holding the default tile.
    pub fn new(width: u32, height: u32) -> (map: TileMap)
        requires
            width * height <= usize::MAX,
        ensures
            map@ == MapModel::filled(width as int, height as int, Tile { tex_id: DEFAULT_TILE }),
            map@.wf(),
    {
        let count: usize = width as usize * height as usize;
        let mut tiles: Vec<Tile> = Vec::new();
        let mut i: usize = 0;
        while i < count
            invariant
                i <= count,
                tiles@.len() == i,
                forall|k: int| 0 <= k < i ==> tiles@[k] == (Tile { tex_id: DEFAULT_TILE }),
            decreases count - i,
        {
            tiles.push(Tile { tex_id: DEFAULT_TILE });
            i = i + 1;
        }
        let map = TileMap { width, height, tiles };
        proof {
            let filled = MapModel::filled(width as int, height as int, Tile { tex_id: DEFAULT_TILE });
            assert forall|p: (int, int)| in_grid(p.0, p.1, width as int, height as int) implies
                map.tiles@[cell_index(p.0, p.1, width as int)] == (Tile { tex_id: DEFAULT_TILE }) by {
                lemma_cell_index_in_range(p.0, p.1, width as int, height as int);
            }
            assert(map@.cells =~= filled.cells);
            map.lemma_model_wf();
        }
        map
    }

    /// Number of columns.
    pub fn width(&self) -> (r: u32)
        ensures
            r == self@.width,
            self@.wf(),
    {
        proof {
            use_type_invariant(self);
            self.lemma_model_wf();
        }
        self.width
    }

    /// Number of rows.
    pub fn height(&self) -> (r: u32)
        ensures
            r == self@.height,
            self@.wf(),
    {
        proof {
            use_type_invariant(self);
            self.lemma_model_wf();
        }
        self.height
    }

    /// Whether `(x, y)` is a cell of the map.
    pub fn contains(&self, x: u32, y: u32) -> (b: bool)
        ensures
            b == self@.contains(x as int, y as int),
        no_unwind
    {
        x < self.width && y < self.height
    }

    /// Where the tile of the cell `(x, y)` is stored.
    fn slot(&self, x: u32, y: u32) -> (i: usize)
        requires
            self@.contains(x as int, y as int),
        ensures
            i == cell_index(x as int, y as int, self@.width),
            i < self.tiles@.len(),
        no_unwind
    {
        proof {
            use_type_invariant(self);
            self.lemma_model_wf();
            lemma_cell_index_in_range(x as int, y as int, self.width as int, self.height as int);
        }
        y as usize * self.width as usize + x as usize
    }

    /// The tile of the cell `(x, y)`, or `OutOfBounds` when the map has no such
    /// cell.
    pub fn get(&self, x: u32, y: u32) -> (r: Result<Tile, Error>)
        ensures
            r == self@.get(x as int, y as int),
            self@.wf(),
    {
        proof {
            use_type_invariant(self);
            self.lemma_model_wf();
        }
        if !self.contains(x, y) {
            return Err(Error::OutOfBounds);
        }
        let i = self.slot(x, y);
        Ok(self.tiles[i])
    }

    /// Gives the cell `(x, y)` the atlas entry `new_entry`, or returns
    /// `OutOfBounds`, changing nothing, when the map has no such cell.
    pub fn set(&mut self, x: u32, y: u32, new_entry: usize) -> (r: Result<(), Error>)
        ensures
            r == old(self)@.set_outcome(x as int, y as int),
            final(self)@ == old(self)@.set(x as int, y as int, new_entry),
            final(self)@.wf(),
        no_unwind
    {
        proof {
            use_type_invariant(&*self);
            self.lemma_model_wf();
        }
        if !self.contains(x, y) {
            return Err(Error::OutOfBounds);
        }
        let i = self.slot(x, y);
        self.tiles[i] = Tile { tex_id: new_entry };
        proof {
            let w = self.width as int;
            let after = old(self)@.set(x as int, y as int, new_entry);
            assert forall|p: (int, int)| in_grid(p.0, p.1, w, self.height as int) implies
                self@.cells[p] == after.cells[p] by {
                lemma_cell_index_in_range(p.0, p.1, w, self.height as int);
                if cell_index(p.0, p.1, w) == cell_index(x as int, y as int, w) {
                    lemma_cell_index_injective(p.0, p.1, x as int, y as int, w);
                    assert(p == (x as int, y as int));
                }
            }
            assert(self@.cells =~= after.cells);
            self.lemma_model_wf();
        }
        Ok(())
    }

    /// Whether every tile of the map names a cell of `atlas`.
    pub fn all_entries_valid(&self, atlas: &TileAtlas) -> (b: bool)
        ensures
            b == self@.entries_valid(atlas@),
    {
        proof {
            use_type_invariant(self);
            self.lemma_model_wf();
        }
        let mut i: usize = 0;
        while i < self.tiles.len()
            invariant
                i <= self.tiles@.len(),
                self.tiles@.len() == self.width * self.height,
                forall|k: int| 0 <= k < i ==> atlas@.valid_entry(self.tiles@[k].tex_id as int),
            decreases self.tiles@.len() - i,
        {
            if !atlas.is_valid_entry(self.tiles[i].tex_id) {
                proof {
                    let w = self.width as int;
                    lemma_cell_of_index(i as int, w, self.height as int);
                    let x = index_col(i as int, w);
                    let y = index_row(i as int, w);
                    assert(self@.contains(x, y));
                    assert(self@.cells[(x, y)] == self.tiles@[i as int]);
                }
                return false;
            }
            i = i + 1;
        }
        proof {
            assert forall|x: int, y: int| self@.contains(x, y) implies atlas@.valid_entry(
                (#[trigger] self@.cells[(x, y)]).tex_id as int,
            ) by {
                lemma_cell_index_in_range(x, y, self.width as int, self.height as int);
            }
        }
        true
    }

    /// The part of the window that lies on the map: the column and the row of its
    /// top-left cell, then the number of its columns and of its rows.
    fn clip(&self, viewport: &Viewport) -> (r: (u32, u32, u32, u32))
        ensures
            r.0 == self@.clip(viewport@).x0,
            r.1 == self@.clip(viewport@).y0,
            r.2 == self@.clip(viewport@).cols,
            r.3 == self@.clip(viewport@).rows,
            r.0 + r.2 <= self@.width,
            r.1 + r.3 <= self@.height,
            self@.wf(),
    {
        let width = self.width();
        let height = self.height();
        let origin_x = viewport.origin_x();
        let origin_y = viewport.origin_y();
        let end_x = origin_x + viewport.width();
        let end_y = origin_y + viewport.height();
        let x0 = if origin_x > width { width } else { origin_x };
        let y0 = if origin_y > height { height } else { origin_y };
        let x1 = if end_x > width { width } else { end_x };
        let y1 = if end_y > height { height } else { end_y };
        (x0, y0, x1 - x0, y1 - y0)
    }

    /// Number of cells of the map that the window shows.
    pub fn visible_count(&self, viewport: &Viewport) -> (n: usize)
        ensures
            n == self@.visible_count(viewport@),
    {
        let (_, _, cols, rows) = self.clip(viewport);
        assert(cols * rows <= self@.width * self@.height) by (nonlinear_arith)
            requires
                0 <= cols <= self@.width,
                0 <= rows <= self@.height,
        ;
        cols as usize * rows as usize
    }

    /// The `i`-th cell that the window shows, counting row by row from its top
    /// left.
    pub(crate) fn visible_cell(&self, viewport: &Viewport, i: usize) -> (cell: VisibleTile)
        requires
            i < self@.visible_count(viewport@),
        ensures
            cell == self@.visible_tile(viewport@, i as int),
    {
        let (x0, y0, cols, rows) = self.clip(viewport);
        proof {
            lemma_cell_of_index(i as int, cols as int, rows as int);
        }
        let x = x0 + (i % cols as usize) as u32;
        let y = y0 + (i / cols as usize) as u32;
        let slot = self.slot(x, y);
        VisibleTile { x, y, tile: self.tiles[slot] }
    }

    /// The `i`-th cell that the window shows, counting row by row from its top
    /// left, or `None` when it shows `i` cells or fewer. Cells are produced one
    /// at a time, and counting can start over at any time.
    pub fn visible_at(&self, viewport: &Viewport, i: usize) -> (r: Option<VisibleTile>)
        ensures
            r == self@.visible_at(viewport@, i as int),
    {
        if i < self.visible_count(viewport) {
            Some(self.visible_cell(viewport, i))
        } else {
            None
        }
    }

    /// The cells of the map inside the window, each with its tile, row by row
    /// from the top left of the window. The part of the window that lies outside
    /// the map contributes nothing.
    pub fn visible_range(&self, viewport: &Viewport) -> (cells: Vec<VisibleTile>)
        ensures
            cells@ == self@.visible(viewport@),
    {
        let count = self.visible_count(viewport);
        let mut cells: Vec<VisibleTile> = Vec::new();
        let mut i: usize = 0;
        while i < count
            invariant
                i <= count,
                count == self@.visible_count(viewport@),
                cells@.len() == i,
                forall|k: int| 0 <= k < i ==> cells@[k] == self@.visible_tile(viewport@, k),
            decreases count - i,
        {
            cells.push(self.visible_cell(viewport, i));
            i = i + 1;
        }
        assert(cells@ =~= self@.visible(viewport@));
        cells
    }
}

/// After a cell of the map is set, it holds a tile with the entry that was given,
/// whatever it held before, and every other cell holds what it held.
pub proof fn law_set_then_get(map: MapModel, x: int, y: int, tex_id: usize, other_x: int, other_y: int)
    requires
        map.wf(),
        map.contains(x, y),
    ensures
        map.set_outcome(x, y) == Ok::<(), Error>(()),
        map.set(x, y, tex_id).wf(),
        map.set(x, y, tex_id).get(x, y) == Ok::<Tile, Error>(Tile { tex_id }),
        (other_x != x || other_y != y) ==> map.set(x, y, tex_id).get(other_x, other_y) == map.get(
            other_x,
            other_y,
        ),
{
    let after = map.set(x, y, tex_id);
    assert forall|i: int, j: int| #[trigger] after.cells.dom().contains((i, j)) <==> after.contains(
        i,
        j,
    ) by {
        assert(map.cells.dom().contains((i, j)) <==> map.contains(i, j));
    }
}

/// Outside the grid, reading and writing both fail with `OutOfBounds`: no tile,
/// not even a default one, is returned, and the map is not changed.
pub proof fn law_out_of_bounds_is_an_error(map: MapModel, x: int, y: int, tex_id: usize)
    requires
        map.wf(),
        !map.contains(x, y),
    ensures
        map.get(x, y) == Err::<Tile, Error>(Error::OutOfBounds),
        map.set_outcome(x, y) == Err::<(), Error>(Error::OutOfBounds),
        map.set(x, y, tex_id) == map,
{
}

/// Every cell that a window lists is a cell of the map that lies in the window,
/// and is listed with the tile that the map holds for it.
pub proof fn law_visible_cells_are_shown(map: MapModel, v: ViewportModel, i: int)
    requires
        map.wf(),
        v.wf(),
        0 <= i < map.visible_count(v),
    ensures
        map.contains(map.visible_tile(v, i).x as int, map.visible_tile(v, i).y as int),
        v.shows(map.visible_tile(v, i).x as int, map.visible_tile(v, i).y as int),
        map.get(map.visible_tile(v, i).x as int, map.visible_tile(v, i).y as int) == Ok::<
            Tile,
            Error,
        >(map.visible_tile(v, i).tile),
{
    let rect = map.clip(v);
    lemma_cell_of_index(i, rect.cols, rect.rows);
}

/// Every cell of the map that lies in a window is listed by it, at the place
/// that is returned, and at no other.
pub proof fn law_shown_cells_are_visible(map: MapModel, v: ViewportModel, x: int, y: int) -> (i: int)
    requires
        map.wf(),
        v.wf(),
        map.contains(x, y),
        v.shows(x, y),
    ensures
        0 <= i < map.visible_count(v),
        map.visible_tile(v, i).x == x,
        map.visible_tile(v, i).y == y,
        forall|k: int|
            0 <= k < map.visible_count(v) && #[trigger] map.visible_tile(v, k).x == x
                && map.visible_tile(v, k).y == y ==> k == i,
{
    let rect = map.clip(v);
    let col = x - rect.x0;
    let row = y - rect.y0;
    let i = cell_index(col, row, rect.cols);
    lemma_cell_index_in_range(col, row, rect.cols, rect.rows);
    lemma_index_of_cell(col, row, rect.cols);
    assert forall|k: int|
        0 <= k < map.visible_count(v) && #[trigger] map.visible_tile(v, k).x == x
            && map.visible_tile(v, k).y == y implies k == i by {
        lemma_cell_of_index(k, rect.cols, rect.rows);
    }
    i
}

} // verus!

//! The camera: a window of `width` by `height` cells over the map, named by its
//! top-left cell, that never leaves the map.

use vstd::prelude::*;

verus! {

/// `value`, moved to the nearest end of `[low, high]` when it lies outside.
pub open spec fn clamp(value: int, low: int, high: int) -> int {
    if value < low {
        low
    } else if value > high {
        high
    } else {
        value
    }
}

/// Mathematical model of a [`Viewport`].
pub struct ViewportModel {
    /// Column of the top-left visible cell.
    pub origin_x: int,
    /// Row of the top-left visible cell.
    pub origin_y: int,
    /// Number of visible columns.
    pub width: int,
    /// Number of visible rows.
    pub height: int,
    /// Number of columns of the map.
    pub map_width: int,
    /// Number of rows of the map.
    pub map_height: int,
}

impl ViewportModel {
    /// The window lies inside the map.
    pub open spec fn wf(self) -> bool {
        &&& 0 <= self.origin_x
        &&& 0 <= self.origin_y
        &&& 0 <= self.width
        &&& 0 <= self.height
        &&& self.origin_x + self.width <= self.map_width <= u32::MAX
        &&& self.origin_y + self.height <= self.map_height <= u32::MAX
    }

    /// The cell `(x, y)` is inside the window.
    pub open spec fn shows(self, x: int, y: int) -> bool {
        &&& self.origin_x <= x < self.origin_x + self.width
        &&& self.origin_y <= y < self.origin_y + self.height
    }

    /// The window of the given size over the given map that is nearest to the
    /// one asked for: no larger than the map, and moved back inside it.
    pub open spec fn fitted(
        origin_x: int,
        origin_y: int,
        width: int,
        height: int,
        map_width: int,
        map_height: int,
    ) -> ViewportModel {
        let w = clamp(width, 0, map_width);
        let h = clamp(height, 0, map_height);
        ViewportModel {
            origin_x: clamp(origin_x, 0, map_width - w),
            origin_y: clamp(origin_y, 0, map_height - h),
            width: w,
            height: h,
            map_width,
            map_height,
        }
    }

    /// The window moved by `(dx, dy)` cells, each axis on its own, and stopped at
    /// the border of the map.
    pub open spec fn pan(self, dx: int, dy: int) -> ViewportModel {
        ViewportModel {
            origin_x: clamp(self.origin_x + dx, 0, self.map_width - self.width),
            origin_y: clamp(self.origin_y + dy, 0, self.map_height - self.height),
            ..self
        }
    }

    /// The window after all of `steps`, taken in order.
    pub open spec fn pan_all(self, steps: Seq<(int, int)>) -> ViewportModel
        decreases steps.len(),
    {
        if steps.len() == 0 {
            self
        } else {
            self.pan(steps[0].0, steps[0].1).pan_all(steps.subrange(1, steps.len() as int))
        }
    }
}

/// A window over the map. Its size is fixed when it is made; only its origin moves.
#[derive(Clone, Copy, Debug)]
pub struct Viewport {
    origin_x: u32,
    origin_y: u32,
    width: u32,
    height: u32,
    map_width: u32,
    map_height: u32,
}

impl View for Viewport {
    type V = ViewportModel;

    closed spec fn view(&self) -> ViewportModel {
        ViewportModel {
            origin_x: self.origin_x as int,
            origin_y: self.origin_y as int,
            width: self.width as int,
            height: self.height as int,
            map_width: self.map_width as int,
            map_height: self.map_height as int,
        }
    }
}

/// `value`, no larger than `high`.
fn at_most(value: u32, high: u32) -> (r: u32)
    ensures
        r == clamp(value as int, 0, high as int),
{
    if value > high {
        high
    } else {
        value
    }
}

/// `origin` moved by `delta` and stopped at the ends of `[0, limit]`.
fn shifted(origin: u32, delta: i64, limit: u32) -> (r: u32)
    ensures
        r == clamp(origin + delta, 0, limit as int),
{
    let target: i128 = origin as i128 + delta as i128;
    if target < 0 {
        0
    } else if target > limit as i128 {
        limit
    } else {
        target as u32
    }
}

impl Viewport {
    /// What every value of the type keeps: its model is well-formed.
    #[verifier::type_invariant]
    pub open spec fn inv(self) -> bool {
        self@.wf()
    }

    /// A window of `width` by `height` cells with its top-left cell at
    /// `(origin_x, origin_y)`, over a map of `map_width` by `map_height` cells. A
    /// window larger than the map is cut down to the map, and one that would reach
    /// past a border is moved back inside.
    pub fn new(
        origin_x: u32,
        origin_y: u32,
        width: u32,
        height: u32,
        map_width: u32,
        map_height: u32,
    ) -> (v: Viewport)
        ensures
            v@ == ViewportModel::fitted(
                origin_x as int,
                origin_y as int,
                width as int,
                height as int,
                map_width as int,
                map_height as int,
            ),
            v@.wf(),
    {
        let w = at_most(width, map_width);
        let h = at_most(height, map_height);
        Viewport {
            origin_x: at_most(origin_x, map_width - w),
            origin_y: at_most(origin_y, map_height - h),
            width: w,
            height: h,
            map_width,
            map_height,
        }
    }

    /// Column of the top-left visible cell.
    pub fn origin_x(&self) -> (r: u32)
        ensures
            r == self@.origin_x,
            self@.wf(),
    {
        proof {
            use_type_invariant(self);
        }
        self.origin_x
    }

    /// Row of the top-left visible cell.
    pub fn origin_y(&self) -> (r: u32)
        ensures
            r == self@.origin_y,
            self@.wf(),
    {
        proof {
            use_type_invariant(self);
        }
        self.origin_y
    }

    /// Number of visible columns.
    pub fn width(&self) -> (r: u32)
        ensures
            r == self@.width,
            self@.wf(),
    {
        proof {
            use_type_invariant(self);
        }
        self.width
    }

    /// Number of visible rows.
    pub fn height(&self) -> (r: u32)
        ensures
            r == self@.height,
            self@.wf(),
    {
        proof {
            use_type_invariant(self);
        }
        self.height
    }

    /// Number of columns of the map under the window.
    pub fn map_width(&self) -> (r: u32)
        ensures
            r == self@.map_width,
            self@.wf(),
    {
        proof {
            use_type_invariant(self);
        }
        self.map_width
    }

    /// Number of rows of the map under the window.
    pub fn map_height(&self) -> (r: u32)
        ensures
            r == self@.map_height,
            self@.wf(),
    {
        proof {
            use_type_invariant(self);
        }
        self.map_height
    }

    /// Moves the origin by `(dx, dy)` cells. Each axis stops at the border of the
    /// map on its own: the window is never wrapped around and the move is never
    /// refused.
    pub fn pan(&mut self, dx: i64, dy: i64)
        ensures
            final(self)@ == old(self)@.pan(dx as int, dy as int),
            final(self)@.wf(),
    {
        proof {
            use_type_invariant(&*self);
        }
        self.origin_x = shifted(self.origin_x, dx, self.map_width - self.width);
        self.origin_y = shifted(self.origin_y, dy, self.map_height - self.height);
    }

    /// One row towards the top of the map.
    pub fn up(&mut self)
        ensures
            final(self)@ == old(self)@.pan(0, -1),
            final(self)@.wf(),
    {
        self.pan(0, -1)
    }

    /// One row towards the bottom of the map.
    pub fn down(&mut self)
        ensures
            final(self)@ == old(self)@.pan(0, 1),
            final(self)@.wf(),
    {
        self.pan(0, 1)
    }

    /// One column towards the left of the map.
    pub fn left(&mut self)
        ensures
            final(self)@ == old(self)@.pan(-1, 0),
            final(self)@.wf(),
    {
        self.pan(-1, 0)
    }

    /// One column towards the right of the map.
    pub fn right(&mut self)
        ensures
            final(self)@ == old(self)@.pan(1, 0),
            final(self)@.wf(),
    {
        self.pan(1, 0)
    }
}

/// However far a window is moved, it stays inside the map: its origin ends in
/// `[0, map_width - width] x [0, map_height - height]`, and neither its size nor
/// the map's changes.
pub proof fn law_pan_stays_inside(v: ViewportModel, dx: int, dy: int)
    requires
        v.wf(),
    ensures
        v.pan(dx, dy).wf(),
        0 <= v.pan(dx, dy).origin_x <= v.map_width - v.width,
        0 <= v.pan(dx, dy).origin_y <= v.map_height - v.height,
        v.pan(dx, dy).width == v.width,
        v.pan(dx, dy).height == v.height,
        v.pan(dx, dy).map_width == v.map_width,
        v.pan(dx, dy).map_height == v.map_height,
{
}

/// A move that keeps the window inside the map is carried out in full.
pub proof fn law_pan_inside_is_exact(v: ViewportModel, dx: int, dy: int)
    requires
        v.wf(),
        0 <= v.origin_x + dx <= v.map_width - v.width,
        0 <= v.origin_y + dy <= v.map_height - v.height,
    ensures
        v.pan(dx, dy).origin_x == v.origin_x + dx,
        v.pan(dx, dy).origin_y == v.origin_y + dy,
{
}

/// After any number of moves, of any size, the window is inside the map: its
/// origin is in `[0, map_width - width] x [0, map_height - height]`.
pub proof fn law_repeated_pans_stay_inside(v: ViewportModel, steps: Seq<(int, int)>)
    requires
        v.wf(),
    ensures
        v.pan_all(steps).wf(),
        0 <= v.pan_all(steps).origin_x <= v.map_width - v.width,
        0 <= v.pan_all(steps).origin_y <= v.map_height - v.height,
        v.pan_all(steps).width == v.width,
        v.pan_all(steps).height == v.height,
        v.pan_all(steps).map_width == v.map_width,
        v.pan_all(steps).map_height == v.map_height,
    decreases steps.len(),
{
    if steps.len() > 0 {
        law_pan_stays_inside(v, steps[0].0, steps[0].1);
        law_repeated_pans_stay_inside(
            v.pan(steps[0].0, steps[0].1),
            steps.subrange(1, steps.len() as int),
        );
    }
}

} // verus!

//! The quad that shows one cell of the atlas: two triangles over a unit square
//! centred on the origin.

use vstd::prelude::*;
use crate::atlas::TexRect;
use crate::ratio::Ratio;

verus! {

/// One corner of a quad: where it stands before the tile's transform is applied,
/// and which point of the texture it shows.
#[derive(Clone, Copy, Debug, PartialEq, Eq, Structural)]
pub struct Vertex {
    /// Position across, before the transform.
    pub x: Ratio,
    /// Position upwards, before the transform.
    pub y: Ratio,
    /// Texture coordinate across.
    pub u: Ratio,
    /// Texture coordinate along.
    pub v: Ratio,
}

/// The corner of the unit quad on the given sides, showing the same corner of
/// `rect`. The quad reaches from `-1/2` to `1/2` on both axes.
pub open spec fn corner_of(rect: TexRect, right: bool, top: bool) -> Vertex {
    Vertex {
        x: Ratio { num: if right { 1i128 } else { -1i128 }, den: 2 },
        y: Ratio { num: if top { 1i128 } else { -1i128 }, den: 2 },
        u: if right { rect.u1 } else { rect.u0 },
        v: if top { rect.v1 } else { rect.v0 },
    }
}

/// The six vertices of the quad that shows `rect`: the triangle bottom-left,
/// top-left, bottom-right, then the triangle bottom-right, top-left, top-right.
/// Both triangles turn the same way.
pub open spec fn quad_of(rect: TexRect) -> Seq<Vertex> {
    seq![
        corner_of(rect, false, false),
        corner_of(rect, false, true),
        corner_of(rect, true, false),
        corner_of(rect, true, false),
        corner_of(rect, false, true),
        corner_of(rect, true, true),
    ]
}

/// Twice the signed area of the triangle `a`, `b`, `c` of unit-quad corners, in
/// quarter units: positive when the triangle turns counter-clockwise.
pub open spec fn turn(a: Vertex, b: Vertex, c: Vertex) -> int {
    (b.x.num - a.x.num) * (c.y.num - a.y.num) - (b.y.num - a.y.num) * (c.x.num - a.x.num)
}

/// The corner of the unit quad on the given sides, showing the same corner of
/// `rect`.
pub fn corner(rect: TexRect, right: bool, top: bool) -> (v: Vertex)
    ensures
        v == corner_of(rect, right, top),
{
    Vertex {
        x: Ratio { num: if right { 1i128 } else { -1i128 }, den: 2 },
        y: Ratio { num: if top { 1i128 } else { -1i128 }, den: 2 },
        u: if right { rect.u1 } else { rect.u0 },
        v: if top { rect.v1 } else { rect.v0 },
    }
}

/// The six vertices, as two triangles, of the quad that shows `rect`.
pub fn quad(rect: TexRect) -> (q: [Vertex; 6])
    ensures
        q@ == quad_of(rect),
{
    let q = [
        corner(rect, false, false),
        corner(rect, false, true),
        corner(rect, true, false),
        corner(rect, true, false),
        corner(rect, false, true),
        corner(rect, true, true),
    ];
    assert(q@ =~= quad_of(rect));
    q
}

/// Both triangles of a quad turn clockwise, each by half the quad's area.
pub proof fn law_quad_winding(rect: TexRect)
    ensures
        turn(quad_of(rect)[0], quad_of(rect)[1], quad_of(rect)[2]) == -4,
        turn(quad_of(rect)[3], quad_of(rect)[4], quad_of(rect)[5]) == -4,
{
    let q = quad_of(rect);
    assert(q[0].x.num == -1 && q[0].y.num == -1);
    assert(q[1].x.num == -1 && q[1].y.num == 1);
    assert(q[2].x.num == 1 && q[2].y.num == -1);
    assert(q[3].x.num == 1 && q[3].y.num == -1);
    assert(q[4].x.num == -1 && q[4].y.num == 1);
    assert(q[5].x.num == 1 && q[5].y.num == 1);
}

} // verus!

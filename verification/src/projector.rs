//! The render projector: from a cell of the map, the viewport and the shape of
//! the window to the matrix that puts the cell's quad on the screen.
//!
//! Clip space reaches from `-1` to `1` on both axes, with `y` growing upwards. The
//! viewport is centred on the origin of clip space; its top-left cell is drawn at
//! the top left. A tile is `scale` wide and high before the window's shape is
//! taken into account; across, every length is then divided by the aspect ratio
//! of the window, so that a tile is as many pixels wide as it is high.

use vstd::prelude::*;
use crate::ratio::{lemma_quotient_bounds, lemma_quotient_of_products, lemma_quotient_sign};
use crate::ratio::{lemma_quotient_times_den, quotient, Ratio};
use crate::viewport::{Viewport, ViewportModel};

verus! {

/// Mathematical model of an [`AspectRatio`]: the size of the window in pixels.
pub struct AspectModel {
    pub width: int,
    pub height: int,
}

impl AspectModel {
    /// Both sides are positive.
    pub open spec fn wf(self) -> bool {
        &&& 0 < self.width <= u32::MAX
        &&& 0 < self.height <= u32::MAX
    }

    /// Width over height.
    pub open spec fn value(self) -> real {
        quotient(self.width, self.height)
    }
}

/// The shape of the window: its width over its height, kept as the two lengths.
#[derive(Clone, Copy, Debug)]
pub struct AspectRatio {
    width: u32,
    height: u32,
}

impl View for AspectRatio {
    type V = AspectModel;

    closed spec fn view(&self) -> AspectModel {
        AspectModel { width: self.width as int, height: self.height as int }
    }
}

impl AspectRatio {
    /// What every value of the type keeps: its model is well-formed.
    #[verifier::type_invariant]
    pub open spec fn inv(self) -> bool {
        self@.wf()
    }

    /// The shape of a window of `width` by `height` pixels, or `None` when one
    /// of them is zero.
    pub fn new(width: u32, height: u32) -> (r: Option<AspectRatio>)
        ensures
            r is Some <==> width > 0 && height > 0,
            r matches Some(a) ==> a@ == (AspectModel { width: width as int, height: height as int }),
    {
        if width > 0 && height > 0 {
            Some(AspectRatio { width, height })
        } else {
            None
        }
    }

    /// Width of the window in pixels.
    pub fn width(&self) -> (r: u32)
        ensures
            r == self@.width,
            self@.wf(),
    {
        proof {
            use_type_invariant(self);
        }
        self.width
    }

    /// Height of the window in pixels.
    pub fn height(&self) -> (r: u32)
        ensures
            r == self@.height,
            self@.wf(),
    {
        proof {
            use_type_invariant(self);
        }
        self.height
    }
}

/// The fraction `0 / 1`.
pub open spec fn zero() -> Ratio {
    Ratio { num: 0, den: 1 }
}

/// The fraction `1 / 1`.
pub open spec fn one() -> Ratio {
    Ratio { num: 1, den: 1 }
}

/// The matrix, as its four columns, that scales by `(scale_x, scale_y)` and then
/// moves by `(shift_x, shift_y)`.
pub open spec fn placement(scale_x: Ratio, scale_y: Ratio, shift_x: Ratio, shift_y: Ratio) -> Seq<
    Seq<Ratio>,
> {
    seq![
        seq![scale_x, zero(), zero(), zero()],
        seq![zero(), scale_y, zero(), zero()],
        seq![zero(), zero(), one(), zero()],
        seq![shift_x, shift_y, zero(), one()],
    ]
}

/// Where the matrix `m`, given as its four columns, puts the point `(x, y, 0, 1)`:
/// the first two coordinates of the product.
pub open spec fn clip_position(m: Seq<Seq<Ratio>>, x: real, y: real) -> (real, real) {
    (
        m[0][0].value() * x + m[1][0].value() * y + m[3][0].value(),
        m[0][1].value() * x + m[1][1].value() * y + m[3][1].value(),
    )
}

/// A matrix of four columns of four exact fractions, in the order in which a
/// graphics backend takes a `mat4`.
#[derive(Clone, Copy, Debug, PartialEq, Eq)]
pub struct Matrix4 {
    pub columns: [[Ratio; 4]; 4],
}

impl View for Matrix4 {
    type V = Seq<Seq<Ratio>>;

    open spec fn view(&self) -> Seq<Seq<Ratio>> {
        Seq::new(4, |c: int| self.columns[c]@)
    }
}

/// Mathematical model of a [`Projector`]: the length of a tile's side in clip
/// space, `scale_num / scale_den`.
pub struct ProjectorModel {
    pub scale_num: int,
    pub scale_den: int,
}

impl ProjectorModel {
    /// The scale is a fraction that is not negative.
    pub open spec fn wf(self) -> bool {
        &&& 0 <= self.scale_num <= u32::MAX
        &&& 0 < self.scale_den <= u32::MAX
    }

    /// The scale as a real number.
    pub open spec fn scale(self) -> real {
        quotient(self.scale_num, self.scale_den)
    }

    /// The window `v`, drawn at this scale, is no wider and no higher than clip
    /// space.
    pub open spec fn fits(self, v: ViewportModel) -> bool {
        &&& self.scale_num * v.width <= 2 * self.scale_den
        &&& self.scale_num * v.height <= 2 * self.scale_den
    }

    /// Twice the distance, in cells, from the middle of the window to the middle
    /// of the column `cell_x`, counted to the right.
    pub open spec fn offset_x(cell_x: int, v: ViewportModel) -> int {
        2 * (cell_x - v.origin_x) + 1 - v.width
    }

    /// Twice the distance, in cells, from the middle of the window to the middle
    /// of the row `cell_y`, counted upwards.
    pub open spec fn offset_y(cell_y: int, v: ViewportModel) -> int {
        v.height - 1 - 2 * (cell_y - v.origin_y)
    }

    /// Width of a tile in clip space: the scale divided by the aspect ratio.
    pub open spec fn tile_width(self, a: AspectModel) -> Ratio {
        Ratio { num: (self.scale_num * a.height) as i128, den: (self.scale_den * a.width) as i128 }
    }

    /// Height of a tile in clip space: the scale.
    pub open spec fn tile_height(self) -> Ratio {
        Ratio { num: self.scale_num as i128, den: self.scale_den as i128 }
    }

    /// Where the middle of the column `cell_x` lies in clip space.
    pub open spec fn shift_x(self, cell_x: int, v: ViewportModel, a: AspectModel) -> Ratio {
        Ratio {
            num: (self.scale_num * a.height * Self::offset_x(cell_x, v)) as i128,
            den: (self.scale_den * a.width * 2) as i128,
        }
    }

    /// Where the middle of the row `cell_y` lies in clip space.
    pub open spec fn shift_y(self, cell_y: int, v: ViewportModel) -> Ratio {
        Ratio {
            num: (self.scale_num * Self::offset_y(cell_y, v)) as i128,
            den: (self.scale_den * 2) as i128,
        }
    }

    /// The matrix for the cell `(cell_x, cell_y)`, as its four columns.
    pub open spec fn transform(
        self,
        cell_x: int,
        cell_y: int,
        v: ViewportModel,
        a: AspectModel,
    ) -> Seq<Seq<Ratio>> {
        placement(
            self.tile_width(a),
            self.tile_height(),
            self.shift_x(cell_x, v, a),
            self.shift_y(cell_y, v),
        )
    }
}

/// The render projector. It holds the one setting of the projection: the length
/// of a tile's side in clip space.
#[derive(Clone, Copy, Debug)]
pub struct Projector {
    scale_num: u32,
    scale_den: u32,
}

impl View for Projector {
    type V = ProjectorModel;

    closed spec fn view(&self) -> ProjectorModel {
        ProjectorModel { scale_num: self.scale_num as int, scale_den: self.scale_den as int }
    }
}

/// The product of two numbers below `2^64` and `2^35` in size.
fn product(a: i128, b: i128) -> (r: i128)
    requires
        -0x1_0000_0000_0000_0000 <= a <= 0x1_0000_0000_0000_0000,
        -0x8_0000_0000 <= b <= 0x8_0000_0000,
    ensures
        r == a * b,
{
    assert(-0x8_0000_0000_0000_0000_0000_0000 <= a * b <= 0x8_0000_0000_0000_0000_0000_0000)
        by (nonlinear_arith)
        requires
            -0x1_0000_0000_0000_0000 <= a <= 0x1_0000_0000_0000_0000,
            -0x8_0000_0000 <= b <= 0x8_0000_0000,
    ;
    a * b
}

impl Projector {
    /// What every value of the type keeps: its model is well-formed.
    #[verifier::type_invariant]
    pub open spec fn inv(self) -> bool {
        self@.wf()
    }

    /// A projector that draws tiles `scale_num / scale_den` wide and high, or
    /// `None` when `scale_den` is zero.
    pub fn new(scale_num: u32, scale_den: u32) -> (r: Option<Projector>)
        ensures
            r is Some <==> scale_den > 0,
            r matches Some(p) ==> p@ == (ProjectorModel {
                scale_num: scale_num as int,
                scale_den: scale_den as int,
            }),
    {
        if scale_den > 0 {
            Some(Projector { scale_num, scale_den })
        } else {
            None
        }
    }

    /// The projector with the largest scale at which the whole window is inside
    /// clip space: `2` over the larger side of the window, or `2` for a window
    /// without cells.
    pub fn fitting(viewport: &Viewport) -> (p: Projector)
        ensures
            p@.scale_num == 2,
            p@.scale_den == (if viewport@.width >= viewport@.height && viewport@.width >= 1 {
                viewport@.width
            } else if viewport@.height >= 1 {
                viewport@.height
            } else {
                1
            }),
            p@.wf(),
            p@.fits(viewport@),
    {
        let w = viewport.width();
        let h = viewport.height();
        let side = if w >= h && w >= 1 {
            w
        } else if h >= 1 {
            h
        } else {
            1
        };
        Projector { scale_num: 2, scale_den: side }
    }

    /// Numerator of the scale.
    pub fn scale_num(&self) -> (r: u32)
        ensures
            r == self@.scale_num,
            self@.wf(),
    {
        proof {
            use_type_invariant(self);
        }
        self.scale_num
    }

    /// Denominator of the scale.
    pub fn scale_den(&self) -> (r: u32)
        ensures
            r == self@.scale_den,
            self@.wf(),
    {
        proof {
            use_type_invariant(self);
        }
        self.scale_den
    }

    /// The matrix that puts the unit quad of the cell `(cell_x, cell_y)` on the
    /// screen. It depends on the cell, the viewport, the scale and the shape of
    /// the window, and on nothing else.
    pub fn transform_for(
        &self,
        cell_x: u32,
        cell_y: u32,
        viewport: &Viewport,
        aspect: &AspectRatio,
    ) -> (m: Matrix4)
        ensures
            m@ == self@.transform(cell_x as int, cell_y as int, viewport@, aspect@),
            forall|c: int, r: int| 0 <= c < 4 && 0 <= r < 4 ==> (#[trigger] m@[c][r]).wf(),
    {
        let scale_num = self.scale_num() as i128;
        let scale_den = self.scale_den() as i128;
        let aspect_w = aspect.width() as i128;
        let aspect_h = aspect.height() as i128;
        let offset_x = 2 * (cell_x as i128 - viewport.origin_x() as i128) + 1
            - viewport.width() as i128;
        let offset_y = viewport.height() as i128 - 1 - 2 * (cell_y as i128
            - viewport.origin_y() as i128);
        let width_num = product(scale_num, aspect_h);
        let width_den = product(scale_den, aspect_w);
        assert(width_den > 0) by (nonlinear_arith)
            requires
                width_den == scale_den * aspect_w,
                scale_den > 0,
                aspect_w > 0,
        ;
        assert(0 <= width_num <= 0x1_0000_0000_0000_0000 && width_den <= 0x1_0000_0000_0000_0000)
            by (nonlinear_arith)
            requires
                width_num == scale_num * aspect_h,
                width_den == scale_den * aspect_w,
                0 <= scale_num <= 0xffff_ffff,
                0 <= scale_den <= 0xffff_ffff,
                0 <= aspect_w <= 0xffff_ffff,
                0 <= aspect_h <= 0xffff_ffff,
        ;
        let tile_width = Ratio { num: width_num, den: width_den };
        let tile_height = Ratio { num: scale_num, den: scale_den };
        let shift_x = Ratio { num: product(width_num, offset_x), den: width_den * 2 };
        let shift_y = Ratio { num: product(scale_num, offset_y), den: scale_den * 2 };
        let zero = Ratio { num: 0, den: 1 };
        let one = Ratio { num: 1, den: 1 };
        let m = Matrix4 {
            columns: [
                [tile_width, zero, zero, zero],
                [zero, tile_height, zero, zero],
                [zero, zero, one, zero],
                [shift_x, shift_y, zero, one],
            ],
        };
        proof {
            let expected = self@.transform(cell_x as int, cell_y as int, viewport@, aspect@);
            assert(m@[0] =~= expected[0]);
            assert(m@[1] =~= expected[1]);
            assert(m@[2] =~= expected[2]);
            assert(m@[3] =~= expected[3]);
            assert(m@ =~= expected);
        }
        m
    }
}

/// The fractions of a transform hold the numbers that their definitions name:
/// none is too large to be stored, and every denominator is positive.
pub proof fn lemma_transform_entries(
    p: ProjectorModel,
    cell_x: int,
    cell_y: int,
    v: ViewportModel,
    a: AspectModel,
)
    requires
        p.wf(),
        v.wf(),
        a.wf(),
        0 <= cell_x <= u32::MAX,
        0 <= cell_y <= u32::MAX,
    ensures
        p.tile_width(a).num == p.scale_num * a.height,
        p.tile_width(a).den == p.scale_den * a.width,
        p.tile_height().num == p.scale_num,
        p.tile_height().den == p.scale_den,
        p.shift_x(cell_x, v, a).num == p.scale_num * a.height * ProjectorModel::offset_x(cell_x, v),
        p.shift_x(cell_x, v, a).den == p.scale_den * a.width * 2,
        p.shift_y(cell_y, v).num == p.scale_num * ProjectorModel::offset_y(cell_y, v),
        p.shift_y(cell_y, v).den == p.scale_den * 2,
        p.scale_num * a.height >= 0,
        p.scale_den * a.width > 0,
{
    let n = p.scale_num * a.height;
    let d = p.scale_den * a.width;
    let ox = ProjectorModel::offset_x(cell_x, v);
    let oy = ProjectorModel::offset_y(cell_y, v);
    assert(0 <= n <= 0x1_0000_0000_0000_0000 && 0 < d <= 0x1_0000_0000_0000_0000)
        by (nonlinear_arith)
        requires
            n == p.scale_num * a.height,
            d == p.scale_den * a.width,
            0 <= p.scale_num <= 0xffff_ffff,
            0 < p.scale_den <= 0xffff_ffff,
            0 < a.width <= 0xffff_ffff,
            0 < a.height <= 0xffff_ffff,
    ;
    assert(-0x8_0000_0000_0000_0000_0000_0000 <= n * ox <= 0x8_0000_0000_0000_0000_0000_0000)
        by (nonlinear_arith)
        requires
            0 <= n <= 0x1_0000_0000_0000_0000,
            -0x8_0000_0000 <= ox <= 0x8_0000_0000,
    ;
    assert(-0x8_0000_0000_0000_0000_0000_0000 <= p.scale_num * oy
        <= 0x8_0000_0000_0000_0000_0000_0000) by (nonlinear_arith)
        requires
            0 <= p.scale_num <= 0xffff_ffff,
            -0x8_0000_0000 <= oy <= 0x8_0000_0000,
    ;
}

/// Where a transform puts a point of the unit quad: across, the width of a tile
/// times the distance of the point from the middle of the window, in cells; and
/// the same upwards, with the height of a tile.
pub proof fn lemma_clip_position(
    p: ProjectorModel,
    cell_x: int,
    cell_y: int,
    v: ViewportModel,
    a: AspectModel,
    x: real,
    y: real,
)
    requires
        p.wf(),
        v.wf(),
        a.wf(),
        0 <= cell_x <= u32::MAX,
        0 <= cell_y <= u32::MAX,
    ensures
        clip_position(p.transform(cell_x, cell_y, v, a), x, y).0 == p.tile_width(a).value() * (x
            + quotient(ProjectorModel::offset_x(cell_x, v), 2)),
        clip_position(p.transform(cell_x, cell_y, v, a), x, y).1 == p.tile_height().value() * (y
            + quotient(ProjectorModel::offset_y(cell_y, v), 2)),
{
    lemma_transform_entries(p, cell_x, cell_y, v, a);
    let m = p.transform(cell_x, cell_y, v, a);
    let ox = ProjectorModel::offset_x(cell_x, v);
    let oy = ProjectorModel::offset_y(cell_y, v);
    assert(m[0][0] == p.tile_width(a) && m[1][0] == zero() && m[3][0] == p.shift_x(cell_x, v, a));
    assert(m[0][1] == zero() && m[1][1] == p.tile_height() && m[3][1] == p.shift_y(cell_y, v));
    assert(zero().value() == 0real) by {
        lemma_quotient_sign(0, 1);
    }
    lemma_quotient_of_products(p.scale_num * a.height, p.scale_den * a.width, ox, 2);
    lemma_quotient_of_products(p.scale_num, p.scale_den, oy, 2);
    let w = p.tile_width(a).value();
    let h = p.tile_height().value();
    let qx = quotient(ox, 2);
    let qy = quotient(oy, 2);
    assert(p.shift_x(cell_x, v, a).value() == w * qx);
    assert(p.shift_y(cell_y, v).value() == h * qy);
    assert(w * x + 0real * y + w * qx == w * (x + qx)) by (nonlinear_arith);
    assert(0real * x + h * y + h * qy == h * (y + qy)) by (nonlinear_arith);
}

/// Tiles are square on the screen. A tile is as high as the scale says and its
/// width is the scale divided by the aspect ratio of the window, so that it
/// covers the same share of the window's pixels across as upwards.
pub proof fn law_tiles_are_square_on_screen(p: ProjectorModel, a: AspectModel)
    requires
        p.wf(),
        a.wf(),
    ensures
        p.tile_height().value() == p.scale(),
        p.tile_width(a).value() * a.value() == p.scale(),
        p.tile_width(a).value() * (a.width as real) == p.tile_height().value() * (
        a.height as real),
{
    lemma_quotient_of_products(p.scale_num, p.scale_den, a.height, a.width);
    lemma_quotient_times_den(a.height, a.width);
    lemma_quotient_times_den(a.width, a.height);
    assert(p.tile_width(a).num == p.scale_num * a.height && p.tile_width(a).den == p.scale_den
        * a.width) by {
        assert(0 <= p.scale_num * a.height <= 0x1_0000_0000_0000_0000 && 0 < p.scale_den * a.width
            <= 0x1_0000_0000_0000_0000) by (nonlinear_arith)
            requires
                0 <= p.scale_num <= 0xffff_ffff,
                0 < p.scale_den <= 0xffff_ffff,
                0 < a.width <= 0xffff_ffff,
                0 < a.height <= 0xffff_ffff,
        ;
    }
    let s = p.scale();
    let k = quotient(a.height, a.width);
    let r = a.value();
    let w = a.width as real;
    let h = a.height as real;
    assert(p.tile_width(a).value() == s * k);
    assert((s * k) * r == s && (s * k) * w == s * h) by (nonlinear_arith)
        requires
            k * w == h,
            r * h == w,
            w > 0real,
            h > 0real,
    ;
}

/// Neighbouring cells are drawn side by side. The transform of the cell
/// `(cell_x + 1, cell_y)` puts every point exactly one tile width to the right of
/// where the transform of `(cell_x, cell_y)` puts it, and no higher or lower; a
/// tile width is the width of the drawn quad; so the left edge of the right tile
/// is the right edge of the left one, with no gap and no overlap.
pub proof fn law_next_column_is_one_tile_right(
    p: ProjectorModel,
    cell_x: int,
    cell_y: int,
    v: ViewportModel,
    a: AspectModel,
    x: real,
    y: real,
)
    requires
        p.wf(),
        v.wf(),
        a.wf(),
        0 <= cell_x < u32::MAX,
        0 <= cell_y <= u32::MAX,
    ensures
        clip_position(p.transform(cell_x + 1, cell_y, v, a), x, y).0 == clip_position(
            p.transform(cell_x, cell_y, v, a),
            x,
            y,
        ).0 + p.tile_width(a).value(),
        clip_position(p.transform(cell_x + 1, cell_y, v, a), x, y).1 == clip_position(
            p.transform(cell_x, cell_y, v, a),
            x,
            y,
        ).1,
        clip_position(p.transform(cell_x, cell_y, v, a), quotient(1, 2), y).0 - clip_position(
            p.transform(cell_x, cell_y, v, a),
            quotient(-1, 2),
            y,
        ).0 == p.tile_width(a).value(),
        clip_position(p.transform(cell_x + 1, cell_y, v, a), quotient(-1, 2), y).0
            == clip_position(p.transform(cell_x, cell_y, v, a), quotient(1, 2), y).0,
{
    lemma_clip_position(p, cell_x, cell_y, v, a, x, y);
    lemma_clip_position(p, cell_x + 1, cell_y, v, a, x, y);
    lemma_clip_position(p, cell_x, cell_y, v, a, quotient(1, 2), y);
    lemma_clip_position(p, cell_x, cell_y, v, a, quotient(-1, 2), y);
    lemma_clip_position(p, cell_x + 1, cell_y, v, a, quotient(-1, 2), y);
    let w = p.tile_width(a).value();
    let q0 = quotient(ProjectorModel::offset_x(cell_x, v), 2);
    let q1 = quotient(ProjectorModel::offset_x(cell_x + 1, v), 2);
    assert(q1 == q0 + 1real) by {
        lemma_quotient_times_den(ProjectorModel::offset_x(cell_x, v), 2);
        lemma_quotient_times_den(ProjectorModel::offset_x(cell_x + 1, v), 2);
    }
    assert(quotient(1, 2) - quotient(-1, 2) == 1real) by {
        lemma_quotient_times_den(1, 2);
        lemma_quotient_times_den(-1, 2);
    }
    assert(w * (x + q1) == w * (x + q0) + w) by (nonlinear_arith)
        requires
            q1 == q0 + 1real,
    ;
    assert(w * (quotient(1, 2) + q0) - w * (quotient(-1, 2) + q0) == w) by (nonlinear_arith)
        requires
            quotient(1, 2) - quotient(-1, 2) == 1real,
    ;
    assert(w * (quotient(-1, 2) + q1) == w * (quotient(1, 2) + q0)) by (nonlinear_arith)
        requires
            q1 == q0 + 1real,
            quotient(1, 2) - quotient(-1, 2) == 1real,
    ;
}

/// Rows are drawn one below the other. The transform of the cell
/// `(cell_x, cell_y + 1)` puts every point exactly one tile height below where
/// the transform of `(cell_x, cell_y)` puts it, and no further left or right; so
/// the top edge of the lower tile is the bottom edge of the upper one.
pub proof fn law_next_row_is_one_tile_down(
    p: ProjectorModel,
    cell_x: int,
    cell_y: int,
    v: ViewportModel,
    a: AspectModel,
    x: real,
    y: real,
)
    requires
        p.wf(),
        v.wf(),
        a.wf(),
        0 <= cell_x <= u32::MAX,
        0 <= cell_y < u32::MAX,
    ensures
        clip_position(p.transform(cell_x, cell_y + 1, v, a), x, y).1 == clip_position(
            p.transform(cell_x, cell_y, v, a),
            x,
            y,
        ).1 - p.tile_height().value(),
        clip_position(p.transform(cell_x, cell_y + 1, v, a), x, y).0 == clip_position(
            p.transform(cell_x, cell_y, v, a),
            x,
            y,
        ).0,
        clip_position(p.transform(cell_x, cell_y + 1, v, a), x, quotient(1, 2)).1
            == clip_position(p.transform(cell_x, cell_y, v, a), x, quotient(-1, 2)).1,
{
    lemma_clip_position(p, cell_x, cell_y, v, a, x, y);
    lemma_clip_position(p, cell_x, cell_y + 1, v, a, x, y);
    lemma_clip_position(p, cell_x, cell_y, v, a, x, quotient(-1, 2));
    lemma_clip_position(p, cell_x, cell_y + 1, v, a, x, quotient(1, 2));
    let h = p.tile_height().value();
    let q0 = quotient(ProjectorModel::offset_y(cell_y, v), 2);
    let q1 = quotient(ProjectorModel::offset_y(cell_y + 1, v), 2);
    assert(q1 == q0 - 1real) by {
        lemma_quotient_times_den(ProjectorModel::offset_y(cell_y, v), 2);
        lemma_quotient_times_den(ProjectorModel::offset_y(cell_y + 1, v), 2);
    }
    assert(quotient(1, 2) - quotient(-1, 2) == 1real) by {
        lemma_quotient_times_den(1, 2);
        lemma_quotient_times_den(-1, 2);
    }
    assert(h * (y + q1) == h * (y + q0) - h) by (nonlinear_arith)
        requires
            q1 == q0 - 1real,
    ;
    assert(h * (quotient(1, 2) + q1) == h * (quotient(-1, 2) + q0)) by (nonlinear_arith)
        requires
            q1 == q0 - 1real,
            quotient(1, 2) - quotient(-1, 2) == 1real,
    ;
}

/// A window that fits is drawn inside clip space. When the scale fits the window
/// and the window on the screen is at least as wide as it is high, every point of
/// the quad of every cell that the viewport shows lands in `[-1, 1] x [-1, 1]`.
pub proof fn law_visible_tiles_inside_clip_space(
    p: ProjectorModel,
    cell_x: int,
    cell_y: int,
    v: ViewportModel,
    a: AspectModel,
    x: real,
    y: real,
)
    requires
        p.wf(),
        v.wf(),
        a.wf(),
        p.fits(v),
        a.height <= a.width,
        v.shows(cell_x, cell_y),
        quotient(-1, 2) <= x <= quotient(1, 2),
        quotient(-1, 2) <= y <= quotient(1, 2),
    ensures
        -1real <= clip_position(p.transform(cell_x, cell_y, v, a), x, y).0 <= 1real,
        -1real <= clip_position(p.transform(cell_x, cell_y, v, a), x, y).1 <= 1real,
{
    lemma_clip_position(p, cell_x, cell_y, v, a, x, y);
    lemma_transform_entries(p, cell_x, cell_y, v, a);
    let n = p.scale_num * a.height;
    let d = p.scale_den * a.width;
    let w = p.tile_width(a).value();
    let h = p.tile_height().value();
    let ox = ProjectorModel::offset_x(cell_x, v);
    let oy = ProjectorModel::offset_y(cell_y, v);
    let vw = v.width as real;
    let vh = v.height as real;
    // A whole row of tiles is at most 2 wide, and a whole column at most 2 high.
    assert(0 <= n * v.width <= 2 * d) by (nonlinear_arith)
        requires
            n == p.scale_num * a.height,
            d == p.scale_den * a.width,
            0 <= p.scale_num * v.width <= 2 * p.scale_den,
            0 < a.height <= a.width,
            0 <= v.width,
            0 <= p.scale_num,
    ;
    lemma_quotient_of_products(n, d, v.width, 1);
    lemma_quotient_bounds(n * v.width, d * 1, 0, 2);
    lemma_quotient_times_den(v.width, 1);
    lemma_quotient_sign(n, d);
    let row = quotient(n * v.width, d * 1);
    let qw = quotient(v.width, 1);
    assert(w == quotient(n, d));
    assert(0real <= w);
    assert(w * vw <= 2real) by (nonlinear_arith)
        requires
            row == w * qw,
            qw == vw,
            row <= 2real,
    ;
    assert(0 <= p.scale_num * v.height <= 2 * p.scale_den) by (nonlinear_arith)
        requires
            p.scale_num * v.height <= 2 * p.scale_den,
            0 <= p.scale_num,
            0 <= v.height,
    ;
    lemma_quotient_of_products(p.scale_num, p.scale_den, v.height, 1);
    lemma_quotient_bounds(p.scale_num * v.height, p.scale_den * 1, 0, 2);
    lemma_quotient_times_den(v.height, 1);
    lemma_quotient_sign(p.scale_num, p.scale_den);
    let column = quotient(p.scale_num * v.height, p.scale_den * 1);
    let qh = quotient(v.height, 1);
    assert(h == quotient(p.scale_num, p.scale_den));
    assert(0real <= h);
    assert(h * vh <= 2real) by (nonlinear_arith)
        requires
            column == h * qh,
            qh == vh,
            column <= 2real,
    ;
    // The point is at most half a window away from the middle of the window.
    let tx = x + quotient(ox, 2);
    let ty = y + quotient(oy, 2);
    lemma_quotient_times_den(1, 2);
    lemma_quotient_times_den(-1, 2);
    lemma_quotient_times_den(ox, 2);
    lemma_quotient_times_den(oy, 2);
    assert(-vw <= 2real * tx <= vw);
    assert(-vh <= 2real * ty <= vh);
    assert(-1real <= w * tx <= 1real) by (nonlinear_arith)
        requires
            0real <= w,
            w * vw <= 2real,
            -vw <= 2real * tx <= vw,
    ;
    assert(-1real <= h * ty <= 1real) by (nonlinear_arith)
        requires
            0real <= h,
            h * vh <= 2real,
            -vh <= 2real * ty <= vh,
    ;
}

} // verus!

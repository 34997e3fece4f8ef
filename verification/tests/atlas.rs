use tilepaste::atlas::{TexRect, TileAtlas};
use tilepaste::error::Error;
use tilepaste::ratio::Ratio;
use tilepaste::vertex::{corner, quad, Vertex};

fn frac(num: i128, den: i128) -> Ratio {
    Ratio { num, den }
}

#[test]
fn atlas_reports_its_size() {
    let atlas = TileAtlas::new(16, 8);
    assert_eq!(atlas.cols(), 16);
    assert_eq!(atlas.rows(), 8);
    assert_eq!(atlas.entry_count(), 128);
}

#[test]
fn atlas_entry_count_of_largest_atlas_does_not_wrap() {
    let atlas = TileAtlas::new(u32::MAX, u32::MAX);
    assert_eq!(atlas.entry_count(), 18446744065119617025);
}

#[test]
fn rect_for_first_entry_is_first_cell() {
    let atlas = TileAtlas::new(16, 16);
    assert_eq!(
        atlas.rect_for(0),
        Ok(TexRect { u0: frac(0, 16), v0: frac(0, 16), u1: frac(1, 16), v1: frac(1, 16) })
    );
}

#[test]
fn rect_for_addresses_row_by_row() {
    let atlas = TileAtlas::new(16, 16);
    // Entry 14 is column 14 of row 0; entry 17 is column 1 of row 1.
    assert_eq!(
        atlas.rect_for(14),
        Ok(TexRect { u0: frac(14, 16), v0: frac(0, 16), u1: frac(15, 16), v1: frac(1, 16) })
    );
    assert_eq!(
        atlas.rect_for(17),
        Ok(TexRect { u0: frac(1, 16), v0: frac(1, 16), u1: frac(2, 16), v1: frac(2, 16) })
    );
}

#[test]
fn rect_for_uses_columns_not_rows_to_split_the_entry() {
    let atlas = TileAtlas::new(4, 2);
    assert_eq!(
        atlas.rect_for(5),
        Ok(TexRect { u0: frac(1, 4), v0: frac(1, 2), u1: frac(2, 4), v1: frac(2, 2) })
    );
    assert_eq!(
        atlas.rect_for(7),
        Ok(TexRect { u0: frac(3, 4), v0: frac(1, 2), u1: frac(4, 4), v1: frac(2, 2) })
    );
}

#[test]
fn rect_for_rejects_entry_at_the_count() {
    let atlas = TileAtlas::new(16, 16);
    assert!(atlas.rect_for(255).is_ok());
    assert_eq!(atlas.rect_for(256), Err(Error::InvalidAtlasEntry));
    assert_eq!(atlas.rect_for(usize::MAX), Err(Error::InvalidAtlasEntry));
}

#[test]
fn rect_for_does_not_wrap_around() {
    let atlas = TileAtlas::new(2, 2);
    assert_eq!(atlas.rect_for(4), Err(Error::InvalidAtlasEntry));
    assert_eq!(atlas.rect_for(5), Err(Error::InvalidAtlasEntry));
}

#[test]
fn atlas_without_cells_has_no_entry() {
    for atlas in [TileAtlas::new(0, 4), TileAtlas::new(4, 0), TileAtlas::new(0, 0)] {
        assert_eq!(atlas.entry_count(), 0);
        assert!(!atlas.is_valid_entry(0));
        assert_eq!(atlas.rect_for(0), Err(Error::InvalidAtlasEntry));
        assert_eq!(atlas.quad_for(0), Err(Error::InvalidAtlasEntry));
    }
}

#[test]
fn is_valid_entry_agrees_with_rect_for() {
    let atlas = TileAtlas::new(3, 5);
    for entry in 0..40 {
        assert_eq!(atlas.is_valid_entry(entry), entry < 15);
        assert_eq!(atlas.rect_for(entry).is_ok(), entry < 15);
    }
}

#[test]
fn rects_lie_inside_the_unit_square() {
    let atlas = TileAtlas::new(7, 3);
    for entry in 0..21 {
        let r = atlas.rect_for(entry).unwrap();
        for f in [r.u0, r.v0, r.u1, r.v1] {
            assert!(f.den > 0);
            assert!(0 <= f.num && f.num <= f.den);
        }
        assert!(r.u0.num < r.u1.num && r.u0.den == r.u1.den);
        assert!(r.v0.num < r.v1.num && r.v0.den == r.v1.den);
    }
}

#[test]
fn rects_tile_the_unit_square() {
    // Every cell of the 7 by 3 grid is the rectangle of exactly one entry.
    let atlas = TileAtlas::new(7, 3);
    let mut seen = vec![0u32; 21];
    for entry in 0..21 {
        let r = atlas.rect_for(entry).unwrap();
        assert_eq!((r.u0.den, r.v0.den), (7, 3));
        assert_eq!(r.u1.num, r.u0.num + 1);
        assert_eq!(r.v1.num, r.v0.num + 1);
        seen[(r.v0.num * 7 + r.u0.num) as usize] += 1;
    }
    assert!(seen.iter().all(|&n| n == 1));
}

#[test]
fn corner_picks_sides_of_quad_and_rect() {
    let rect = TexRect { u0: frac(1, 4), v0: frac(1, 2), u1: frac(2, 4), v1: frac(2, 2) };
    assert_eq!(
        corner(rect, false, false),
        Vertex { x: frac(-1, 2), y: frac(-1, 2), u: frac(1, 4), v: frac(1, 2) }
    );
    assert_eq!(
        corner(rect, true, false),
        Vertex { x: frac(1, 2), y: frac(-1, 2), u: frac(2, 4), v: frac(1, 2) }
    );
    assert_eq!(
        corner(rect, false, true),
        Vertex { x: frac(-1, 2), y: frac(1, 2), u: frac(1, 4), v: frac(2, 2) }
    );
    assert_eq!(
        corner(rect, true, true),
        Vertex { x: frac(1, 2), y: frac(1, 2), u: frac(2, 4), v: frac(2, 2) }
    );
}

#[test]
fn quad_is_two_triangles_in_the_fixed_order() {
    let rect = TexRect { u0: frac(1, 4), v0: frac(1, 2), u1: frac(2, 4), v1: frac(2, 2) };
    let bottom_left = corner(rect, false, false);
    let top_left = corner(rect, false, true);
    let bottom_right = corner(rect, true, false);
    let top_right = corner(rect, true, true);
    assert_eq!(
        quad(rect),
        [bottom_left, top_left, bottom_right, bottom_right, top_left, top_right]
    );
}

#[test]
fn quad_triangles_turn_the_same_way() {
    let q = quad(TileAtlas::new(2, 2).rect_for(3).unwrap());
    let turn = |a: Vertex, b: Vertex, c: Vertex| {
        (b.x.num - a.x.num) * (c.y.num - a.y.num) - (b.y.num - a.y.num) * (c.x.num - a.x.num)
    };
    assert_eq!(turn(q[0], q[1], q[2]), -4);
    assert_eq!(turn(q[3], q[4], q[5]), -4);
}

#[test]
fn quad_for_shows_the_rect_of_the_entry() {
    let atlas = TileAtlas::new(16, 16);
    let q = atlas.quad_for(13).unwrap();
    assert_eq!(q, quad(atlas.rect_for(13).unwrap()));
    assert_eq!(q[0].u, frac(13, 16));
    assert_eq!(q[0].v, frac(0, 16));
    assert_eq!(q[5].u, frac(14, 16));
    assert_eq!(q[5].v, frac(1, 16));
}

#[test]
fn quad_for_rejects_invalid_entry() {
    let atlas = TileAtlas::new(16, 16);
    assert_eq!(atlas.quad_for(256), Err(Error::InvalidAtlasEntry));
}

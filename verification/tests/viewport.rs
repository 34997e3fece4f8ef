use tilepaste::viewport::Viewport;

fn state(v: &Viewport) -> (u32, u32, u32, u32, u32, u32) {
    (v.origin_x(), v.origin_y(), v.width(), v.height(), v.map_width(), v.map_height())
}

#[test]
fn new_viewport_keeps_what_fits() {
    let v = Viewport::new(1, 2, 3, 2, 5, 6);
    assert_eq!(state(&v), (1, 2, 3, 2, 5, 6));
}

#[test]
fn new_viewport_is_cut_down_to_the_map() {
    let v = Viewport::new(0, 0, 11, 4, 5, 3);
    assert_eq!(state(&v), (0, 0, 5, 3, 5, 3));
}

#[test]
fn new_viewport_is_moved_back_inside() {
    let v = Viewport::new(4, 9, 3, 3, 5, 5);
    assert_eq!(state(&v), (2, 2, 3, 3, 5, 5));
}

#[test]
fn new_viewport_over_empty_map() {
    let v = Viewport::new(3, 3, 2, 2, 0, 0);
    assert_eq!(state(&v), (0, 0, 0, 0, 0, 0));
}

#[test]
fn pan_moves_by_the_delta_when_there_is_room() {
    let mut v = Viewport::new(0, 0, 3, 3, 10, 10);
    v.pan(2, 5);
    assert_eq!((v.origin_x(), v.origin_y()), (2, 5));
    v.pan(-1, -3);
    assert_eq!((v.origin_x(), v.origin_y()), (1, 2));
}

#[test]
fn pan_stops_at_the_far_border() {
    let mut v = Viewport::new(0, 0, 3, 3, 5, 5);
    v.pan(3, 0);
    assert_eq!((v.origin_x(), v.origin_y()), (2, 0));
    v.pan(0, 100);
    assert_eq!((v.origin_x(), v.origin_y()), (2, 2));
}

#[test]
fn pan_stops_at_the_near_border() {
    let mut v = Viewport::new(1, 1, 3, 3, 5, 5);
    v.pan(-2, -1);
    assert_eq!((v.origin_x(), v.origin_y()), (0, 0));
    v.pan(-1, -1);
    assert_eq!((v.origin_x(), v.origin_y()), (0, 0));
}

#[test]
fn pan_clamps_each_axis_on_its_own() {
    let mut v = Viewport::new(1, 1, 3, 3, 5, 5);
    v.pan(7, -1);
    assert_eq!((v.origin_x(), v.origin_y()), (2, 0));
}

#[test]
fn pan_of_any_size_stays_inside() {
    let mut v = Viewport::new(1, 1, 3, 3, 5, 7);
    for (dx, dy) in [
        (i64::MAX, i64::MAX),
        (i64::MIN, i64::MIN),
        (i64::MAX, i64::MIN),
        (1, -1),
        (-4294967296, 4294967296),
        (0, 0),
    ] {
        v.pan(dx, dy);
        assert!(v.origin_x() <= 5 - 3);
        assert!(v.origin_y() <= 7 - 3);
        assert_eq!((v.width(), v.height(), v.map_width(), v.map_height()), (3, 3, 5, 7));
    }
}

#[test]
fn pan_extreme_deltas_reach_the_borders() {
    let mut v = Viewport::new(1, 1, 3, 3, 5, 7);
    v.pan(i64::MAX, i64::MIN);
    assert_eq!((v.origin_x(), v.origin_y()), (2, 0));
    v.pan(i64::MIN, i64::MAX);
    assert_eq!((v.origin_x(), v.origin_y()), (0, 4));
}

#[test]
fn pan_on_largest_map() {
    let mut v = Viewport::new(0, 0, 1, 1, u32::MAX, u32::MAX);
    v.pan(i64::MAX, 4294967293);
    assert_eq!((v.origin_x(), v.origin_y()), (u32::MAX - 1, 4294967293));
}

#[test]
fn pan_does_not_wrap() {
    let mut v = Viewport::new(0, 0, 3, 3, 5, 5);
    v.pan(5, 5);
    assert_eq!((v.origin_x(), v.origin_y()), (2, 2));
    v.pan(-5, -5);
    assert_eq!((v.origin_x(), v.origin_y()), (0, 0));
}

#[test]
fn window_as_large_as_the_map_cannot_move() {
    let mut v = Viewport::new(0, 0, 11, 11, 11, 11);
    v.right();
    v.down();
    assert_eq!((v.origin_x(), v.origin_y()), (0, 0));
    v.left();
    v.up();
    assert_eq!((v.origin_x(), v.origin_y()), (0, 0));
}

#[test]
fn single_steps_move_one_cell() {
    let mut v = Viewport::new(1, 1, 3, 3, 5, 5);
    v.right();
    assert_eq!((v.origin_x(), v.origin_y()), (2, 1));
    v.down();
    assert_eq!((v.origin_x(), v.origin_y()), (2, 2));
    v.left();
    assert_eq!((v.origin_x(), v.origin_y()), (1, 2));
    v.up();
    assert_eq!((v.origin_x(), v.origin_y()), (1, 1));
}

#[test]
fn single_steps_stop_at_the_border() {
    let mut v = Viewport::new(0, 0, 3, 3, 5, 5);
    v.up();
    v.left();
    assert_eq!((v.origin_x(), v.origin_y()), (0, 0));
    for _ in 0..4 {
        v.right();
        v.down();
    }
    assert_eq!((v.origin_x(), v.origin_y()), (2, 2));
}

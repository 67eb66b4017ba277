use sumi::floating::{
    floating_ex_style, placement_at_edge, position_at_corner, work_area_from_bounds, Corner, Edge,
    PlacementChoice, ScreenRect, WS_EX_LAYERED, WS_EX_NOACTIVATE, WS_EX_TOOLWINDOW,
    WS_EX_TRANSPARENT,
};

fn full_hd_work_area() -> ScreenRect {
    ScreenRect { x: 0, y: 0, width: 1920, height: 1040 }
}

#[test]
fn default_placement_is_bottom_right() {
    assert_eq!(PlacementChoice::default(), PlacementChoice::BottomRight);
}

#[test]
fn corners_on_full_hd_work_area() {
    let work = full_hd_work_area();
    assert_eq!(position_at_corner(work, 320, 64, Corner::TopLeft, 0), (0, 0));
    assert_eq!(position_at_corner(work, 320, 64, Corner::TopRight, 0), (1600, 0));
    assert_eq!(position_at_corner(work, 320, 64, Corner::BottomLeft, 0), (0, 976));
    assert_eq!(position_at_corner(work, 320, 64, Corner::BottomRight, 0), (1600, 976));
}

#[test]
fn corners_respect_margin_and_offset_origin() {
    let work = ScreenRect { x: 1920, y: -200, width: 1280, height: 1000 };
    assert_eq!(position_at_corner(work, 300, 100, Corner::TopLeft, 10), (1930, -190));
    assert_eq!(position_at_corner(work, 300, 100, Corner::BottomRight, 10), (2890, 690));
    // the window's far sides sit `margin` inside the work area
    let (x, y) = position_at_corner(work, 300, 100, Corner::BottomRight, 10);
    assert_eq!(x + 300 + 10, 1920 + 1280);
    assert_eq!(y + 100 + 10, -200 + 1000);
}

#[test]
fn corner_with_negative_margin_moves_outside() {
    let work = full_hd_work_area();
    assert_eq!(position_at_corner(work, 320, 64, Corner::TopLeft, -5), (-5, -5));
}

#[test]
fn edges_orientation_table() {
    let work = full_hd_work_area();
    assert_eq!(placement_at_edge(work, 64, Edge::Bottom, 0).orientation, 0);
    assert_eq!(placement_at_edge(work, 64, Edge::Right, 0).orientation, 1);
    assert_eq!(placement_at_edge(work, 64, Edge::Top, 0).orientation, 2);
    assert_eq!(placement_at_edge(work, 64, Edge::Left, 0).orientation, 3);
}

#[test]
fn edge_rectangles_on_full_hd() {
    let work = full_hd_work_area();
    let top = placement_at_edge(work, 64, Edge::Top, 8);
    assert_eq!((top.x, top.y, top.width, top.height), (8, 8, 1904, 64));
    let bottom = placement_at_edge(work, 64, Edge::Bottom, 8);
    assert_eq!((bottom.x, bottom.y, bottom.width, bottom.height), (8, 968, 1904, 64));
    let left = placement_at_edge(work, 64, Edge::Left, 8);
    assert_eq!((left.x, left.y, left.width, left.height), (8, 8, 64, 1024));
    let right = placement_at_edge(work, 64, Edge::Right, 8);
    assert_eq!((right.x, right.y, right.width, right.height), (1848, 8, 64, 1024));
}

#[test]
fn edge_long_side_never_below_thickness() {
    let work = ScreenRect { x: 0, y: 0, width: 100, height: 50 };
    let top = placement_at_edge(work, 64, Edge::Top, 40);
    assert_eq!(top.width, 64);
    let left = placement_at_edge(work, 64, Edge::Left, 40);
    assert_eq!(left.height, 64);
}

#[test]
fn edges_begin_where_corner_presets_put_the_window() {
    let work = ScreenRect { x: 100, y: 50, width: 1600, height: 900 };
    let t = 64;
    let m = 12;
    let top = placement_at_edge(work, t, Edge::Top, m);
    assert_eq!((top.x, top.y), position_at_corner(work, t, t, Corner::TopLeft, m));
    let left = placement_at_edge(work, t, Edge::Left, m);
    assert_eq!((left.x, left.y), position_at_corner(work, t, t, Corner::TopLeft, m));
    let bottom = placement_at_edge(work, t, Edge::Bottom, m);
    assert_eq!((bottom.x, bottom.y), position_at_corner(work, t, t, Corner::BottomLeft, m));
    let right = placement_at_edge(work, t, Edge::Right, m);
    assert_eq!((right.x, right.y), position_at_corner(work, t, t, Corner::TopRight, m));
}

#[test]
fn edge_windows_hug_their_edge() {
    let work = ScreenRect { x: -1280, y: 0, width: 1280, height: 1024 };
    let m = 4;
    let bottom = placement_at_edge(work, 48, Edge::Bottom, m);
    assert_eq!(bottom.y + bottom.height as i32 + m, work.y + work.height as i32);
    assert_eq!(bottom.x + bottom.width as i32 + m, work.x + work.width as i32);
    let right = placement_at_edge(work, 48, Edge::Right, m);
    assert_eq!(right.x + right.width as i32 + m, work.x + work.width as i32);
    assert_eq!(right.y + right.height as i32 + m, work.y + work.height as i32);
}

#[test]
fn work_area_from_bounds_clamps_inverted_extent() {
    let r = work_area_from_bounds(0, 0, 1920, 1040);
    assert_eq!((r.x, r.y, r.width, r.height), (0, 0, 1920, 1040));
    let r = work_area_from_bounds(-1920, 10, 0, 1090);
    assert_eq!((r.x, r.y, r.width, r.height), (-1920, 10, 1920, 1080));
    let r = work_area_from_bounds(50, 60, 40, 60);
    assert_eq!((r.x, r.y, r.width, r.height), (50, 60, 0, 0));
}

#[test]
fn floating_style_adds_four_bits_and_keeps_others() {
    let all = WS_EX_LAYERED | WS_EX_TRANSPARENT | WS_EX_TOOLWINDOW | WS_EX_NOACTIVATE;
    assert_eq!(all, 0x0808_00A0);
    assert_eq!(floating_ex_style(0), 0x0808_00A0);
    assert_eq!(floating_ex_style(0x0000_0100), 0x0808_01A0);
    assert_eq!(floating_ex_style(0x0808_00A0), 0x0808_00A0);
    let current: isize = 0x0004_0001;
    let r = floating_ex_style(current);
    assert_eq!(r & current, current);
    assert_eq!(r & all, all);
}

//! Geometry of the floating window: where a window of a given size goes on a
//! monitor's work area, for the four corner presets and the four edge presets,
//! and the extended window style that makes it a click-through overlay.

use vstd::prelude::*;

verus! {

/// A rectangle on the virtual desktop in physical pixels.
#[derive(Debug, Clone, Copy)]
pub struct ScreenRect {
    pub x: i32,
    pub y: i32,
    pub width: u32,
    pub height: u32,
}

#[derive(Debug, Clone, Copy, PartialEq, Eq, Structural)]
pub enum Corner {
    TopLeft,
    TopRight,
    BottomLeft,
    BottomRight,
}

#[derive(Debug, Clone, Copy, PartialEq, Eq, Structural)]
pub enum Edge {
    Top,
    Right,
    Bottom,
    Left,
}

/// The placement a user can store in the config: four corners and four edges.
#[derive(Debug, Clone, Copy, PartialEq, Eq, Structural)]
pub enum PlacementChoice {
    TopLeft,
    TopRight,
    BottomLeft,
    BottomRight,
    TopEdge,
    RightEdge,
    BottomEdge,
    LeftEdge,
}

impl Default for PlacementChoice {
    /// Bottom-right corner.
    fn default() -> (r: Self)
        ensures
            r == PlacementChoice::BottomRight,
    {
        PlacementChoice::BottomRight
    }
}

/// Window rectangle together with the rotation hint handed to bar shaders
/// (0 = normal, 1 = 90 degrees clockwise, 2 = 180 degrees, 3 = 90 degrees counter-clockwise).
#[derive(Debug, Clone, Copy)]
pub struct Placement {
    pub x: i32,
    pub y: i32,
    pub width: u32,
    pub height: u32,
    pub orientation: u32,
}

/// `v` is a value of `i32`.
pub open spec fn fits_i32(v: int) -> bool {
    i32::MIN <= v <= i32::MAX
}

/// Rotation hint of each edge: bars grow away from the edge the window sits on.
pub open spec fn edge_orientation(edge: Edge) -> u32 {
    match edge {
        Edge::Bottom => 0,
        Edge::Right => 1,
        Edge::Top => 2,
        Edge::Left => 3,
    }
}

/// Length of the side that runs along the edge: the work area's extent minus a
/// margin at both ends, but never less than the window's thickness.
pub open spec fn edge_long_side(extent: u32, thickness: u32, margin: i32) -> u32 {
    let avail = (extent as i32) - 2 * margin;
    let t = thickness as i32;
    (if avail >= t { avail } else { t as int }) as u32
}

/// The arithmetic of `placement_at_edge` stays within `i32` (it panics otherwise).
pub open spec fn edge_placement_fits(work: ScreenRect, thickness: u32, edge: Edge, margin: i32) -> bool {
    let w = work.width as i32;
    let h = work.height as i32;
    let t = thickness as i32;
    let right = work.x + w;
    let bottom = work.y + h;
    &&& fits_i32(right)
    &&& fits_i32(bottom)
    &&& fits_i32(2 * margin)
    &&& fits_i32(w - 2 * margin)
    &&& fits_i32(h - 2 * margin)
    &&& match edge {
        Edge::Top | Edge::Left => fits_i32(work.x + margin) && fits_i32(work.y + margin),
        Edge::Bottom => fits_i32(work.x + margin) && fits_i32(bottom - t) && fits_i32(
            bottom - t - margin,
        ),
        Edge::Right => fits_i32(right - t) && fits_i32(right - t - margin) && fits_i32(
            work.y + margin,
        ),
    }
}

/// The window laid along `edge` of the work area: `thickness` across the edge,
/// the whole work area (less the margins) along it, `margin` away from the edge.
pub open spec fn edge_placement(work: ScreenRect, thickness: u32, edge: Edge, margin: i32) -> Placement {
    let right = work.x + (work.width as i32);
    let bottom = work.y + (work.height as i32);
    let t = thickness as i32;
    let long_w = edge_long_side(work.width, thickness, margin);
    let long_h = edge_long_side(work.height, thickness, margin);
    match edge {
        Edge::Top => Placement {
            x: (work.x + margin) as i32,
            y: (work.y + margin) as i32,
            width: long_w,
            height: thickness,
            orientation: edge_orientation(edge),
        },
        Edge::Bottom => Placement {
            x: (work.x + margin) as i32,
            y: (bottom - t - margin) as i32,
            width: long_w,
            height: thickness,
            orientation: edge_orientation(edge),
        },
        Edge::Left => Placement {
            x: (work.x + margin) as i32,
            y: (work.y + margin) as i32,
            width: thickness,
            height: long_h,
            orientation: edge_orientation(edge),
        },
        Edge::Right => Placement {
            x: (right - t - margin) as i32,
            y: (work.y + margin) as i32,
            width: thickness,
            height: long_h,
            orientation: edge_orientation(edge),
        },
    }
}

/// Rectangle for a window laid along one of the four edges of the work area.
/// `thickness` is the window's size across the edge; along the edge it fills
/// the work area minus `margin` at both ends (never less than `thickness`).
pub fn placement_at_edge(work: ScreenRect, thickness: u32, edge: Edge, margin: i32) -> (p: Placement)
    requires
        edge_placement_fits(work, thickness, edge, margin),
    ensures
        p == edge_placement(work, thickness, edge, margin),
{
    let right = work.x + work.width as i32;
    let bottom = work.y + work.height as i32;
    let t = thickness as i32;
    let avail_w = work.width as i32 - 2 * margin;
    let long_w = (if avail_w >= thickness as i32 {
        avail_w
    } else {
        thickness as i32
    }) as u32;
    let avail_h = work.height as i32 - 2 * margin;
    let long_h = (if avail_h >= thickness as i32 {
        avail_h
    } else {
        thickness as i32
    }) as u32;
    match edge {
        Edge::Top => Placement {
            x: work.x + margin,
            y: work.y + margin,
            width: long_w,
            height: thickness,
            orientation: 2,
        },
        Edge::Bottom => Placement {
            x: work.x + margin,
            y: bottom - t - margin,
            width: long_w,
            height: thickness,
            orientation: 0,
        },
        Edge::Left => Placement {
            x: work.x + margin,
            y: work.y + margin,
            width: thickness,
            height: long_h,
            orientation: 3,
        },
        Edge::Right => Placement {
            x: right - t - margin,
            y: work.y + margin,
            width: thickness,
            height: long_h,
            orientation: 1,
        },
    }
}

/// The arithmetic of `position_at_corner` stays within `i32` (it panics otherwise).
pub open spec fn corner_position_fits(
    work: ScreenRect,
    win_w: u32,
    win_h: u32,
    corner: Corner,
    margin: i32,
) -> bool {
    let right = work.x + (work.width as i32);
    let bottom = work.y + (work.height as i32);
    let left_x = work.x + margin;
    let right_x = right - (win_w as i32) - margin;
    let top_y = work.y + margin;
    let bottom_y = bottom - (win_h as i32) - margin;
    &&& fits_i32(right)
    &&& fits_i32(bottom)
    &&& match corner {
        Corner::TopLeft => fits_i32(left_x) && fits_i32(top_y),
        Corner::TopRight => fits_i32(right - (win_w as i32)) && fits_i32(right_x) && fits_i32(top_y),
        Corner::BottomLeft => fits_i32(left_x) && fits_i32(bottom - (win_h as i32)) && fits_i32(
            bottom_y,
        ),
        Corner::BottomRight => fits_i32(right - (win_w as i32)) && fits_i32(right_x) && fits_i32(
            bottom - (win_h as i32),
        ) && fits_i32(bottom_y),
    }
}

/// Top-left position of a `win_w` x `win_h` window put in `corner`, `margin`
/// away from both edges that meet there.
pub open spec fn corner_position(
    work: ScreenRect,
    win_w: u32,
    win_h: u32,
    corner: Corner,
    margin: i32,
) -> (i32, i32) {
    let right = work.x + (work.width as i32);
    let bottom = work.y + (work.height as i32);
    let left_x = (work.x + margin) as i32;
    let right_x = (right - (win_w as i32) - margin) as i32;
    let top_y = (work.y + margin) as i32;
    let bottom_y = (bottom - (win_h as i32) - margin) as i32;
    match corner {
        Corner::TopLeft => (left_x, top_y),
        Corner::TopRight => (right_x, top_y),
        Corner::BottomLeft => (left_x, bottom_y),
        Corner::BottomRight => (right_x, bottom_y),
    }
}

/// Top-left position (physical pixels) of a `win_w` x `win_h` window placed in
/// `corner` of the work area.
pub fn position_at_corner(work: ScreenRect, win_w: u32, win_h: u32, corner: Corner, margin: i32) -> (r: (i32, i32))
    requires
        corner_position_fits(work, win_w, win_h, corner, margin),
    ensures
        r == corner_position(work, win_w, win_h, corner, margin),
{
    let right = work.x + work.width as i32;
    let bottom = work.y + work.height as i32;
    match corner {
        Corner::TopLeft => (work.x + margin, work.y + margin),
        Corner::TopRight => (right - win_w as i32 - margin, work.y + margin),
        Corner::BottomLeft => (work.x + margin, bottom - win_h as i32 - margin),
        Corner::BottomRight => (right - win_w as i32 - margin, bottom - win_h as i32 - margin),
    }
}

/// Work area given by its left, top, right and bottom bounds; an inverted
/// extent counts as empty.
pub fn work_area_from_bounds(left: i32, top: i32, right: i32, bottom: i32) -> (r: ScreenRect)
    requires
        fits_i32(right - left),
        fits_i32(bottom - top),
    ensures
        r.x == left,
        r.y == top,
        r.width == (if right - left > 0 { right - left } else { 0 }),
        r.height == (if bottom - top > 0 { bottom - top } else { 0 }),
{
    let w = right - left;
    let h = bottom - top;
    ScreenRect {
        x: left,
        y: top,
        width: if w > 0 { w as u32 } else { 0 },
        height: if h > 0 { h as u32 } else { 0 },
    }
}

/// `WS_EX_LAYERED`: alpha composition of the whole window.
pub const WS_EX_LAYERED: isize = 0x0008_0000;
/// `WS_EX_TRANSPARENT`: mouse input passes through to the windows below.
pub const WS_EX_TRANSPARENT: isize = 0x0000_0020;
/// `WS_EX_TOOLWINDOW`: kept out of Alt+Tab and the taskbar.
pub const WS_EX_TOOLWINDOW: isize = 0x0000_0080;
/// `WS_EX_NOACTIVATE`: a click does not take the focus.
pub const WS_EX_NOACTIVATE: isize = 0x0800_0000;

/// All the extended styles a floating window is given.
pub open spec fn floating_style_bits() -> isize {
    WS_EX_LAYERED | WS_EX_TRANSPARENT | WS_EX_TOOLWINDOW | WS_EX_NOACTIVATE
}

/// Extended window style of a floating window whose current extended style is
/// `current`: the current bits, plus layered, transparent, tool window and
/// no-activate.
pub fn floating_ex_style(current: isize) -> (r: isize)
    ensures
        r == current | floating_style_bits(),
{
    current | (WS_EX_LAYERED | WS_EX_TRANSPARENT | WS_EX_TOOLWINDOW | WS_EX_NOACTIVATE)
}

/// Making a window floating keeps every style bit it already had and sets
/// each of the four floating bits.
pub proof fn law_floating_style_keeps_and_adds(current: isize)
    ensures
        (current | floating_style_bits()) & current == current,
        (current | floating_style_bits()) & WS_EX_LAYERED == WS_EX_LAYERED,
        (current | floating_style_bits()) & WS_EX_TRANSPARENT == WS_EX_TRANSPARENT,
        (current | floating_style_bits()) & WS_EX_TOOLWINDOW == WS_EX_TOOLWINDOW,
        (current | floating_style_bits()) & WS_EX_NOACTIVATE == WS_EX_NOACTIVATE,
{
    assert((current | (0x0008_0000isize | 0x0000_0020isize | 0x0000_0080isize | 0x0800_0000isize))
        & current == current) by (bit_vector);
    assert((current | (0x0008_0000isize | 0x0000_0020isize | 0x0000_0080isize | 0x0800_0000isize))
        & 0x0008_0000isize == 0x0008_0000isize) by (bit_vector);
    assert((current | (0x0008_0000isize | 0x0000_0020isize | 0x0000_0080isize | 0x0800_0000isize))
        & 0x0000_0020isize == 0x0000_0020isize) by (bit_vector);
    assert((current | (0x0008_0000isize | 0x0000_0020isize | 0x0000_0080isize | 0x0800_0000isize))
        & 0x0000_0080isize == 0x0000_0080isize) by (bit_vector);
    assert((current | (0x0008_0000isize | 0x0000_0020isize | 0x0000_0080isize | 0x0800_0000isize))
        & 0x0800_0000isize == 0x0800_0000isize) by (bit_vector);
}

/// Laid along an edge, the window sits `margin` away from that edge and
/// `margin` away from where the edge begins; its far end sits `margin` before
/// the edge ends whenever the work area leaves room for the thickness.
pub proof fn law_edge_window_hugs_its_edge(work: ScreenRect, thickness: u32, edge: Edge, margin: i32)
    requires
        edge_placement_fits(work, thickness, edge, margin),
        work.width <= i32::MAX,
        work.height <= i32::MAX,
        thickness <= i32::MAX,
    ensures
        ({
            let p = edge_placement(work, thickness, edge, margin);
            &&& edge == Edge::Top ==> p.y == work.y + margin && p.height == thickness
            &&& edge == Edge::Bottom ==> p.y + p.height + margin == work.y + work.height
            &&& edge == Edge::Left ==> p.x == work.x + margin && p.width == thickness
            &&& edge == Edge::Right ==> p.x + p.width + margin == work.x + work.width
            &&& (edge == Edge::Top || edge == Edge::Bottom) ==> {
                &&& p.x == work.x + margin
                &&& p.height == thickness
                &&& work.width - 2 * margin >= thickness ==> p.x + p.width + margin == work.x
                    + work.width
                &&& work.width - 2 * margin < thickness ==> p.width == thickness
            }
            &&& (edge == Edge::Left || edge == Edge::Right) ==> {
                &&& p.y == work.y + margin
                &&& p.width == thickness
                &&& work.height - 2 * margin >= thickness ==> p.y + p.height + margin == work.y
                    + work.height
                &&& work.height - 2 * margin < thickness ==> p.height == thickness
            }
        }),
{
}

/// A window put in a corner sits `margin` away from both edges that meet there.
pub proof fn law_corner_window_sits_in_its_corner(
    work: ScreenRect,
    win_w: u32,
    win_h: u32,
    corner: Corner,
    margin: i32,
)
    requires
        corner_position_fits(work, win_w, win_h, corner, margin),
        work.width <= i32::MAX,
        work.height <= i32::MAX,
        win_w <= i32::MAX,
        win_h <= i32::MAX,
    ensures
        ({
            let (x, y) = corner_position(work, win_w, win_h, corner, margin);
            &&& (corner == Corner::TopLeft || corner == Corner::BottomLeft) ==> x == work.x + margin
            &&& (corner == Corner::TopRight || corner == Corner::BottomRight) ==> x + win_w + margin
                == work.x + work.width
            &&& (corner == Corner::TopLeft || corner == Corner::TopRight) ==> y == work.y + margin
            &&& (corner == Corner::BottomLeft || corner == Corner::BottomRight) ==> y + win_h
                + margin == work.y + work.height
        }),
{
}

/// Each edge placement begins where the matching corner preset puts a window
/// as thick as the edge window: top and left at the top-left corner, bottom at
/// the bottom-left corner, right at the top-right corner.
pub proof fn law_edges_begin_at_corners(work: ScreenRect, thickness: u32, margin: i32)
    ensures
        ({
            let top = edge_placement(work, thickness, Edge::Top, margin);
            let left = edge_placement(work, thickness, Edge::Left, margin);
            let bottom = edge_placement(work, thickness, Edge::Bottom, margin);
            let right = edge_placement(work, thickness, Edge::Right, margin);
            &&& (top.x, top.y) == corner_position(work, thickness, thickness, Corner::TopLeft, margin)
            &&& (left.x, left.y) == corner_position(work, thickness, thickness, Corner::TopLeft, margin)
            &&& (bottom.x, bottom.y) == corner_position(
                work,
                thickness,
                thickness,
                Corner::BottomLeft,
                margin,
            )
            &&& (right.x, right.y) == corner_position(
                work,
                thickness,
                thickness,
                Corner::TopRight,
                margin,
            )
        }),
{
}

/// Bars grow away from the edge the window sits on: the rotation hint is 0
/// at the bottom, 1 at the right, 2 at the top and 3 at the left.
pub proof fn law_edge_orientation_table(work: ScreenRect, thickness: u32, margin: i32)
    ensures
        edge_placement(work, thickness, Edge::Bottom, margin).orientation == 0,
        edge_placement(work, thickness, Edge::Right, margin).orientation == 1,
        edge_placement(work, thickness, Edge::Top, margin).orientation == 2,
        edge_placement(work, thickness, Edge::Left, margin).orientation == 3,
{
}

} // verus!

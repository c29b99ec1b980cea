//! Which edges of a window a pointer grabs, and what that looks like.

use vstd::prelude::*;
use crate::canoe::window::{Window, WindowView};
use crate::num::{abs_i64, magnitude, quot};
use crate::protocol::{CursorShape, EDGE_BOTTOM, EDGE_LEFT, EDGE_RIGHT, EDGE_TOP};

verus! {

/// The edges nearest to the pointer: left or right and top or bottom of the
/// centre of the window.
pub open spec fn resize_edges(w: WindowView, px: i32, py: i32) -> u32 {
    let cx = w.x + quot(w.width as int, 2);
    let cy = w.y + quot(w.height as int, 2);
    ((if px < cx {
        EDGE_LEFT
    } else {
        EDGE_RIGHT
    }) + (if py < cy {
        EDGE_TOP
    } else {
        EDGE_BOTTOM
    })) as u32
}

/// Calculate resize edges based on pointer position
pub fn calculate_resize_edges(window: &Window, px: i32, py: i32) -> (r: u32)
    ensures
        r == resize_edges(window@, px, py),
{
    let cx: i64 = window.x as i64 + (window.width / 2) as i64;
    let cy: i64 = window.y as i64 + (window.height / 2) as i64;
    let horiz: u32 = if (px as i64) < cx {
        EDGE_LEFT
    } else {
        EDGE_RIGHT
    };
    let vert: u32 = if (py as i64) < cy {
        EDGE_TOP
    } else {
        EDGE_BOTTOM
    };
    horiz + vert
}

/// The edge of a stretch that `p` is within `reach` of: the closer one, and the
/// near one where both are equally close.
pub open spec fn near_edge(start: int, end: int, reach: int, p: int, near: u32, far: u32) -> u32 {
    let to_start = magnitude(p - start);
    let to_end = magnitude(p - end);
    if to_end <= reach && (to_start > reach || to_end < to_start) {
        far
    } else if to_start <= reach {
        near
    } else {
        0
    }
}

/// The edges of a frame that the pointer is within `border` of.
pub open spec fn edges_near_border(
    x: int,
    y: int,
    width: int,
    height: int,
    border: int,
    px: int,
    py: int,
) -> u32 {
    if width <= 0 || height <= 0 || border <= 0 {
        0
    } else {
        let horiz = if y - border <= py <= y + height + border {
            near_edge(x, x + width, border, px, EDGE_LEFT, EDGE_RIGHT)
        } else {
            0
        };
        let vert = if x - border <= px <= x + width + border {
            near_edge(y, y + height, border, py, EDGE_TOP, EDGE_BOTTOM)
        } else {
            0
        };
        (horiz + vert) as u32
    }
}

fn closer_edge(start: i64, end: i64, reach: i64, p: i64, near: u32, far: u32) -> (r: u32)
    requires
        -0x10_0000_0000 <= start <= 0x10_0000_0000,
        -0x10_0000_0000 <= end <= 0x10_0000_0000,
        -0x10_0000_0000 <= p <= 0x10_0000_0000,
    ensures
        r == near_edge(start as int, end as int, reach as int, p as int, near, far),
{
    let to_start: i64 = abs_i64(p - start);
    let to_end: i64 = abs_i64(p - end);
    let mut edge: u32 = 0;
    if to_start <= reach {
        edge = near;
    }
    if to_end <= reach && (to_start > reach || to_end < to_start) {
        edge = far;
    }
    edge
}

/// The edges of a frame that the pointer is close to
pub fn calculate_resize_edges_near_border(
    x: i64,
    y: i64,
    width: i64,
    height: i64,
    border: i32,
    px: i32,
    py: i32,
) -> (r: u32)
    requires
        -0x8_0000_0000 <= x <= 0x8_0000_0000,
        -0x8_0000_0000 <= y <= 0x8_0000_0000,
        -0x8_0000_0000 <= width <= 0x8_0000_0000,
        -0x8_0000_0000 <= height <= 0x8_0000_0000,
    ensures
        r == edges_near_border(
            x as int,
            y as int,
            width as int,
            height as int,
            border as int,
            px as int,
            py as int,
        ),
{
    if width <= 0 || height <= 0 || border <= 0 {
        return 0;
    }
    let border: i64 = border as i64;
    let px: i64 = px as i64;
    let py: i64 = py as i64;
    let mut horiz: u32 = 0;
    let mut vert: u32 = 0;
    if py >= y - border && py <= y + height + border {
        horiz = closer_edge(x, x + width, border, px, EDGE_LEFT, EDGE_RIGHT);
    }
    if px >= x - border && px <= x + width + border {
        vert = closer_edge(y, y + height, border, py, EDGE_TOP, EDGE_BOTTOM);
    }
    horiz + vert
}

/// The pointer shape for dragging edges.
pub open spec fn shape_for_edges(edges: u32) -> Option<CursorShape> {
    let horiz = edges & 12;
    let vert = edges & 3;
    if horiz == 4 && vert == 1 {
        Some(CursorShape::NwResize)
    } else if horiz == 8 && vert == 1 {
        Some(CursorShape::NeResize)
    } else if horiz == 4 && vert == 2 {
        Some(CursorShape::SwResize)
    } else if horiz == 8 && vert == 2 {
        Some(CursorShape::SeResize)
    } else if horiz == 4 && vert == 0 {
        Some(CursorShape::WResize)
    } else if horiz == 8 && vert == 0 {
        Some(CursorShape::EResize)
    } else if horiz == 0 && vert == 1 {
        Some(CursorShape::NResize)
    } else if horiz == 0 && vert == 2 {
        Some(CursorShape::SResize)
    } else if horiz == 12 && vert == 0 {
        Some(CursorShape::EwResize)
    } else if horiz == 0 && vert == 3 {
        Some(CursorShape::NsResize)
    } else if horiz == 12 && vert == 3 {
        Some(CursorShape::AllResize)
    } else {
        None
    }
}

/// The pointer shape for dragging edges
pub fn cursor_shape_for_edges(edges: u32) -> (r: Option<CursorShape>)
    ensures
        r == shape_for_edges(edges),
{
    let horiz: u32 = edges & 12;
    let vert: u32 = edges & 3;
    if horiz == 4 && vert == 1 {
        return Some(CursorShape::NwResize);
    }
    if horiz == 8 && vert == 1 {
        return Some(CursorShape::NeResize);
    }
    if horiz == 4 && vert == 2 {
        return Some(CursorShape::SwResize);
    }
    if horiz == 8 && vert == 2 {
        return Some(CursorShape::SeResize);
    }
    if horiz == 4 && vert == 0 {
        return Some(CursorShape::WResize);
    }
    if horiz == 8 && vert == 0 {
        return Some(CursorShape::EResize);
    }
    if horiz == 0 && vert == 1 {
        return Some(CursorShape::NResize);
    }
    if horiz == 0 && vert == 2 {
        return Some(CursorShape::SResize);
    }
    if horiz == 12 && vert == 0 {
        return Some(CursorShape::EwResize);
    }
    if horiz == 0 && vert == 3 {
        return Some(CursorShape::NsResize);
    }
    if horiz == 12 && vert == 3 {
        return Some(CursorShape::AllResize);
    }
    None
}

/// Whether a point lies in the titlebar above a window at `(x, y)`.
pub open spec fn in_titlebar(x: int, y: int, width: int, titlebar_height: int, px: int, py: int) -> bool {
    width > 0 && titlebar_height > 0 && x <= px <= x + width && y - titlebar_height <= py <= y
}

/// Whether a point lies in the titlebar above a window at `(x, y)`
pub fn point_in_titlebar(x: i32, y: i64, width: i32, titlebar_height: i32, px: i32, py: i32) -> (r: bool)
    requires
        -0x8_0000_0000 <= y <= 0x8_0000_0000,
    ensures
        r == in_titlebar(
            x as int,
            y as int,
            width as int,
            titlebar_height as int,
            px as int,
            py as int,
        ),
{
    if width <= 0 || titlebar_height <= 0 {
        return false;
    }
    px >= x && px as i64 <= x as i64 + width as i64 && py as i64 >= y - titlebar_height as i64
        && py as i64 <= y
}

/// Every pair of edges that a pointer can grab has a shape of its own, and a
/// pointer near no edge has none.
pub proof fn law_grabbed_edges_have_a_shape(w: WindowView, px: i32, py: i32)
    ensures
        shape_for_edges(resize_edges(w, px, py)) is Some,
        shape_for_edges(0) is None,
{
    assert(5u32 & 12 == 4 && 5u32 & 3 == 1) by (bit_vector);
    assert(6u32 & 12 == 4 && 6u32 & 3 == 2) by (bit_vector);
    assert(9u32 & 12 == 8 && 9u32 & 3 == 1) by (bit_vector);
    assert(10u32 & 12 == 8 && 10u32 & 3 == 2) by (bit_vector);
    assert(0u32 & 12 == 0 && 0u32 & 3 == 0) by (bit_vector);
}

/// Of the edges that a pointer grabs, each is the one on its side of the window:
/// a pointer in the right half grabs the right edge and not the left one, a
/// pointer in the lower half the bottom and not the top, and the other way round.
pub proof fn law_pointer_grabs_the_nearer_edges(w: WindowView, px: i32, py: i32)
    requires
        w.width >= 0,
        w.height >= 0,
    ensures
        ({
            let edges = resize_edges(w, px, py);
            let right = edges == 9 || edges == 10;
            let left = edges == 5 || edges == 6;
            let bottom = edges == 6 || edges == 10;
            let top = edges == 5 || edges == 9;
            &&& left != right
            &&& top != bottom
            &&& (px - w.x) * 2 >= w.width ==> right
            &&& (px - w.x) * 2 + 1 < w.width ==> left
            &&& (py - w.y) * 2 >= w.height ==> bottom
            &&& (py - w.y) * 2 + 1 < w.height ==> top
            &&& right <==> edges & EDGE_RIGHT != 0
            &&& left <==> edges & EDGE_LEFT != 0
            &&& bottom <==> edges & EDGE_BOTTOM != 0
            &&& top <==> edges & EDGE_TOP != 0
        }),
{
    assert(5u32 & 1 != 0 && 5u32 & 2 == 0 && 5u32 & 4 != 0 && 5u32 & 8 == 0) by (bit_vector);
    assert(6u32 & 1 == 0 && 6u32 & 2 != 0 && 6u32 & 4 != 0 && 6u32 & 8 == 0) by (bit_vector);
    assert(9u32 & 1 != 0 && 9u32 & 2 == 0 && 9u32 & 4 == 0 && 9u32 & 8 != 0) by (bit_vector);
    assert(10u32 & 1 == 0 && 10u32 & 2 != 0 && 10u32 & 4 == 0 && 10u32 & 8 != 0) by (bit_vector);
}

/// A pointer grabs the left edge of a frame exactly if it is no further from it
/// than the border is wide, no closer to the right edge, and not above or below
/// the frame by more than the border; likewise with the other edges.
pub proof fn law_border_is_grabbed_where_it_is(
    x: int,
    y: int,
    width: int,
    height: int,
    border: int,
    px: int,
    py: int,
)
    requires
        width > 0,
        height > 0,
        border > 0,
    ensures
        ({
            let edges = edges_near_border(x, y, width, height, border, px, py);
            let beside = y - border <= py <= y + height + border;
            let along = x - border <= px <= x + width + border;
            let left = x - border <= px <= x + border && px - x <= x + width - px;
            let right = x + width - border <= px <= x + width + border && px - x > x + width - px;
            let top = y - border <= py <= y + border && py - y <= y + height - py;
            let bottom = y + height - border <= py <= y + height + border && py - y > y + height
                - py;
            &&& (edges == 4 || edges == 5 || edges == 6) <==> beside && left
            &&& (edges == 8 || edges == 9 || edges == 10) <==> beside && right
            &&& (edges == 1 || edges == 5 || edges == 9) <==> along && top
            &&& (edges == 2 || edges == 6 || edges == 10) <==> along && bottom
            &&& edges == 0 <==> !(beside && (left || right)) && !(along && (top || bottom))
        }),
{
}

/// A frame without an extent or without a border cannot be grabbed.
pub proof fn law_nothing_has_no_border(
    x: int,
    y: int,
    width: int,
    height: int,
    border: int,
    px: int,
    py: int,
)
    requires
        width <= 0 || height <= 0 || border <= 0,
    ensures
        edges_near_border(x, y, width, height, border, px, py) == 0,
{
}

/// Different edges have different pointer shapes, and turning left and right
/// around turns the shape around: west shapes become east shapes, and so do top
/// and bottom with north and south.
pub proof fn law_shapes_point_where_the_edges_are(edges: u32)
    requires
        edges == 1 || edges == 2 || edges == 4 || edges == 5 || edges == 6 || edges == 8 || edges
            == 9 || edges == 10,
    ensures
        ({
            let shape = shape_for_edges(edges);
            &&& (shape == Some(CursorShape::WResize) || shape == Some(CursorShape::NwResize)
                || shape == Some(CursorShape::SwResize)) <==> edges & EDGE_LEFT != 0
            &&& (shape == Some(CursorShape::EResize) || shape == Some(CursorShape::NeResize)
                || shape == Some(CursorShape::SeResize)) <==> edges & EDGE_RIGHT != 0
            &&& (shape == Some(CursorShape::NResize) || shape == Some(CursorShape::NwResize)
                || shape == Some(CursorShape::NeResize)) <==> edges & EDGE_TOP != 0
            &&& (shape == Some(CursorShape::SResize) || shape == Some(CursorShape::SwResize)
                || shape == Some(CursorShape::SeResize)) <==> edges & EDGE_BOTTOM != 0
        }),
{
    assert(1u32 & 1 != 0 && 1u32 & 2 == 0 && 1u32 & 4 == 0 && 1u32 & 8 == 0 && 1u32 & 12 == 0
        && 1u32 & 3 == 1) by (bit_vector);
    assert(2u32 & 1 == 0 && 2u32 & 2 != 0 && 2u32 & 4 == 0 && 2u32 & 8 == 0 && 2u32 & 12 == 0
        && 2u32 & 3 == 2) by (bit_vector);
    assert(4u32 & 1 == 0 && 4u32 & 2 == 0 && 4u32 & 4 != 0 && 4u32 & 8 == 0 && 4u32 & 12 == 4
        && 4u32 & 3 == 0) by (bit_vector);
    assert(8u32 & 1 == 0 && 8u32 & 2 == 0 && 8u32 & 4 == 0 && 8u32 & 8 != 0 && 8u32 & 12 == 8
        && 8u32 & 3 == 0) by (bit_vector);
    assert(5u32 & 1 != 0 && 5u32 & 2 == 0 && 5u32 & 4 != 0 && 5u32 & 8 == 0 && 5u32 & 12 == 4
        && 5u32 & 3 == 1) by (bit_vector);
    assert(6u32 & 1 == 0 && 6u32 & 2 != 0 && 6u32 & 4 != 0 && 6u32 & 8 == 0 && 6u32 & 12 == 4
        && 6u32 & 3 == 2) by (bit_vector);
    assert(9u32 & 1 != 0 && 9u32 & 2 == 0 && 9u32 & 4 == 0 && 9u32 & 8 != 0 && 9u32 & 12 == 8
        && 9u32 & 3 == 1) by (bit_vector);
    assert(10u32 & 1 == 0 && 10u32 & 2 != 0 && 10u32 & 4 == 0 && 10u32 & 8 != 0 && 10u32 & 12
        == 8 && 10u32 & 3 == 2) by (bit_vector);
}

} // verus!

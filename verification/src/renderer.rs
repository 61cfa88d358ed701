//! The view-space model the renderer reads: a circular viewing area and
//! the screen-bounds test.
use vstd::prelude::*;
use crate::geom::{Rect, Vec2i};
use crate::{GAME_SIZE_X, GAME_SIZE_Y};

verus! {

/// A circular viewing area around a centre point.
pub struct Viewspace {
    position: Vec2i,
    radius: i64,
}

impl Viewspace {
    /// The centre.
    pub closed spec fn position_view(self) -> Vec2i {
        self.position
    }

    /// The radius, in fixed-point steps.
    pub closed spec fn radius_view(self) -> i64 {
        self.radius
    }

    /// A viewspace at the origin, five hundred steps across.
    pub fn new() -> (v: Viewspace)
        ensures
            v.position_view() == (Vec2i { x: 0, y: 0 }),
            v.radius_view() == 500,
    {
        Viewspace { position: Vec2i { x: 0, y: 0 }, radius: 500 }
    }

    /// Moves the centre.
    pub fn set_position(&mut self, position: Vec2i)
        ensures
            final(self).position_view() == position,
            final(self).radius_view() == old(self).radius_view(),
    {
        self.position = position;
    }

    /// Resizes the area.
    pub fn set_radius(&mut self, radius: i64)
        ensures
            final(self).radius_view() == radius,
            final(self).position_view() == old(self).position_view(),
    {
        self.radius = radius;
    }

    /// Reads the centre.
    pub fn get_position(&self) -> (p: Vec2i)
        ensures
            p == self.position_view(),
    {
        self.position
    }

    /// Reads the radius.
    pub fn get_radius(&self) -> (r: i64)
        ensures
            r == self.radius_view(),
    {
        self.radius
    }
}

/// The rectangle pokes out of the fixed screen area.
pub open spec fn outside_screen(rect: Rect) -> bool {
    ||| rect.x < 0
    ||| rect.x + rect.w > GAME_SIZE_X
    ||| rect.y < 0
    ||| rect.y + rect.h > GAME_SIZE_Y
}

/// Exact test for `outside_screen`.
pub fn inside_screen(rect: Rect) -> (r: bool)
    ensures
        r == outside_screen(rect),
{
    rect.x < 0 || (rect.x as i128) + (rect.w as i128) > (GAME_SIZE_X as i128) || rect.y < 0 || (
    rect.y as i128) + (rect.h as i128) > (GAME_SIZE_Y as i128)
}

/// The point of the rectangle nearest to `p`, on the horizontal axis.
pub open spec fn clamp_to_rect_x(rect: Rect, p: Vec2i) -> int {
    if p.x < rect.x {
        rect.x as int
    } else if p.x > rect.x + rect.w {
        rect.x + rect.w
    } else {
        p.x as int
    }
}

/// The point of the rectangle nearest to `p`, on the vertical axis.
pub open spec fn clamp_to_rect_y(rect: Rect, p: Vec2i) -> int {
    if p.y < rect.y {
        rect.y as int
    } else if p.y > rect.y + rect.h {
        rect.y + rect.h
    } else {
        p.y as int
    }
}

/// The rectangle touches the circular area around `viewspace_position`:
/// the squared distance from the centre to the rectangle's nearest point
/// is within the squared radius.
pub open spec fn rect_in_visible_area(rect: Rect, viewspace_position: Vec2i, radius: int) -> bool {
    (viewspace_position.x - clamp_to_rect_x(rect, viewspace_position)) * (viewspace_position.x
        - clamp_to_rect_x(rect, viewspace_position)) + (viewspace_position.y - clamp_to_rect_y(
        rect,
        viewspace_position,
    )) * (viewspace_position.y - clamp_to_rect_y(rect, viewspace_position)) <= radius * radius
}

/// Exact test for `rect_in_visible_area`, compared on squares so no root
/// is needed.
pub fn inside_visible_area(rect: Rect, viewspace_position: Vec2i, radius: i64) -> (r: bool)
    requires
        rect.wf(),
        viewspace_position.in_range(),
        0 <= radius <= crate::COORD_LIMIT,
    ensures
        r == rect_in_visible_area(rect, viewspace_position, radius as int),
{
    let mut test_x: i64 = viewspace_position.x;
    let mut test_y: i64 = viewspace_position.y;
    if viewspace_position.x < rect.x {
        test_x = rect.x;
    } else if viewspace_position.x > rect.x + rect.w {
        test_x = rect.x + rect.w;
    }
    if viewspace_position.y < rect.y {
        test_y = rect.y;
    } else if viewspace_position.y > rect.y + rect.h {
        test_y = rect.y + rect.h;
    }
    let dist_x: i128 = (viewspace_position.x as i128) - (test_x as i128);
    let dist_y: i128 = (viewspace_position.y as i128) - (test_y as i128);
    proof {
        assert(dist_x * dist_x <= 0x1000000000000000000000000int && 0 <= dist_x * dist_x && dist_y
            * dist_y <= 0x1000000000000000000000000int && 0 <= dist_y * dist_y && 0 <= (radius as int)
            * (radius as int) <= 0x1000000000000000000000000int) by (nonlinear_arith)
            requires
                -0x100000000000int <= dist_x <= 0x100000000000int,
                -0x100000000000int <= dist_y <= 0x100000000000int,
                0 <= radius <= 1_000_000_000i64,
        ;
    }
    dist_x * dist_x + dist_y * dist_y <= (radius as i128) * (radius as i128)
}

} // verus!

//! Pure geometric predicates: rectangle intersection, window-border and
//! despawn-zone tests against the horizontally scrolling play area, and
//! wall blocking.
//!
//! Each executable function returns exactly its spec-level formula; the
//! comparisons are made in 128-bit arithmetic, so no input is excluded.
use vstd::prelude::*;
use crate::geom::{Rect, Vec2i, rects_overlap};
use crate::{GAME_SIZE_X, GAME_SIZE_Y, SUBUNIT};

verus! {

/// The rectangle pokes out of the play window scrolled to `level_progress`:
/// a missile that satisfies this is despawned.
pub open spec fn outside_windowborder(rect: Rect, level_progress: int) -> bool {
    ||| rect.x < level_progress
    ||| rect.x + rect.w > GAME_SIZE_X + level_progress
    ||| rect.y < 0
    ||| rect.y + rect.h > GAME_SIZE_Y
}

/// `outside_windowborder` with the window's sides shifted by `x_offset`
/// (left, right) and `y_offset` (top, bottom).
pub open spec fn outside_windowborder_with_offset(
    rect: Rect,
    level_progress: int,
    x_offset: Vec2i,
    y_offset: Vec2i,
) -> bool {
    ||| rect.x < x_offset.x + level_progress
    ||| rect.x + rect.w > x_offset.y + GAME_SIZE_X + level_progress
    ||| rect.y < y_offset.x
    ||| rect.y + rect.h > y_offset.y + GAME_SIZE_Y
}

/// The rectangle pokes out of the scrolled window widened by a hundred
/// units on either side: the player dies here.
pub open spec fn outside_deathzone(rect: Rect, level_progress: int) -> bool {
    ||| rect.x < -100 * SUBUNIT + level_progress
    ||| rect.x + rect.w > 100 * SUBUNIT + GAME_SIZE_X + level_progress
    ||| rect.y < 0
    ||| rect.y + rect.h > GAME_SIZE_Y
}

/// `outside_deathzone` with fifty units of extra slack above and below.
pub open spec fn outside_extended_deathzone(rect: Rect, level_progress: int) -> bool {
    ||| rect.x < -100 * SUBUNIT + level_progress
    ||| rect.x + rect.w > 100 * SUBUNIT + GAME_SIZE_X + level_progress
    ||| rect.y < -50 * SUBUNIT
    ||| rect.y + rect.h > GAME_SIZE_Y + 50 * SUBUNIT
}

/// The rectangle lies strictly inside the play window scrolled to
/// `level_progress`, widened by `y_offset` above and below.
pub open spec fn inside_windowborder_spec(rect: Rect, level_progress: int, y_offset: int) -> bool {
    &&& rect.x > level_progress
    &&& rect.x + rect.w < GAME_SIZE_X + level_progress
    &&& rect.y > -y_offset
    &&& rect.y + rect.h < GAME_SIZE_Y + y_offset
}

/// The rectangle lies inside the scrolled window with a hundred and fifty
/// units of slack all round: the culling test for what is still simulated.
pub open spec fn inside_windowview_spec(rect: Rect, level_progress: int) -> bool {
    &&& rect.x > level_progress - 150 * SUBUNIT
    &&& rect.x + rect.w < GAME_SIZE_X + level_progress + 150 * SUBUNIT
    &&& rect.y > -150 * SUBUNIT
    &&& rect.y + rect.h < GAME_SIZE_Y + 150 * SUBUNIT
}

/// The rectangle lies inside the scrolled window with asymmetric
/// horizontal slack `x_extension_range` (left, right) and vertical slack
/// `y_offset`: the generous despawn test that keeps briefly-offscreen
/// enemies alive.
pub open spec fn inside_windowborder_extended_sides_spec(
    rect: Rect,
    level_progress: int,
    y_offset: int,
    x_extension_range: Vec2i,
) -> bool {
    &&& rect.x > level_progress - x_extension_range.x
    &&& rect.x + rect.w < GAME_SIZE_X + level_progress + x_extension_range.y
    &&& rect.y > -y_offset
    &&& rect.y + rect.h < GAME_SIZE_Y + y_offset
}

/// Exact test for `outside_windowborder`.
pub fn resolve_windowborder(rect: Rect, level_progress: i64) -> (r: bool)
    ensures
        r == outside_windowborder(rect, level_progress as int),
{
    (rect.x as i128) < (level_progress as i128) || (rect.x as i128) + (rect.w as i128) > (
    GAME_SIZE_X as i128) + (level_progress as i128) || rect.y < 0 || (rect.y as i128) + (
    rect.h as i128) > (GAME_SIZE_Y as i128)
}

/// Exact test for `outside_windowborder_with_offset`.
pub fn resolve_windowborder_with_offset(
    rect: Rect,
    level_progress: i64,
    x_offset: Vec2i,
    y_offset: Vec2i,
) -> (r: bool)
    ensures
        r == outside_windowborder_with_offset(rect, level_progress as int, x_offset, y_offset),
{
    (rect.x as i128) < (x_offset.x as i128) + (level_progress as i128) || (rect.x as i128) + (
    rect.w as i128) > (x_offset.y as i128) + (GAME_SIZE_X as i128) + (level_progress as i128) || (
    rect.y as i128) < (y_offset.x as i128) || (rect.y as i128) + (rect.h as i128) > (
    y_offset.y as i128) + (GAME_SIZE_Y as i128)
}

/// Exact test for `outside_deathzone`.
pub fn resolve_deathzone(rect: Rect, level_progress: i64) -> (r: bool)
    ensures
        r == outside_deathzone(rect, level_progress as int),
{
    (rect.x as i128) + 100 * (SUBUNIT as i128) < (level_progress as i128) || (rect.x as i128) + (
    rect.w as i128) > 100 * (SUBUNIT as i128) + (GAME_SIZE_X as i128) + (level_progress as i128)
        || rect.y < 0 || (rect.y as i128) + (rect.h as i128) > (GAME_SIZE_Y as i128)
}

/// Exact test for `outside_extended_deathzone`.
pub fn resolve_extended_deathzone(rect: Rect, level_progress: i64) -> (r: bool)
    ensures
        r == outside_extended_deathzone(rect, level_progress as int),
{
    (rect.x as i128) + 100 * (SUBUNIT as i128) < (level_progress as i128) || (rect.x as i128) + (
    rect.w as i128) > 100 * (SUBUNIT as i128) + (GAME_SIZE_X as i128) + (level_progress as i128)
        || (rect.y as i128) + 50 * (SUBUNIT as i128) < 0 || (rect.y as i128) + (rect.h as i128) > (
    GAME_SIZE_Y as i128) + 50 * (SUBUNIT as i128)
}

/// Exact test for `inside_windowborder_spec`.
pub fn inside_windowborder(rect: Rect, level_progress: i64, y_offset: i64) -> (r: bool)
    ensures
        r == inside_windowborder_spec(rect, level_progress as int, y_offset as int),
{
    (rect.x as i128) > (level_progress as i128) && (rect.x as i128) + (rect.w as i128) < (
    GAME_SIZE_X as i128) + (level_progress as i128) && (rect.y as i128) > -(y_offset as i128) && (
    rect.y as i128) + (rect.h as i128) < (GAME_SIZE_Y as i128) + (y_offset as i128)
}

/// Exact test for `inside_windowview_spec`.
pub fn inside_windowview(rect: Rect, level_progress: i64) -> (r: bool)
    ensures
        r == inside_windowview_spec(rect, level_progress as int),
{
    (rect.x as i128) > (level_progress as i128) - 150 * (SUBUNIT as i128) && (rect.x as i128) + (
    rect.w as i128) < (GAME_SIZE_X as i128) + (level_progress as i128) + 150 * (SUBUNIT as i128)
        && (rect.y as i128) + 150 * (SUBUNIT as i128) > 0 && (rect.y as i128) + (rect.h as i128) < (
    GAME_SIZE_Y as i128) + 150 * (SUBUNIT as i128)
}

/// Exact test for `inside_windowborder_extended_sides_spec`.
pub fn inside_windowborder_extended_sides(
    rect: Rect,
    level_progress: i64,
    y_offset: i64,
    x_extension_range: Vec2i,
) -> (r: bool)
    ensures
        r == inside_windowborder_extended_sides_spec(
            rect,
            level_progress as int,
            y_offset as int,
            x_extension_range,
        ),
{
    (rect.x as i128) > (level_progress as i128) - (x_extension_range.x as i128) && (rect.x as i128)
        + (rect.w as i128) < (GAME_SIZE_X as i128) + (level_progress as i128) + (
    x_extension_range.y as i128) && (rect.y as i128) > -(y_offset as i128) && (rect.y as i128) + (
    rect.h as i128) < (GAME_SIZE_Y as i128) + (y_offset as i128)
}

/// Exact axis-aligned overlap test; touching edges count as overlap.
pub fn resolve_intersection(rect_1: Rect, rect_2: Rect) -> (r: bool)
    ensures
        r == rects_overlap(rect_1, rect_2),
{
    (rect_1.x as i128) <= (rect_2.x as i128) + (rect_2.w as i128) && (rect_2.x as i128) <= (
    rect_1.x as i128) + (rect_1.w as i128) && (rect_1.y as i128) <= (rect_2.y as i128) + (
    rect_2.h as i128) && (rect_2.y as i128) <= (rect_1.y as i128) + (rect_1.h as i128)
}

/// `resolve_levelwalls` on a borrowed list.
pub(crate) fn walls_overlap(rect: Rect, walls: &Vec<Rect>) -> (r: bool)
    ensures
        r == exists|i: int| 0 <= i < walls@.len() && rects_overlap(rect, #[trigger] walls@[i]),
{
    let mut idx: usize = 0;
    while idx < walls.len()
        invariant
            idx <= walls@.len(),
            forall|j: int| 0 <= j < idx ==> !rects_overlap(rect, #[trigger] walls@[j]),
        decreases walls@.len() - idx,
    {
        if resolve_intersection(rect, walls[idx]) {
            return true;
        }
        idx = idx + 1;
    }
    false
}

/// True exactly when the rectangle overlaps some wall in the list.
pub fn resolve_levelwalls(rect: Rect, walls: Vec<Rect>) -> (r: bool)
    ensures
        r == exists|i: int| 0 <= i < walls@.len() && rects_overlap(rect, #[trigger] walls@[i]),
{
    walls_overlap(rect, &walls)
}

} // verus!

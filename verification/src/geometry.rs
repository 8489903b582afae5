//! The per-side hit geometry: the radius-inflated rectangle around a paddle
//! that the ball's centre must enter to register contact.

use crate::state::{horizontal, Side};
use crate::units::{div_fix, div_t, COORD_LIMIT};
use vstd::arithmetic::div_mod::{lemma_div_by_multiple, lemma_div_is_ordered, lemma_div_pos_is_pos};
use vstd::prelude::*;

verus! {

/// Numerator of the inflation factor applied to the ball radius.  The factor
/// is deliberately above one: a purely geometric sum under-detects a fast
/// ball that crosses the boundary within a single tick, so the effective
/// rectangle is padded a little beyond the radius.
pub const OFFSET_NUM: i64 = 11;

/// Denominator of the inflation factor, making the factor 11/10.
pub const OFFSET_DEN: i64 = 10;

/// The inflated radius added to each boundary of a paddle's hit rectangle:
/// `11/10` of the radius, rounded up.  Rounding up keeps the inflation
/// strict — the offset exceeds every positive radius — where rounding down
/// would shave the deliberate padding off small radii.
pub open spec fn radius_offset_spec(ball_radius: int) -> int {
    div_t(ball_radius * OFFSET_NUM + (OFFSET_DEN - 1), OFFSET_DEN as int)
}

/// The inflation pads strictly and stays within twice the coordinate band:
/// a positive radius inflates to an offset above itself, and every boundary
/// sum below fits in an `i64`.
pub proof fn lemma_offset_bound(ball_radius: int)
    requires
        0 <= ball_radius <= COORD_LIMIT,
    ensures
        0 <= radius_offset_spec(ball_radius) <= 2 * COORD_LIMIT,
        ball_radius > 0 ==> radius_offset_spec(ball_radius) > ball_radius,
{
    lemma_div_pos_is_pos(ball_radius * OFFSET_NUM + (OFFSET_DEN - 1), OFFSET_DEN as int);
    lemma_div_is_ordered(
        ball_radius * OFFSET_NUM + (OFFSET_DEN - 1),
        COORD_LIMIT * OFFSET_NUM + (OFFSET_DEN - 1),
        OFFSET_DEN as int,
    );
    if ball_radius > 0 {
        lemma_div_is_ordered(
            (ball_radius + 1) * OFFSET_DEN,
            ball_radius * OFFSET_NUM + (OFFSET_DEN - 1),
            OFFSET_DEN as int,
        );
        lemma_div_by_multiple(ball_radius + 1, OFFSET_DEN as int);
    }
}

/// The inflated radius, computed exactly as `radius_offset_spec` states; it
/// strictly exceeds every positive radius.
pub fn radius_offset(ball_radius: i64) -> (offset: i64)
    requires
        0 <= ball_radius <= COORD_LIMIT,
    ensures
        offset == radius_offset_spec(ball_radius as int),
        0 <= offset <= 2 * COORD_LIMIT,
        ball_radius > 0 ==> offset > ball_radius,
{
    proof {
        lemma_offset_bound(ball_radius as int);
    }
    div_fix(ball_radius * OFFSET_NUM + (OFFSET_DEN - 1), OFFSET_DEN)
}

/// y coordinate of the upper boundary of a hit rectangle.
pub struct Top(pub i64);

/// y coordinate of the lower boundary of a hit rectangle.
pub struct Bottom(pub i64);

/// x coordinate of the left boundary of a hit rectangle.
pub struct Left(pub i64);

/// x coordinate of the right boundary of a hit rectangle.
pub struct Right(pub i64);

pub open spec fn rect_left_spec(paddle_x: int, ball_radius: int) -> int {
    paddle_x - radius_offset_spec(ball_radius)
}

pub open spec fn rect_right_spec(
    paddle_x: int,
    paddle_width: int,
    paddle_height: int,
    ball_radius: int,
    side: Side,
) -> int {
    if horizontal(side) {
        paddle_x + paddle_width + radius_offset_spec(ball_radius)
    } else {
        paddle_x + paddle_height + radius_offset_spec(ball_radius)
    }
}

pub open spec fn rect_bottom_spec(paddle_y: int, ball_radius: int) -> int {
    paddle_y - radius_offset_spec(ball_radius)
}

pub open spec fn rect_top_spec(
    paddle_y: int,
    paddle_width: int,
    paddle_height: int,
    ball_radius: int,
    side: Side,
) -> int {
    if horizontal(side) {
        paddle_y + paddle_height + radius_offset_spec(ball_radius)
    } else {
        paddle_y + paddle_width + radius_offset_spec(ball_radius)
    }
}

impl Left {
    pub fn new(paddle_x: i64, ball_radius: i64) -> (boundary: Left)
        requires
            -COORD_LIMIT <= paddle_x <= COORD_LIMIT,
            0 <= ball_radius <= COORD_LIMIT,
        ensures
            boundary.0 == rect_left_spec(paddle_x as int, ball_radius as int),
    {
        Left(paddle_x - radius_offset(ball_radius))
    }
}

impl Right {
    pub fn new(
        paddle_x: i64,
        paddle_width: i64,
        paddle_height: i64,
        ball_radius: i64,
        side: &Side,
    ) -> (boundary: Right)
        requires
            -COORD_LIMIT <= paddle_x <= COORD_LIMIT,
            0 < paddle_width <= COORD_LIMIT,
            0 < paddle_height <= COORD_LIMIT,
            0 <= ball_radius <= COORD_LIMIT,
        ensures
            boundary.0 == rect_right_spec(
                paddle_x as int,
                paddle_width as int,
                paddle_height as int,
                ball_radius as int,
                *side,
            ),
    {
        let offset: i64 = radius_offset(ball_radius);
        match side {
            Side::Left | Side::Right => Right(paddle_x + paddle_width + offset),
            Side::Top | Side::Bottom => Right(paddle_x + paddle_height + offset),
        }
    }
}

impl Bottom {
    pub fn new(paddle_y: i64, ball_radius: i64) -> (boundary: Bottom)
        requires
            -COORD_LIMIT <= paddle_y <= COORD_LIMIT,
            0 <= ball_radius <= COORD_LIMIT,
        ensures
            boundary.0 == rect_bottom_spec(paddle_y as int, ball_radius as int),
    {
        Bottom(paddle_y - radius_offset(ball_radius))
    }
}

impl Top {
    pub fn new(
        paddle_y: i64,
        paddle_width: i64,
        paddle_height: i64,
        ball_radius: i64,
        side: &Side,
    ) -> (boundary: Top)
        requires
            -COORD_LIMIT <= paddle_y <= COORD_LIMIT,
            0 < paddle_width <= COORD_LIMIT,
            0 < paddle_height <= COORD_LIMIT,
            0 <= ball_radius <= COORD_LIMIT,
        ensures
            boundary.0 == rect_top_spec(
                paddle_y as int,
                paddle_width as int,
                paddle_height as int,
                ball_radius as int,
                *side,
            ),
    {
        let offset: i64 = radius_offset(ball_radius);
        match side {
            Side::Left | Side::Right => Top(paddle_y + paddle_height + offset),
            Side::Top | Side::Bottom => Top(paddle_y + paddle_width + offset),
        }
    }
}

/// The radius-inflated rectangle the ball's centre is tested against.  It is
/// an ephemeral value: paddles move, so it is recomputed from the paddle's
/// current position every tick.
pub struct HitRectangle {
    pub top: Top,
    pub bottom: Bottom,
    pub left: Left,
    pub right: Right,
}

impl HitRectangle {
    pub fn new(
        paddle_x: i64,
        paddle_y: i64,
        paddle_width: i64,
        paddle_height: i64,
        ball_radius: i64,
        side: &Side,
    ) -> (rect: HitRectangle)
        requires
            -COORD_LIMIT <= paddle_x <= COORD_LIMIT,
            -COORD_LIMIT <= paddle_y <= COORD_LIMIT,
            0 < paddle_width <= COORD_LIMIT,
            0 < paddle_height <= COORD_LIMIT,
            0 <= ball_radius <= COORD_LIMIT,
        ensures
            rect.left.0 == rect_left_spec(paddle_x as int, ball_radius as int),
            rect.right.0 == rect_right_spec(
                paddle_x as int,
                paddle_width as int,
                paddle_height as int,
                ball_radius as int,
                *side,
            ),
            rect.bottom.0 == rect_bottom_spec(paddle_y as int, ball_radius as int),
            rect.top.0 == rect_top_spec(
                paddle_y as int,
                paddle_width as int,
                paddle_height as int,
                ball_radius as int,
                *side,
            ),
    {
        HitRectangle {
            top: Top::new(paddle_y, paddle_width, paddle_height, ball_radius, side),
            bottom: Bottom::new(paddle_y, ball_radius),
            left: Left::new(paddle_x, ball_radius),
            right: Right::new(paddle_x, paddle_width, paddle_height, ball_radius, side),
        }
    }
}

/// Inclusive containment: boundary points count as contact.
pub open spec fn in_rect_spec(x: int, y: int, left: int, right: int, bottom: int, top: int) -> bool {
    left <= x <= right && bottom <= y <= top
}

/// A point is in the rectangle when its coordinates are at most the top right
/// boundary and at least the bottom left one, both ends inclusive.
pub fn point_in_rect(x: i64, y: i64, rectangle: &HitRectangle) -> (contact: bool)
    ensures
        contact == in_rect_spec(
            x as int,
            y as int,
            rectangle.left.0 as int,
            rectangle.right.0 as int,
            rectangle.bottom.0 as int,
            rectangle.top.0 as int,
        ),
{
    x >= rectangle.left.0 && x <= rectangle.right.0 && y >= rectangle.bottom.0
        && y <= rectangle.top.0
}

/// Every paddle's inflated rectangle is properly ordered: its left boundary
/// lies strictly left of its right one and its bottom strictly below its top,
/// so the inclusive-containment law below applies to all of them.
pub proof fn lemma_paddle_rect_ordered(
    paddle_x: int,
    paddle_y: int,
    paddle_width: int,
    paddle_height: int,
    ball_radius: int,
    side: Side,
)
    requires
        0 < paddle_width,
        0 < paddle_height,
        0 <= ball_radius <= COORD_LIMIT,
    ensures
        rect_left_spec(paddle_x, ball_radius) < rect_right_spec(
            paddle_x,
            paddle_width,
            paddle_height,
            ball_radius,
            side,
        ),
        rect_bottom_spec(paddle_y, ball_radius) < rect_top_spec(
            paddle_y,
            paddle_width,
            paddle_height,
            ball_radius,
            side,
        ),
{
    lemma_offset_bound(ball_radius);
}

/// Containment is inclusive on the whole boundary: any ball centre lying
/// exactly on one of the four inflated edges, between the two ends of that
/// edge, registers contact.
pub proof fn lemma_boundary_contact_inclusive(
    x: int,
    y: int,
    left: int,
    right: int,
    bottom: int,
    top: int,
)
    requires
        left <= right,
        bottom <= top,
        ((x == left || x == right) && bottom <= y <= top) || ((y == bottom || y == top) && left
            <= x <= right),
    ensures
        in_rect_spec(x, y, left, right, bottom, top),
{
}

} // verus!

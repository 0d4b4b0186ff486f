//! Points on the play field, and the test of a circle against an
//! axis-aligned rectangle.

use vstd::prelude::*;

verus! {

/// A point or a displacement on the play field, in ticks.
#[derive(Clone, Copy, Debug, PartialEq, Eq, Structural)]
pub struct Vec2 {
    pub x: i64,
    pub y: i64,
}

/// The distance between two coordinates.
pub open spec fn gap(a: int, b: int) -> int {
    if a >= b {
        a - b
    } else {
        b - a
    }
}

/// Whether the circle of centre `(cx, cy)` meets the rectangle of centre
/// `(rx, ry)`, width `w` and height `h`. A circle that only touches the
/// rectangle meets it.
///
/// A centre farther from the rectangle's centre than half the rectangle and
/// the radius, along either axis, is too far. Of the others, one that is
/// level with the rectangle along either axis meets it. What is left lies
/// off a corner, and meets the rectangle where the corner is no farther from
/// the centre than the radius.
///
/// Every length is doubled, so that half a width is a whole number: `dx` is
/// twice the horizontal distance of the centres and `d` is the diameter.
pub open spec fn touches(cx: int, cy: int, radius: int, rx: int, ry: int, w: int, h: int) -> bool {
    let dx = 2 * gap(cx, rx);
    let dy = 2 * gap(cy, ry);
    let d = 2 * radius;
    if dx > w + d || dy > h + d {
        false
    } else if dx <= w || dy <= h {
        true
    } else {
        (dx - w) * (dx - w) + (dy - h) * (dy - h) <= d * d
    }
}

/// Whether the centre `(cx, cy)` lies outside the rectangle grown by
/// `radius` on every side.
pub open spec fn beyond_reach(cx: int, cy: int, radius: int, rx: int, ry: int, w: int, h: int) -> bool {
    2 * gap(cx, rx) > w + 2 * radius || 2 * gap(cy, ry) > h + 2 * radius
}

/// [`touches`] on points.
pub open spec fn circle_meets_rect(circle_pos: Vec2, circle_radius: i64, rect_pos: Vec2, rect_size: Vec2) -> bool {
    touches(
        circle_pos.x as int,
        circle_pos.y as int,
        circle_radius as int,
        rect_pos.x as int,
        rect_pos.y as int,
        rect_size.x as int,
        rect_size.y as int,
    )
}

/// Whether the point `(px, py)`, given in half ticks, lies in the rectangle
/// and within the circle.
pub open spec fn shared_point(
    px: int,
    py: int,
    cx: int,
    cy: int,
    radius: int,
    rx: int,
    ry: int,
    w: int,
    h: int,
) -> bool {
    &&& gap(px, 2 * rx) <= w
    &&& gap(py, 2 * ry) <= h
    &&& (px - 2 * cx) * (px - 2 * cx) + (py - 2 * cy) * (py - 2 * cy) <= (2 * radius) * (2 * radius)
}

/// The coordinate between `low` and `high` that is nearest to `v`.
pub open spec fn nearest(v: int, low: int, high: int) -> int {
    if v < low {
        low
    } else if v > high {
        high
    } else {
        v
    }
}

proof fn lemma_square_from(a: int, low: int)
    by (nonlinear_arith)
    requires
        0 <= low,
        low <= a || low <= -a,
    ensures
        low * low <= a * a,
{
}

proof fn lemma_square_upto(a: int, high: int)
    by (nonlinear_arith)
    requires
        -high <= a <= high,
    ensures
        a * a <= high * high,
{
}

proof fn lemma_square_grows(d: int)
    by (nonlinear_arith)
    requires
        0 <= d,
    ensures
        d * d < (d + 1) * (d + 1),
{
}

/// For a circle and a rectangle of sizes that are not negative, [`touches`]
/// says whether the two have a point in common.
pub proof fn lemma_touches_is_overlap(cx: int, cy: int, radius: int, rx: int, ry: int, w: int, h: int)
    requires
        radius >= 0,
        w >= 0,
        h >= 0,
    ensures
        touches(cx, cy, radius, rx, ry, w, h) <==> exists|px: int, py: int|
            shared_point(px, py, cx, cy, radius, rx, ry, w, h),
{
    let d = 2 * radius;
    let dx = 2 * gap(cx, rx);
    let dy = 2 * gap(cy, ry);
    if touches(cx, cy, radius, rx, ry, w, h) {
        let qx = nearest(2 * cx, 2 * rx - w, 2 * rx + w);
        let qy = nearest(2 * cy, 2 * ry - h, 2 * ry + h);
        let ux = qx - 2 * cx;
        let uy = qy - 2 * cy;
        if dx <= w {
            lemma_square_upto(ux, 0);
            lemma_square_upto(uy, d);
        } else if dy <= h {
            lemma_square_upto(ux, d);
            lemma_square_upto(uy, 0);
        } else {
            lemma_square_upto(ux, dx - w);
            lemma_square_upto(uy, dy - h);
        }
        assert(shared_point(qx, qy, cx, cy, radius, rx, ry, w, h));
    }
    if exists|px: int, py: int| shared_point(px, py, cx, cy, radius, rx, ry, w, h) {
        let (px, py) = choose|px: int, py: int| shared_point(px, py, cx, cy, radius, rx, ry, w, h);
        let ux = px - 2 * cx;
        let uy = py - 2 * cy;
        lemma_square_from(ux, 0);
        lemma_square_from(uy, 0);
        lemma_square_grows(d);
        if dx > w + d {
            lemma_square_from(ux, d + 1);
        } else if dy > h + d {
            lemma_square_from(uy, d + 1);
        } else if dx > w && dy > h {
            lemma_square_from(ux, dx - w);
            lemma_square_from(uy, dy - h);
        }
    }
}

/// The largest distance from zero of a centre handed to [`meets`].
pub const REACH: i128 = 0x1_0000_0000_0000_0000;

/// Computes [`touches`] for centres that may lie a little outside `i64`.
pub(crate) fn meets(cx: i128, cy: i128, radius: i64, rx: i128, ry: i128, w: i64, h: i64) -> (hit: bool)
    requires
        -REACH <= cx <= REACH,
        -REACH <= cy <= REACH,
        -REACH <= rx <= REACH,
        -REACH <= ry <= REACH,
    ensures
        hit == touches(cx as int, cy as int, radius as int, rx as int, ry as int, w as int, h as int),
{
    let dx: i128 = 2 * (if cx >= rx { cx - rx } else { rx - cx });
    let dy: i128 = 2 * (if cy >= ry { cy - ry } else { ry - cy });
    let d: i128 = 2 * (radius as i128);
    let w: i128 = w as i128;
    let h: i128 = h as i128;
    if dx > w + d || dy > h + d {
        return false;
    }
    if dx <= w || dy <= h {
        return true;
    }
    let ex: u128 = (dx - w) as u128;
    let ey: u128 = (dy - h) as u128;
    let d: u128 = d as u128;
    proof {
        lemma_square_upto(ex as int, d as int);
        lemma_square_upto(ey as int, d as int);
        lemma_square_upto(d as int, 0xffff_ffff_ffff_fffe);
    }
    ex * ex <= d * d - ey * ey
}

/// Tests a circle against an axis-aligned rectangle given by its centre and
/// its size. Touching counts. A circle whose centre is beyond the rectangle
/// grown by the radius never meets it; a circle centred on the rectangle's
/// centre always does, sizes being no less than zero.
pub fn intersects(circle_pos: Vec2, circle_radius: i64, rect_pos: Vec2, rect_size: Vec2) -> (hit: bool)
    ensures
        hit == circle_meets_rect(circle_pos, circle_radius, rect_pos, rect_size),
        beyond_reach(
            circle_pos.x as int,
            circle_pos.y as int,
            circle_radius as int,
            rect_pos.x as int,
            rect_pos.y as int,
            rect_size.x as int,
            rect_size.y as int,
        ) ==> !hit,
        circle_pos == rect_pos && circle_radius >= 0 && rect_size.x >= 0 && rect_size.y >= 0 ==> hit,
{
    meets(
        circle_pos.x as i128,
        circle_pos.y as i128,
        circle_radius,
        rect_pos.x as i128,
        rect_pos.y as i128,
        rect_size.x,
        rect_size.y,
    )
}

} // verus!

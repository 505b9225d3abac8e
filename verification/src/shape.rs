//! The shapes of abilities, as tests on tiles.
//!
//! A shape is laid out from the tile under the cursor. Each shape says of
//! every tile of the map whether it covers the tile; the test is exact
//! integer arithmetic on tile coordinates.

use vstd::prelude::*;
use crate::geometry::{Footprint, Point};
use crate::module::{find_size, size_named, ObjectSize};

verus! {

/// The area that an ability affects.
#[derive(Debug, Clone, PartialEq, Eq)]
pub enum Shape {
    /// The tile under the cursor alone.
    Single,
    /// The tiles whose distance from the cursor is at most `radius`.
    Circle { radius: u32 },
    /// The tiles within `radius` of the origin that lie in the wedge which
    /// opens from the origin towards the cursor. The half angle of the wedge
    /// is given by its tangent, `spread_num / spread_den`.
    Cone { origin_x: i32, origin_y: i32, radius: u32, spread_num: u32, spread_den: u32 },
    /// The tiles that something of the object size `size` covers on its way
    /// along the line from the origin to the cursor.
    Line { size: String, origin_x: i32, origin_y: i32 },
    /// The tiles that something of the object size `size` covers when its
    /// middle is under the cursor.
    ObjectSize { size: String },
}

/// The square of the distance between two tiles.
pub open spec fn dist_sq(ax: int, ay: int, bx: int, by: int) -> int {
    (bx - ax) * (bx - ax) + (by - ay) * (by - ay)
}

/// Whether the tile `(x, y)` lies within `radius` of the tile `(cx, cy)`.
pub open spec fn in_circle(cx: int, cy: int, radius: int, x: int, y: int) -> bool {
    dist_sq(cx, cy, x, y) <= radius * radius
}

/// Whether the tile `(x, y)` lies in the cone that opens from `(ox, oy)`
/// towards `(cx, cy)`: within `radius` of the origin, not behind it, and off
/// the axis by no more than `num / den` of its way along the axis. With the
/// cursor on the origin the cone has no axis and is the whole circle.
pub open spec fn in_cone(
    ox: int,
    oy: int,
    cx: int,
    cy: int,
    radius: int,
    num: int,
    den: int,
    x: int,
    y: int,
) -> bool {
    let along = (x - ox) * (cx - ox) + (y - oy) * (cy - oy);
    let across = (x - ox) * (cy - oy) - (y - oy) * (cx - ox);
    &&& in_circle(ox, oy, radius, x, y)
    &&& along >= 0
    &&& across * den <= along * num
    &&& -across * den <= along * num
}

/// The number of steps of the line from `(ox, oy)` to `(cx, cy)`: the larger
/// of the two distances along the axes.
pub open spec fn line_steps(ox: int, oy: int, cx: int, cy: int) -> int {
    let dx = if cx >= ox {
        cx - ox
    } else {
        ox - cx
    };
    let dy = if cy >= oy {
        cy - oy
    } else {
        oy - cy
    };
    if dx >= dy {
        dx
    } else {
        dy
    }
}

/// The quotient `a / n` rounded to the nearest integer, halves upwards.
pub open spec fn round_div(a: int, n: int) -> int {
    (2 * a + n) / (2 * n)
}

/// The column of the tile at step `k` of the line from `(ox, oy)` to
/// `(cx, cy)`; the row is had by exchanging columns and rows.
pub open spec fn line_coord(o: int, c: int, steps: int, k: int) -> int {
    if steps == 0 {
        o
    } else {
        o + round_div(k * (c - o), steps)
    }
}

/// Whether something of the extent `size` that stands at `(ax, ay)` covers
/// the tile `(x, y)`.
pub open spec fn rect_covers(size: Footprint, ax: int, ay: int, x: int, y: int) -> bool {
    ax <= x < ax + size.width && ay <= y < ay + size.height
}

/// Whether something of the extent `size` covers the tile `(x, y)` at step
/// `k` of its way from `(ox, oy)` to `(cx, cy)`.
pub open spec fn on_line_at(
    size: Footprint,
    ox: int,
    oy: int,
    cx: int,
    cy: int,
    k: int,
    x: int,
    y: int,
) -> bool {
    let steps = line_steps(ox, oy, cx, cy);
    rect_covers(size, line_coord(ox, cx, steps, k), line_coord(oy, cy, steps, k), x, y)
}

/// Whether something of the extent `size` covers the tile `(x, y)` at some
/// step of its way from `(ox, oy)` to `(cx, cy)`.
pub open spec fn on_line(
    size: Footprint,
    ox: int,
    oy: int,
    cx: int,
    cy: int,
    x: int,
    y: int,
) -> bool {
    exists|k: int|
        0 <= k <= line_steps(ox, oy, cx, cy) && #[trigger] on_line_at(size, ox, oy, cx, cy, k, x, y)
}

/// Whether something of the extent `size` whose middle is at `(cx, cy)`
/// covers the tile `(x, y)`.
pub open spec fn centered_covers(size: Footprint, cx: int, cy: int, x: int, y: int) -> bool {
    rect_covers(size, cx - size.width / 2, cy - size.height / 2, x, y)
}

impl Shape {
    /// Whether every object size that the shape names is one of `sizes`.
    pub open spec fn resolves(self, sizes: Seq<ObjectSize>) -> bool {
        match self {
            Shape::Line { size, .. } => size_named(sizes, size@) is Some,
            Shape::ObjectSize { size } => size_named(sizes, size@) is Some,
            _ => true,
        }
    }

    /// Whether every object size that the shape names is one of `sizes`.
    pub fn is_resolving(&self, sizes: &Vec<ObjectSize>) -> (known: bool)
        ensures
            known == self.resolves(sizes@),
    {
        match self {
            Shape::Line { size, .. } => find_size(sizes, size.as_str()).is_some(),
            Shape::ObjectSize { size } => find_size(sizes, size.as_str()).is_some(),
            _ => true,
        }
    }

    /// Whether the shape, laid out from the cursor, covers the tile
    /// `(x, y)`. A shape that names an object size which `sizes` does not
    /// hold covers nothing.
    pub open spec fn covers(self, sizes: Seq<ObjectSize>, cursor: Point, x: int, y: int) -> bool {
        match self {
            Shape::Single => x == cursor.x && y == cursor.y,
            Shape::Circle { radius } => in_circle(
                cursor.x as int,
                cursor.y as int,
                radius as int,
                x,
                y,
            ),
            Shape::Cone { origin_x, origin_y, radius, spread_num, spread_den } => in_cone(
                origin_x as int,
                origin_y as int,
                cursor.x as int,
                cursor.y as int,
                radius as int,
                spread_num as int,
                spread_den as int,
                x,
                y,
            ),
            Shape::Line { size, origin_x, origin_y } => match size_named(sizes, size@) {
                Some(footprint) => on_line(
                    footprint,
                    origin_x as int,
                    origin_y as int,
                    cursor.x as int,
                    cursor.y as int,
                    x,
                    y,
                ),
                None => false,
            },
            Shape::ObjectSize { size } => match size_named(sizes, size@) {
                Some(footprint) => centered_covers(
                    footprint,
                    cursor.x as int,
                    cursor.y as int,
                    x,
                    y,
                ),
                None => false,
            },
        }
    }

    /// Whether the shape, laid out from the cursor, covers the tile
    /// `(x, y)`.
    pub fn is_covering(&self, sizes: &Vec<ObjectSize>, cursor: Point, x: i32, y: i32) -> (covered:
        bool)
        ensures
            covered == self.covers(sizes@, cursor, x as int, y as int),
    {
        match self {
            Shape::Single => x == cursor.x && y == cursor.y,
            Shape::Circle { radius } => is_in_circle(cursor.x, cursor.y, *radius, x, y),
            Shape::Cone { origin_x, origin_y, radius, spread_num, spread_den } => is_in_cone(
                *origin_x,
                *origin_y,
                cursor.x,
                cursor.y,
                *radius,
                *spread_num,
                *spread_den,
                x,
                y,
            ),
            Shape::Line { size, origin_x, origin_y } => match find_size(sizes, size.as_str()) {
                Some(footprint) => is_on_line(
                    footprint,
                    *origin_x,
                    *origin_y,
                    cursor.x,
                    cursor.y,
                    x,
                    y,
                ),
                None => false,
            },
            Shape::ObjectSize { size } => match find_size(sizes, size.as_str()) {
                Some(footprint) => is_centered_covering(footprint, cursor.x, cursor.y, x, y),
                None => false,
            },
        }
    }
}

/// The product of two numbers that are differences of tile coordinates.
fn product(a: i64, b: i64) -> (p: i128)
    requires
        -0x1_0000_0000 <= a <= 0x1_0000_0000,
        -0x1_0000_0000 <= b <= 0x1_0000_0000,
    ensures
        p == a * b,
        -0x1_0000_0000_0000_0000 <= p <= 0x1_0000_0000_0000_0000,
{
    assert(-0x1_0000_0000_0000_0000 <= a * b <= 0x1_0000_0000_0000_0000) by (nonlinear_arith)
        requires
            -0x1_0000_0000 <= a <= 0x1_0000_0000,
            -0x1_0000_0000 <= b <= 0x1_0000_0000,
    ;
    a as i128 * b as i128
}

/// The product of a sum of two such products and a `u32`.
fn scaled(a: i128, factor: u32) -> (p: i128)
    requires
        -0x2_0000_0000_0000_0000 <= a <= 0x2_0000_0000_0000_0000,
    ensures
        p == a * factor,
{
    assert(-0x2_0000_0000_0000_0000 * 0x1_0000_0000 <= a * factor <= 0x2_0000_0000_0000_0000
        * 0x1_0000_0000) by (nonlinear_arith)
        requires
            -0x2_0000_0000_0000_0000 <= a <= 0x2_0000_0000_0000_0000,
            0 <= factor <= 0xffff_ffff,
    ;
    a * factor as i128
}

/// Whether the tile `(x, y)` lies within `radius` of the tile `(cx, cy)`.
pub fn is_in_circle(cx: i32, cy: i32, radius: u32, x: i32, y: i32) -> (inside: bool)
    ensures
        inside == in_circle(cx as int, cy as int, radius as int, x as int, y as int),
{
    let dx: i64 = x as i64 - cx as i64;
    let dy: i64 = y as i64 - cy as i64;
    let distance: i128 = product(dx, dx) + product(dy, dy);
    let limit: i128 = product(radius as i64, radius as i64);
    distance <= limit
}

/// Whether the tile `(x, y)` lies in the cone that opens from `(ox, oy)`
/// towards `(cx, cy)`.
pub fn is_in_cone(
    ox: i32,
    oy: i32,
    cx: i32,
    cy: i32,
    radius: u32,
    num: u32,
    den: u32,
    x: i32,
    y: i32,
) -> (inside: bool)
    ensures
        inside == in_cone(
            ox as int,
            oy as int,
            cx as int,
            cy as int,
            radius as int,
            num as int,
            den as int,
            x as int,
            y as int,
        ),
{
    if !is_in_circle(ox, oy, radius, x, y) {
        return false;
    }
    let vx: i64 = x as i64 - ox as i64;
    let vy: i64 = y as i64 - oy as i64;
    let dx: i64 = cx as i64 - ox as i64;
    let dy: i64 = cy as i64 - oy as i64;
    let along: i128 = product(vx, dx) + product(vy, dy);
    let across: i128 = product(vx, dy) - product(vy, dx);
    if along < 0 {
        return false;
    }
    let reach: i128 = scaled(along, num);
    let off: i128 = scaled(across, den);
    let off_other: i128 = scaled(-across, den);
    off <= reach && off_other <= reach
}

/// The quotient `a / n` rounded to the nearest integer, halves upwards.
fn rounded_quotient(a: i128, n: i128) -> (q: i128)
    requires
        0 < n <= 0x1_0000_0000,
        -0x1_0000_0000_0000_0000 <= a <= 0x1_0000_0000_0000_0000,
    ensures
        q == round_div(a as int, n as int),
        -0x4_0000_0000_0000_0000 <= q <= 0x4_0000_0000_0000_0000,
{
    let top: i128 = 2 * a + n;
    let bottom: i128 = 2 * n;
    if top >= 0 {
        let q: u128 = top as u128 / bottom as u128;
        assert(q <= top) by (nonlinear_arith)
            requires
                q == top as int / bottom as int,
                top >= 0,
                bottom > 0,
        ;
        q as i128
    } else {
        let m: u128 = ((-top) as u128 + bottom as u128 - 1) / bottom as u128;
        assert(m <= -top + bottom && -(m as int) == top as int / bottom as int)
            by (nonlinear_arith)
            requires
                m == (-top + bottom - 1) / bottom as int,
                top < 0,
                bottom > 0,
        ;
        -(m as i128)
    }
}

/// The column of the tile at step `k` of the line from `o` to `c`.
fn line_coordinate(o: i32, c: i32, steps: i64, k: i64) -> (at: i128)
    requires
        0 <= k <= steps <= 0x1_0000_0000,
    ensures
        at == line_coord(o as int, c as int, steps as int, k as int),
        -0x8_0000_0000_0000_0000 <= at <= 0x8_0000_0000_0000_0000,
{
    if steps == 0 {
        o as i128
    } else {
        let way: i128 = product(k, c as i64 - o as i64);
        o as i128 + rounded_quotient(way, steps as i128)
    }
}

/// The number of steps of the line from `(ox, oy)` to `(cx, cy)`.
fn count_steps(ox: i32, oy: i32, cx: i32, cy: i32) -> (steps: i64)
    ensures
        steps == line_steps(ox as int, oy as int, cx as int, cy as int),
        0 <= steps <= 0xffff_ffff,
{
    let dx: i64 = if cx >= ox {
        cx as i64 - ox as i64
    } else {
        ox as i64 - cx as i64
    };
    let dy: i64 = if cy >= oy {
        cy as i64 - oy as i64
    } else {
        oy as i64 - cy as i64
    };
    if dx >= dy {
        dx
    } else {
        dy
    }
}

/// Whether something of the extent `size` covers the tile `(x, y)` at some
/// step of its way from `(ox, oy)` to `(cx, cy)`.
pub fn is_on_line(size: Footprint, ox: i32, oy: i32, cx: i32, cy: i32, x: i32, y: i32) -> (covered:
    bool)
    ensures
        covered == on_line(
            size,
            ox as int,
            oy as int,
            cx as int,
            cy as int,
            x as int,
            y as int,
        ),
{
    let steps = count_steps(ox, oy, cx, cy);
    let mut k: i64 = 0;
    while k <= steps
        invariant
            0 <= k <= steps + 1,
            steps == line_steps(ox as int, oy as int, cx as int, cy as int),
            0 <= steps <= 0xffff_ffff,
            forall|j: int|
                0 <= j < k ==> !#[trigger] on_line_at(
                    size,
                    ox as int,
                    oy as int,
                    cx as int,
                    cy as int,
                    j,
                    x as int,
                    y as int,
                ),
        decreases steps + 1 - k,
    {
        let ax = line_coordinate(ox, cx, steps, k);
        let ay = line_coordinate(oy, cy, steps, k);
        if ax <= x as i128 && (x as i128) < ax + size.width as i128 && ay <= y as i128 && (
        y as i128) < ay + size.height as i128 {
            assert(on_line_at(
                size,
                ox as int,
                oy as int,
                cx as int,
                cy as int,
                k as int,
                x as int,
                y as int,
            ));
            return true;
        }
        k += 1;
    }
    false
}

/// Whether something of the extent `size` whose middle is at `(cx, cy)`
/// covers the tile `(x, y)`.
pub fn is_centered_covering(size: Footprint, cx: i32, cy: i32, x: i32, y: i32) -> (covered: bool)
    ensures
        covered == centered_covers(size, cx as int, cy as int, x as int, y as int),
{
    let ax: i64 = cx as i64 - (size.width / 2) as i64;
    let ay: i64 = cy as i64 - (size.height / 2) as i64;
    ax <= x as i64 && (x as i64) < ax + size.width as i64 && ay <= y as i64 && (y as i64) < ay
        + size.height as i64
}

/// A circle of radius 0 covers the tile under the cursor and no other.
pub proof fn lemma_circle_of_radius_zero(cx: int, cy: int, x: int, y: int)
    ensures
        in_circle(cx, cy, 0, x, y) <==> x == cx && y == cy,
{
    assert(in_circle(cx, cy, 0, x, y) <==> x == cx && y == cy) by (nonlinear_arith)
        requires
            in_circle(cx, cy, 0, x, y) <==> (x - cx) * (x - cx) + (y - cy) * (y - cy) <= 0,
    ;
}

} // verus!

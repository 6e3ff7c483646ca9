//! Integer geometry: points, rectangles, sizes, and the coordinate mapper
//! shared by the annotation and crop engines.
//!
//! All coordinates are logical units on the source image's pixel grid and are
//! kept within `COORD_LIMIT` so that the mapper's products fit in `i64`.

use vstd::prelude::*;
use vstd::arithmetic::div_mod::{
    lemma_div_multiples_vanish_quotient, lemma_div_pos_is_pos, lemma_multiply_divide_le,
};
use vstd::arithmetic::mul::lemma_mul_inequality;

verus! {

/// Largest magnitude a stored coordinate may have.
pub const COORD_LIMIT: i64 = 1_000_000_000;

/// A coordinate that a caller may hand to the engines.
pub open spec fn in_range(x: int) -> bool {
    -(COORD_LIMIT as int) <= x <= COORD_LIMIT as int
}

/// A coordinate produced by the engines (sums of two in-range values).
pub open spec fn in_wide_range(x: int) -> bool {
    -2 * (COORD_LIMIT as int) <= x <= 2 * (COORD_LIMIT as int)
}

/// A magnitude small enough that sums and differences of two such values
/// stay far from the edges of `i64`.
pub open spec fn arith_safe(x: int) -> bool {
    -0x1000_0000_0000_0000 <= x <= 0x1000_0000_0000_0000
}

/// A position in logical units.
#[derive(Debug, Clone, Copy, PartialEq, Eq, Structural)]
pub struct Point {
    pub x: i64,
    pub y: i64,
}

/// Width and height in logical units.
#[derive(Debug, Clone, Copy, PartialEq, Eq, Structural)]
pub struct Size {
    pub width: i64,
    pub height: i64,
}

/// An axis-aligned rectangle; `width`/`height` may be negative while a shape
/// is being dragged.
#[derive(Debug, Clone, Copy, PartialEq, Eq, Structural)]
pub struct Rect {
    pub x: i64,
    pub y: i64,
    pub width: i64,
    pub height: i64,
}

impl Point {
    pub open spec fn wf(self) -> bool {
        in_range(self.x as int) && in_range(self.y as int)
    }

    pub open spec fn wide_wf(self) -> bool {
        in_wide_range(self.x as int) && in_wide_range(self.y as int)
    }

    pub fn new(x: i64, y: i64) -> (r: Point)
        ensures
            r == (Point { x, y }),
    {
        Point { x, y }
    }

    /// The origin, used to reset in-progress geometry.
    pub fn origin() -> (r: Point)
        ensures
            r == (Point { x: 0, y: 0 }),
    {
        Point { x: 0, y: 0 }
    }
}

impl Size {
    pub open spec fn wf(self) -> bool {
        in_range(self.width as int) && in_range(self.height as int)
    }

    /// Both extents are positive.
    pub open spec fn positive(self) -> bool {
        self.width > 0 && self.height > 0
    }

    pub fn new(width: i64, height: i64) -> (r: Size)
        ensures
            r == (Size { width, height }),
    {
        Size { width, height }
    }
}

impl Rect {
    /// One past the right edge.
    pub open spec fn right(self) -> int {
        self.x + self.width
    }

    /// One past the bottom edge.
    pub open spec fn bottom(self) -> int {
        self.y + self.height
    }

    /// All fields within the coordinate limit.
    pub open spec fn wf(self) -> bool {
        in_range(self.x as int) && in_range(self.y as int) && in_range(self.width as int)
            && in_range(self.height as int)
    }

    /// Both extents are positive.
    pub open spec fn positive(self) -> bool {
        self.width > 0 && self.height > 0
    }

    /// `p` lies inside `self` (edges at `right`/`bottom` excluded).
    pub open spec fn spec_contains(self, p: Point) -> bool {
        self.x <= p.x < self.right() && self.y <= p.y < self.bottom()
    }

    /// `self` lies entirely within `outer`.
    pub open spec fn inside(self, outer: Rect) -> bool {
        outer.x <= self.x && outer.y <= self.y && self.right() <= outer.right()
            && self.bottom() <= outer.bottom()
    }

    pub fn new(x: i64, y: i64, width: i64, height: i64) -> (r: Rect)
        ensures
            r == (Rect { x, y, width, height }),
    {
        Rect { x, y, width, height }
    }

    /// The rectangle anchored at the origin with the given extents.
    pub fn with_size(size: Size) -> (r: Rect)
        ensures
            r == (Rect { x: 0, y: 0, width: size.width, height: size.height }),
    {
        Rect { x: 0, y: 0, width: size.width, height: size.height }
    }

    /// The all-zero rectangle, used to reset in-progress geometry.
    pub fn zero() -> (r: Rect)
        ensures
            r == (Rect { x: 0, y: 0, width: 0, height: 0 }),
    {
        Rect { x: 0, y: 0, width: 0, height: 0 }
    }

    pub fn contains(&self, p: Point) -> (r: bool)
        requires
            arith_safe(self.x as int),
            arith_safe(self.y as int),
            arith_safe(self.width as int),
            arith_safe(self.height as int),
            arith_safe(p.x as int),
            arith_safe(p.y as int),
        ensures
            r == self.spec_contains(p),
    {
        self.x <= p.x && p.x - self.x < self.width && self.y <= p.y && p.y - self.y < self.height
    }
}

/// Where a cursor sits relative to a widget's bounds: its position relative
/// to the bounds' origin if it is over them, nothing otherwise.
pub open spec fn spec_position_in(cursor: Option<Point>, bounds: Rect) -> Option<Point> {
    match cursor {
        Some(p) => if bounds.spec_contains(p) {
            Some(Point { x: (p.x - bounds.x) as i64, y: (p.y - bounds.y) as i64 })
        } else {
            None
        },
        None => None,
    }
}

pub fn position_in(cursor: Option<Point>, bounds: Rect) -> (r: Option<Point>)
    requires
        bounds.wf(),
        cursor matches Some(p) ==> p.wide_wf(),
    ensures
        r == spec_position_in(cursor, bounds),
        r matches Some(rel) ==> 0 <= rel.x < bounds.width && 0 <= rel.y < bounds.height,
{
    match cursor {
        Some(p) => if bounds.contains(p) {
            Some(Point { x: p.x - bounds.x, y: p.y - bounds.y })
        } else {
            None
        },
        None => None,
    }
}

/// One axis of the mapper: a widget offset `rel` scaled into a logical span
/// of `lsize` starting at `lorig`.
pub open spec fn map_coord(rel: int, wsize: int, lsize: int, lorig: int) -> int {
    rel * lsize / wsize + lorig
}

/// The coordinate mapper of the editor (shared by both engines): a pointer
/// position relative to a widget of size `widget_size` taken to the logical
/// rectangle `logical_bounds`. Fails only when the widget has zero area.
pub open spec fn spec_widget_point_to_logical(
    pointer: Point,
    widget_size: Size,
    logical_bounds: Rect,
) -> Option<Point> {
    if widget_size.width <= 0 || widget_size.height <= 0 {
        None
    } else {
        Some(
            Point {
                x: map_coord(
                    pointer.x as int,
                    widget_size.width as int,
                    logical_bounds.width as int,
                    logical_bounds.x as int,
                ) as i64,
                y: map_coord(
                    pointer.y as int,
                    widget_size.height as int,
                    logical_bounds.height as int,
                    logical_bounds.y as int,
                ) as i64,
            },
        )
    }
}

/// Bounds on one mapped axis: the result stays within the logical span.
pub proof fn lemma_map_coord_bounds(rel: int, wsize: int, lsize: int, lorig: int)
    requires
        0 <= rel <= wsize,
        0 < wsize,
        0 <= lsize,
    ensures
        lorig <= map_coord(rel, wsize, lsize, lorig) <= lorig + lsize,
{
    lemma_div_pos_is_pos(rel * lsize, wsize);
    lemma_mul_inequality(rel, wsize, lsize);
    lemma_multiply_divide_le(rel * lsize, wsize, lsize);
}

pub fn widget_point_to_logical(pointer: Point, widget_size: Size, logical_bounds: Rect) -> (r:
    Option<Point>)
    requires
        widget_size.wf(),
        logical_bounds.wf(),
        logical_bounds.width >= 0,
        logical_bounds.height >= 0,
        widget_size.positive() ==> 0 <= pointer.x <= widget_size.width && 0 <= pointer.y
            <= widget_size.height,
    ensures
        r == spec_widget_point_to_logical(pointer, widget_size, logical_bounds),
        r matches Some(p) ==> logical_bounds.x <= p.x <= logical_bounds.right()
            && logical_bounds.y <= p.y <= logical_bounds.bottom() && p.wide_wf(),
{
    if widget_size.width <= 0 || widget_size.height <= 0 {
        return None;
    }
    proof {
        lemma_map_coord_bounds(
            pointer.x as int,
            widget_size.width as int,
            logical_bounds.width as int,
            logical_bounds.x as int,
        );
        lemma_map_coord_bounds(
            pointer.y as int,
            widget_size.height as int,
            logical_bounds.height as int,
            logical_bounds.y as int,
        );
        assert(0 <= pointer.x * logical_bounds.width <= COORD_LIMIT as int * COORD_LIMIT as int
            && 0 <= pointer.y * logical_bounds.height <= COORD_LIMIT as int * COORD_LIMIT as int)
            by (nonlinear_arith)
            requires
                0 <= pointer.x <= COORD_LIMIT as int,
                0 <= pointer.y <= COORD_LIMIT as int,
                0 <= logical_bounds.width <= COORD_LIMIT as int,
                0 <= logical_bounds.height <= COORD_LIMIT as int,
        ;
        lemma_div_pos_is_pos(pointer.x * logical_bounds.width, widget_size.width as int);
        lemma_div_pos_is_pos(pointer.y * logical_bounds.height, widget_size.height as int);
    }
    let x = pointer.x * logical_bounds.width / widget_size.width + logical_bounds.x;
    let y = pointer.y * logical_bounds.height / widget_size.height + logical_bounds.y;
    Some(Point { x, y })
}

/// The cursor position in an entity's logical space: the cursor taken
/// relative to the widget's bounds and through the mapper against
/// `logical_bounds`. Nothing when the cursor is not over the widget.
pub open spec fn spec_logical_cursor(
    cursor: Option<Point>,
    bounds: Rect,
    logical_bounds: Rect,
) -> Option<Point> {
    match spec_position_in(cursor, bounds) {
        Some(rel) => spec_widget_point_to_logical(
            rel,
            Size { width: bounds.width, height: bounds.height },
            logical_bounds,
        ),
        None => None,
    }
}

pub fn logical_cursor(cursor: Option<Point>, bounds: Rect, logical_bounds: Rect) -> (r: Option<
    Point,
>)
    requires
        bounds.wf(),
        logical_bounds.wf(),
        logical_bounds.width >= 0,
        logical_bounds.height >= 0,
        cursor matches Some(p) ==> p.wide_wf(),
    ensures
        r == spec_logical_cursor(cursor, bounds, logical_bounds),
        r matches Some(p) ==> logical_bounds.x <= p.x <= logical_bounds.right()
            && logical_bounds.y <= p.y <= logical_bounds.bottom() && p.wide_wf(),
{
    match position_in(cursor, bounds) {
        Some(rel) => widget_point_to_logical(
            rel,
            Size { width: bounds.width, height: bounds.height },
            logical_bounds,
        ),
        None => None,
    }
}

/// A defined logical cursor lies within the logical bounds (their right and
/// bottom edges included).
pub proof fn lemma_logical_cursor_in_bounds(cursor: Option<Point>, bounds: Rect, logical: Rect)
    requires
        bounds.wf(),
        logical.wf(),
        logical.width >= 0,
        logical.height >= 0,
    ensures
        spec_logical_cursor(cursor, bounds, logical) matches Some(p) ==> logical.x <= p.x
            <= logical.right() && logical.y <= p.y <= logical.bottom() && p.wide_wf(),
{
    match spec_position_in(cursor, bounds) {
        Some(rel) => {
            if bounds.width > 0 && bounds.height > 0 {
                lemma_map_coord_bounds(
                    rel.x as int,
                    bounds.width as int,
                    logical.width as int,
                    logical.x as int,
                );
                lemma_map_coord_bounds(
                    rel.y as int,
                    bounds.height as int,
                    logical.height as int,
                    logical.y as int,
                );
            }
        },
        None => {},
    }
}

/// Scale-invariance of one mapper axis: scaling the widget extent and the
/// pointer offset by the same positive factor `k`, with the logical span
/// unchanged, yields the same logical coordinate.
pub proof fn lemma_map_coord_scale_invariant(rel: int, wsize: int, lsize: int, lorig: int, k: int)
    requires
        0 <= rel,
        0 < wsize,
        0 <= lsize,
        k > 0,
    ensures
        map_coord(k * rel, k * wsize, lsize, lorig) == map_coord(rel, wsize, lsize, lorig),
{
    lemma_div_multiples_vanish_quotient(k, rel * lsize, wsize);
    assert((k * rel) * lsize == k * (rel * lsize)) by (nonlinear_arith);
}

/// Scale-invariance of the mapper: enlarging the widget by any positive
/// factor `k` in both axes, with the pointer position scaled along with it
/// and the logical bounds unchanged, yields the same logical point.
pub proof fn lemma_mapping_scale_invariant(
    pointer: Point,
    widget_size: Size,
    logical_bounds: Rect,
    k: i64,
)
    requires
        widget_size.positive(),
        0 <= pointer.x <= widget_size.width,
        0 <= pointer.y <= widget_size.height,
        logical_bounds.width >= 0,
        logical_bounds.height >= 0,
        k > 0,
        k * widget_size.width <= COORD_LIMIT as int,
        k * widget_size.height <= COORD_LIMIT as int,
    ensures
        spec_widget_point_to_logical(
            Point { x: (k * pointer.x) as i64, y: (k * pointer.y) as i64 },
            Size { width: (k * widget_size.width) as i64, height: (k * widget_size.height) as i64 },
            logical_bounds,
        ) == spec_widget_point_to_logical(pointer, widget_size, logical_bounds),
{
    let kx = k as int;
    assert(0 <= kx * pointer.x <= kx * widget_size.width && 0 <= kx * pointer.y <= kx
        * widget_size.height && 0 < kx * widget_size.width && 0 < kx * widget_size.height)
        by (nonlinear_arith)
        requires
            kx > 0,
            0 <= pointer.x <= widget_size.width,
            0 <= pointer.y <= widget_size.height,
            widget_size.positive(),
    ;
    lemma_map_coord_scale_invariant(
        pointer.x as int,
        widget_size.width as int,
        logical_bounds.width as int,
        logical_bounds.x as int,
        kx,
    );
    lemma_map_coord_scale_invariant(
        pointer.y as int,
        widget_size.height as int,
        logical_bounds.height as int,
        logical_bounds.y as int,
        kx,
    );
}

} // verus!

//! Laws of whole pointer-event sequences: what a full press–move–release
//! drag leaves in the finalized list, and how freehand sampling decimates a
//! run of moves.

use vstd::prelude::*;

use crate::annotations::{spec_ann_update, spec_far_enough, AnnotationsV};
use crate::geometry::{
    lemma_logical_cursor_in_bounds, spec_logical_cursor, Point, Rect,
};
use crate::input::PointerEvent;
use crate::shapes::{FillStyle, ShapeV};

verus! {

/// The engine and pressed flag after a run of move events at the given
/// widget cursor positions.
pub open spec fn spec_run_moves(
    a: AnnotationsV,
    pressed: bool,
    bounds: Rect,
    moves: Seq<Point>,
) -> (AnnotationsV, bool)
    decreases moves.len(),
{
    if moves.len() == 0 {
        (a, pressed)
    } else {
        let (a1, p1, _status, _committed) = spec_ann_update(
            a,
            pressed,
            PointerEvent::Moved,
            bounds,
            Some(moves[0]),
        );
        spec_run_moves(a1, p1, bounds, moves.subrange(1, moves.len() as int))
    }
}

/// The logical cursor of a widget position that is known to be over the
/// surface.
pub open spec fn spec_lc(m: Point, bounds: Rect, crop_area: Rect) -> Point {
    spec_logical_cursor(Some(m), bounds, crop_area)->Some_0
}

/// Every move of the run has a defined logical cursor.
pub open spec fn all_moves_over(moves: Seq<Point>, bounds: Rect, crop_area: Rect) -> bool {
    forall|i: int|
        0 <= i < moves.len() ==> spec_logical_cursor(Some(moves[i]), bounds, crop_area) is Some
}

/// While the button is held and a rectangle is in progress, a run of moves
/// keeps the rectangle's origin and leaves its extents at the last move's
/// logical cursor minus the origin; everything else is untouched.
proof fn lemma_run_moves_rectangle(
    a: AnnotationsV,
    bounds: Rect,
    moves: Seq<Point>,
    color: crate::color::Rgba,
    fill_style: FillStyle,
    rec: Rect,
)
    requires
        a.tool == Some(ShapeV::Rectangle { color, fill_style, rec }),
        all_moves_over(moves, bounds, a.crop_area),
    ensures
        ({
            let (a2, p2) = spec_run_moves(a, true, bounds, moves);
            let last = spec_lc(moves.last(), bounds, a.crop_area);
            &&& p2 == true
            &&& a2 == (AnnotationsV {
                tool: Some(
                    ShapeV::Rectangle {
                        color,
                        fill_style,
                        rec: if moves.len() == 0 {
                            rec
                        } else {
                            Rect {
                                x: rec.x,
                                y: rec.y,
                                width: (last.x - rec.x) as i64,
                                height: (last.y - rec.y) as i64,
                            }
                        },
                    },
                ),
                ..a
            })
        }),
    decreases moves.len(),
{
    if moves.len() == 0 {
        assert(spec_run_moves(a, true, bounds, moves) == (a, true));
        assert(a == (AnnotationsV { tool: Some(ShapeV::Rectangle { color, fill_style, rec }), ..a }));
    } else {
        let lc0 = spec_lc(moves[0], bounds, a.crop_area);
        let rec1 = Rect {
            x: rec.x,
            y: rec.y,
            width: (lc0.x - rec.x) as i64,
            height: (lc0.y - rec.y) as i64,
        };
        let (a1, p1, _s, _c) = spec_ann_update(
            a,
            true,
            PointerEvent::Moved,
            bounds,
            Some(moves[0]),
        );
        assert(a1 == (AnnotationsV {
            tool: Some(ShapeV::Rectangle { color, fill_style, rec: rec1 }),
            ..a
        }));
        let rest = moves.subrange(1, moves.len() as int);
        assert(all_moves_over(rest, bounds, a.crop_area)) by {
            assert forall|i: int| 0 <= i < rest.len() implies spec_logical_cursor(
                Some(rest[i]),
                bounds,
                a.crop_area,
            ) is Some by {
                assert(rest[i] == moves[i + 1]);
            }
        }
        lemma_run_moves_rectangle(a1, bounds, rest, color, fill_style, rec1);
        if rest.len() > 0 {
            assert(rest.last() == moves.last());
        }
    }
}

/// What a full drag with the rectangle tool commits: for every sequence
/// press, moves, release over the surface (the release where the pointer
/// last moved), exactly one shape is appended to the finalized list — a
/// rectangle whose top-left is the press's logical point and whose signed
/// extents are the release's logical point minus the press's, stored as-is.
pub proof fn lemma_rectangle_drag_commits(
    a0: AnnotationsV,
    pressed0: bool,
    bounds: Rect,
    press: Point,
    moves: Seq<Point>,
    release: Point,
    color: crate::color::Rgba,
    fill_style: FillStyle,
    rec0: Rect,
)
    requires
        bounds.wf(),
        a0.crop_area.wf(),
        a0.crop_area.width >= 0,
        a0.crop_area.height >= 0,
        a0.tool == Some(ShapeV::Rectangle { color, fill_style, rec: rec0 }),
        spec_logical_cursor(Some(press), bounds, a0.crop_area) is Some,
        all_moves_over(moves, bounds, a0.crop_area),
        moves.len() > 0,
        spec_logical_cursor(Some(release), bounds, a0.crop_area) == spec_logical_cursor(
            Some(moves.last()),
            bounds,
            a0.crop_area,
        ),
    ensures
        ({
            let cp = spec_lc(press, bounds, a0.crop_area);
            let cr = spec_lc(release, bounds, a0.crop_area);
            let (a1, p1, _s1, _c1) = spec_ann_update(
                a0,
                pressed0,
                PointerEvent::LeftPressed,
                bounds,
                Some(press),
            );
            let (a2, p2) = spec_run_moves(a1, p1, bounds, moves);
            let (a3, _p3, _s3, committed) = spec_ann_update(
                a2,
                p2,
                PointerEvent::LeftReleased,
                bounds,
                Some(release),
            );
            let stored = ShapeV::Rectangle {
                color,
                fill_style,
                rec: Rect {
                    x: cp.x,
                    y: cp.y,
                    width: (cr.x - cp.x) as i64,
                    height: (cr.y - cp.y) as i64,
                },
            };
            &&& committed
            &&& a3.baked == a0.baked.push(stored)
            &&& stored->Rectangle_rec.x == cp.x
            &&& stored->Rectangle_rec.y == cp.y
            &&& stored->Rectangle_rec.width as int == cr.x - cp.x
            &&& stored->Rectangle_rec.height as int == cr.y - cp.y
        }),
{
    let cp = spec_lc(press, bounds, a0.crop_area);
    let cr = spec_lc(release, bounds, a0.crop_area);
    lemma_logical_cursor_in_bounds(Some(press), bounds, a0.crop_area);
    lemma_logical_cursor_in_bounds(Some(release), bounds, a0.crop_area);
    let (a1, p1, _s1, _c1) = spec_ann_update(
        a0,
        pressed0,
        PointerEvent::LeftPressed,
        bounds,
        Some(press),
    );
    let anchored = Rect { x: cp.x, y: cp.y, width: rec0.width, height: rec0.height };
    assert(a1 == (AnnotationsV {
        tool: Some(ShapeV::Rectangle { color, fill_style, rec: anchored }),
        ..a0
    }));
    assert(p1);
    lemma_run_moves_rectangle(a1, bounds, moves, color, fill_style, anchored);
}

/// The freehand points left after a run of logical move positions: a
/// position is appended exactly when points are already stored and it is far
/// enough from the last stored point.
pub open spec fn spec_decimated(points: Seq<Point>, lcs: Seq<Point>) -> Seq<Point>
    decreases lcs.len(),
{
    if lcs.len() == 0 {
        points
    } else {
        let points2 = if points.len() > 0 && spec_far_enough(points.last(), lcs[0]) {
            points.push(lcs[0])
        } else {
            points
        };
        spec_decimated(points2, lcs.subrange(1, lcs.len() as int))
    }
}

/// How many of the moves get stored: those far enough from the point stored
/// last when they arrive.
pub open spec fn spec_added_count(points: Seq<Point>, lcs: Seq<Point>) -> int
    decreases lcs.len(),
{
    if lcs.len() == 0 {
        0
    } else if points.len() > 0 && spec_far_enough(points.last(), lcs[0]) {
        1 + spec_added_count(points.push(lcs[0]), lcs.subrange(1, lcs.len() as int))
    } else {
        spec_added_count(points, lcs.subrange(1, lcs.len() as int))
    }
}

/// The logical cursors of a run of widget positions.
pub open spec fn spec_lcs(moves: Seq<Point>, bounds: Rect, crop_area: Rect) -> Seq<Point> {
    moves.map_values(|m: Point| spec_lc(m, bounds, crop_area))
}

/// While the button is held and a freehand stroke is in progress, a run of
/// moves stores exactly the decimated positions; everything else is
/// untouched.
pub proof fn lemma_run_moves_freehand(
    a: AnnotationsV,
    bounds: Rect,
    moves: Seq<Point>,
    color: crate::color::Rgba,
    stroke_width: i64,
    points: Seq<Point>,
)
    requires
        a.tool == Some(ShapeV::FreeHand { color, stroke_width, points }),
        all_moves_over(moves, bounds, a.crop_area),
    ensures
        spec_run_moves(a, true, bounds, moves) == (
            AnnotationsV {
                tool: Some(
                    ShapeV::FreeHand {
                        color,
                        stroke_width,
                        points: spec_decimated(points, spec_lcs(moves, bounds, a.crop_area)),
                    },
                ),
                ..a
            },
            true,
        ),
    decreases moves.len(),
{
    let lcs = spec_lcs(moves, bounds, a.crop_area);
    if moves.len() == 0 {
        assert(spec_decimated(points, lcs) == points);
        assert(a == (AnnotationsV {
            tool: Some(ShapeV::FreeHand { color, stroke_width, points }),
            ..a
        }));
    } else {
        let lc0 = spec_lc(moves[0], bounds, a.crop_area);
        let points1 = if points.len() > 0 && spec_far_enough(points.last(), lc0) {
            points.push(lc0)
        } else {
            points
        };
        let (a1, p1, _s, _c) = spec_ann_update(
            a,
            true,
            PointerEvent::Moved,
            bounds,
            Some(moves[0]),
        );
        assert(a1 == (AnnotationsV {
            tool: Some(ShapeV::FreeHand { color, stroke_width, points: points1 }),
            ..a
        }));
        let rest = moves.subrange(1, moves.len() as int);
        assert(all_moves_over(rest, bounds, a.crop_area)) by {
            assert forall|i: int| 0 <= i < rest.len() implies spec_logical_cursor(
                Some(rest[i]),
                bounds,
                a.crop_area,
            ) is Some by {
                assert(rest[i] == moves[i + 1]);
            }
        }
        lemma_run_moves_freehand(a1, bounds, rest, color, stroke_width, points1);
        assert(spec_lcs(rest, bounds, a.crop_area) =~= lcs.subrange(1, lcs.len() as int));
        assert(spec_decimated(points, lcs) == spec_decimated(
            points1,
            lcs.subrange(1, lcs.len() as int),
        ));
    }
}

/// Decimation stores one point per far-enough move and never more than one
/// point per move; a move at (or near) the last stored position stores
/// nothing.
pub proof fn lemma_decimation_bounds(points: Seq<Point>, lcs: Seq<Point>)
    ensures
        spec_decimated(points, lcs).len() == points.len() + spec_added_count(points, lcs),
        0 <= spec_added_count(points, lcs) <= lcs.len(),
        lcs.len() > 0 && points.len() > 0 && !spec_far_enough(points.last(), lcs[0])
            ==> spec_decimated(points, lcs) == spec_decimated(
            points,
            lcs.subrange(1, lcs.len() as int),
        ),
    decreases lcs.len(),
{
    if lcs.len() == 0 {
    } else {
        let rest = lcs.subrange(1, lcs.len() as int);
        if points.len() > 0 && spec_far_enough(points.last(), lcs[0]) {
            lemma_decimation_bounds(points.push(lcs[0]), rest);
        } else {
            lemma_decimation_bounds(points, rest);
        }
    }
}

/// A duplicate of the last stored point is never far enough, so it is never
/// stored.
pub proof fn lemma_duplicate_move_adds_nothing(points: Seq<Point>, lcs: Seq<Point>)
    requires
        lcs.len() > 0,
        points.len() > 0,
        lcs[0] == points.last(),
    ensures
        spec_decimated(points, lcs) == spec_decimated(points, lcs.subrange(1, lcs.len() as int)),
{
    assert(!spec_far_enough(points.last(), lcs[0]));
    lemma_decimation_bounds(points, lcs);
}

} // verus!

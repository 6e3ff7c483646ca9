//! The annotation engine's render callback: which shapes are painted, in
//! what order, and with what view transform. Rasterizing the plan (path
//! building, anti-aliasing, text shaping) is the host's drawing backend's
//! job; everything the plan decides is stated here.

use vstd::prelude::*;

use crate::annotations::Annotations;
use crate::color::Rgba;
use crate::geometry::{Point, Rect};
use crate::shapes::{Shape, ShapeV};

verus! {

/// Stroke widths and text sizes are multiplied by the view scale and this
/// fixed magnification before painting.
pub const STROKE_MAGNIFICATION: i64 = 25;

/// Barb length of an arrowhead, in hundredths of the image height.
pub const BARB_LENGTH_PER_IMAGE_HEIGHT: i64 = 5;

/// One painting instruction, in logical coordinates. Stroke widths are
/// logical too: the rasterizer multiplies them by the plan's scale and
/// `STROKE_MAGNIFICATION`.
#[derive(Debug)]
pub enum RenderOp {
    FillRectangle { color: Rgba, rec: Rect },
    StrokeRectangle { color: Rgba, stroke_width: i64, rec: Rect },
    /// `with_barbs` is false exactly for a zero-length arrow, whose barbs
    /// are omitted.
    StrokeArrow { color: Rgba, stroke_width: i64, begin: Point, end: Point, with_barbs: bool },
    /// Rendered centered on `position`, at `size` scaled by the view scale
    /// and the magnification.
    FillText { color: Rgba, content: String, size: i64, font: String, position: Point },
    StrokePolyline { color: Rgba, stroke_width: i64, points: Vec<Point> },
}

/// Mathematical value of a `RenderOp`.
pub enum RenderOpV {
    FillRectangle { color: Rgba, rec: Rect },
    StrokeRectangle { color: Rgba, stroke_width: i64, rec: Rect },
    StrokeArrow { color: Rgba, stroke_width: i64, begin: Point, end: Point, with_barbs: bool },
    FillText { color: Rgba, content: Seq<char>, size: i64, font: Seq<char>, position: Point },
    StrokePolyline { color: Rgba, stroke_width: i64, points: Seq<Point> },
}

impl View for RenderOp {
    type V = RenderOpV;

    open spec fn view(&self) -> RenderOpV {
        match self {
            RenderOp::FillRectangle { color, rec } => RenderOpV::FillRectangle {
                color: *color,
                rec: *rec,
            },
            RenderOp::StrokeRectangle { color, stroke_width, rec } => RenderOpV::StrokeRectangle {
                color: *color,
                stroke_width: *stroke_width,
                rec: *rec,
            },
            RenderOp::StrokeArrow { color, stroke_width, begin, end, with_barbs } => {
                RenderOpV::StrokeArrow {
                    color: *color,
                    stroke_width: *stroke_width,
                    begin: *begin,
                    end: *end,
                    with_barbs: *with_barbs,
                }
            },
            RenderOp::FillText { color, content, size, font, position } => RenderOpV::FillText {
                color: *color,
                content: content@,
                size: *size,
                font: font@,
                position: *position,
            },
            RenderOp::StrokePolyline { color, stroke_width, points } => {
                RenderOpV::StrokePolyline {
                    color: *color,
                    stroke_width: *stroke_width,
                    points: points@,
                }
            },
        }
    }
}

/// What one shape paints; nothing for a freehand stroke with no points.
pub open spec fn spec_op_of_shape(s: ShapeV) -> Option<RenderOpV> {
    match s {
        ShapeV::Rectangle { color, fill_style, rec } => match fill_style {
            crate::shapes::FillStyle::Fill => Some(RenderOpV::FillRectangle { color, rec }),
            crate::shapes::FillStyle::Stroke(stroke_width) => Some(
                RenderOpV::StrokeRectangle { color, stroke_width, rec },
            ),
        },
        ShapeV::Arrow { color, stroke_width, begin, end } => Some(
            RenderOpV::StrokeArrow { color, stroke_width, begin, end, with_barbs: begin != end },
        ),
        ShapeV::Text { color, content, size, font, position } => Some(
            RenderOpV::FillText { color, content, size, font, position },
        ),
        ShapeV::FreeHand { color, stroke_width, points } => if points.len() == 0 {
            None
        } else {
            Some(RenderOpV::StrokePolyline { color, stroke_width, points })
        },
    }
}

/// The painting instructions of a shape list, in list (= z) order.
pub open spec fn spec_ops_of(shapes: Seq<ShapeV>) -> Seq<RenderOpV>
    decreases shapes.len(),
{
    if shapes.len() == 0 {
        Seq::empty()
    } else {
        spec_ops_of(shapes.drop_last()) + match spec_op_of_shape(shapes.last()) {
            Some(op) => seq![op],
            None => Seq::empty(),
        }
    }
}

/// A frame's worth of painting: the view transform of the current crop area
/// and the instructions, finalized shapes first, the in-progress shape (if
/// the cursor is over the surface and a tool is active) on top.
#[derive(Debug)]
pub struct RenderPlan {
    /// View scale as the exact rational `scale_num / scale_den`: the widget
    /// height over the crop area's height, used for both axes.
    pub scale_num: i64,
    pub scale_den: i64,
    /// Applied before scaling: minus the crop area's origin.
    pub translation: Point,
    /// Arrowhead barb length, in hundredths of a logical unit.
    pub barb_length_hundredths: i64,
    pub ops: Vec<RenderOp>,
}

impl RenderPlan {
    /// Mathematical value of the instruction list.
    pub open spec fn ops_view(self) -> Seq<RenderOpV> {
        self.ops@.map_values(|op: RenderOp| op@)
    }
}

/// `spec_op_of_shape`, on a concrete shape.
fn op_of_shape(s: &Shape) -> (r: Option<RenderOp>)
    ensures
        match r {
            Some(op) => spec_op_of_shape(s@) == Some(op@),
            None => spec_op_of_shape(s@) is None,
        },
{
    match s {
        Shape::Rectangle { color, fill_style, rec } => match fill_style {
            crate::shapes::FillStyle::Fill => Some(
                RenderOp::FillRectangle { color: *color, rec: *rec },
            ),
            crate::shapes::FillStyle::Stroke(stroke_width) => Some(
                RenderOp::StrokeRectangle { color: *color, stroke_width: *stroke_width, rec: *rec },
            ),
        },
        Shape::Arrow { color, stroke_width, begin, end } => Some(
            RenderOp::StrokeArrow {
                color: *color,
                stroke_width: *stroke_width,
                begin: *begin,
                end: *end,
                with_barbs: !(begin.x == end.x && begin.y == end.y),
            },
        ),
        Shape::Text { color, content, size, font, position } => Some(
            RenderOp::FillText {
                color: *color,
                content: content.clone(),
                size: *size,
                font: font.clone(),
                position: *position,
            },
        ),
        Shape::FreeHand { color, stroke_width, points } => {
            if points.len() == 0 {
                None
            } else {
                let mut ps: Vec<Point> = Vec::with_capacity(points.len());
                let mut i: usize = 0;
                while i < points.len()
                    invariant
                        i <= points.len(),
                        ps@ == points@.take(i as int),
                    decreases points.len() - i,
                {
                    ps.push(points[i]);
                    i = i + 1;
                }
                proof {
                    assert(points@.take(points@.len() as int) =~= points@);
                }
                Some(
                    RenderOp::StrokePolyline {
                        color: *color,
                        stroke_width: *stroke_width,
                        points: ps,
                    },
                )
            }
        },
    }
}

impl<Message: Clone> Annotations<Message> {
    /// Plans one frame: every finalized shape in insertion order, then —
    /// only while the cursor is over the surface — the in-progress shape on
    /// top, all under the crop area's scale and translation.
    pub fn draw(&self, bounds: Rect, cursor: Option<Point>) -> (plan: RenderPlan)
        requires
            self@.wf(),
            bounds.wf(),
            cursor matches Some(p) ==> p.wide_wf(),
        ensures
            plan.scale_num == bounds.height,
            plan.scale_den == self@.crop_area.height,
            plan.translation == (Point {
                x: -self@.crop_area.x as i64,
                y: -self@.crop_area.y as i64,
            }),
            plan.barb_length_hundredths == BARB_LENGTH_PER_IMAGE_HEIGHT as int
                * self@.image_size.height,
            plan.ops_view() == spec_ops_of(self@.baked) + (
            if (match cursor {
                Some(p) => bounds.spec_contains(p),
                None => false,
            }) {
                match self@.tool {
                    Some(t) => match spec_op_of_shape(t) {
                        Some(op) => seq![op],
                        None => Seq::<RenderOpV>::empty(),
                    },
                    None => Seq::<RenderOpV>::empty(),
                }
            } else {
                Seq::<RenderOpV>::empty()
            }),
    {
        let mut ops: Vec<RenderOp> = Vec::new();
        let ghost baked_views = self@.baked;
        let mut i: usize = 0;
        proof {
            assert(spec_ops_of(baked_views.take(0)) =~= Seq::<RenderOpV>::empty());
            assert(ops@.map_values(|op: RenderOp| op@) =~= Seq::<RenderOpV>::empty());
        }
        while i < self.baked_geometry.len()
            invariant
                i <= self.baked_geometry.len(),
                baked_views == self@.baked,
                baked_views.len() == self.baked_geometry.len(),
                forall|j: int|
                    0 <= j < baked_views.len() ==> baked_views[j] == self.baked_geometry@[j]@,
                ops@.map_values(|op: RenderOp| op@) == spec_ops_of(baked_views.take(i as int)),
            decreases self.baked_geometry.len() - i,
        {
            let ghost prev_ops = ops@.map_values(|op: RenderOp| op@);
            match op_of_shape(&self.baked_geometry[i]) {
                Some(op) => {
                    ops.push(op);
                },
                None => {},
            }
            proof {
                let taken = baked_views.take(i + 1 as int);
                assert(taken.drop_last() =~= baked_views.take(i as int));
                assert(taken.last() == baked_views[i as int]);
                match spec_op_of_shape(baked_views[i as int]) {
                    Some(opv) => {
                        assert(ops@.map_values(|op: RenderOp| op@) =~= prev_ops + seq![opv]);
                        assert(spec_ops_of(taken) =~= spec_ops_of(taken.drop_last()) + seq![opv]);
                    },
                    None => {
                        assert(spec_ops_of(taken) =~= spec_ops_of(taken.drop_last()));
                    },
                }
            }
            i = i + 1;
        }
        proof {
            assert(baked_views.take(baked_views.len() as int) =~= baked_views);
        }
        let over = match cursor {
            Some(p) => bounds.contains(p),
            None => false,
        };
        if over {
            let ghost before_tool = ops@.map_values(|op: RenderOp| op@);
            match &self.tool {
                Some(t) => {
                    match op_of_shape(t) {
                        Some(op) => {
                            ops.push(op);
                            proof {
                                assert(ops@.map_values(|op: RenderOp| op@) =~= before_tool + seq![
                                    ops@.last()@,
                                ]);
                            }
                        },
                        None => {},
                    }
                },
                None => {},
            }
        }
        proof {
            assert(self@.baked =~= baked_views);
        }
        let scale_num = bounds.height;
        let scale_den = self.crop_area.height;
        let translation = Point { x: -self.crop_area.x, y: -self.crop_area.y };
        let barb_length_hundredths = BARB_LENGTH_PER_IMAGE_HEIGHT * self.image_size.height;
        let plan = RenderPlan { scale_num, scale_den, translation, barb_length_hundredths, ops };
        proof {
            let expected = spec_ops_of(self@.baked) + (
            if (match cursor {
                Some(p) => bounds.spec_contains(p),
                None => false,
            }) {
                match self@.tool {
                    Some(t) => match spec_op_of_shape(t) {
                        Some(op) => seq![op],
                        None => Seq::<RenderOpV>::empty(),
                    },
                    None => Seq::<RenderOpV>::empty(),
                }
            } else {
                Seq::<RenderOpV>::empty()
            });
            assert(plan.ops_view() =~= expected);
        }
        plan
    }
}

} // verus!

//! The annotation engine: turns pointer events into shapes in image-space
//! while the viewport is scaled and panned by the current crop area.

use vstd::prelude::*;

use crate::geometry::{logical_cursor, spec_logical_cursor, Point, Rect, Size};
use crate::input::{Interaction, PointerEvent, Status};
use crate::shapes::{spec_shape_of_tool, Shape, ShapeV, Tool};

verus! {

/// Squared minimum logical distance between consecutive stored freehand
/// points; denser pointer samples are dropped.
pub const MIN_DRAG_DISTANCE_SQUARED: i64 = 100;

/// The annotation engine. `Message` is the host's signal type; a copy of
/// `new_annotation_msg` is emitted whenever a shape is committed.
#[derive(Debug)]
pub struct Annotations<Message: Clone> {
    /// The single in-progress shape, if a tool is selected.
    pub tool: Option<Shape>,
    /// Finalized shapes; insertion order is z-order.
    pub baked_geometry: Vec<Shape>,
    /// The full image's extents.
    pub image_size: Size,
    /// The visible sub-rectangle of the image: the logical bounds pointer
    /// positions are mapped into.
    pub crop_area: Rect,
    /// Handed back to the host when a shape is committed.
    pub new_annotation_msg: Message,
}

/// Per-session pointer state.
#[derive(Debug, Clone, Copy, PartialEq, Eq, Structural)]
pub struct State {
    pub mouse_pressed: bool,
}

impl Default for State {
    /// The state before any press.
    fn default() -> (s: State)
        ensures
            s == (State { mouse_pressed: false }),
    {
        State { mouse_pressed: false }
    }
}

/// Mathematical value of the engine (the host's message put aside).
pub struct AnnotationsV {
    pub tool: Option<ShapeV>,
    pub baked: Seq<ShapeV>,
    pub image_size: Size,
    pub crop_area: Rect,
}

impl<Message: Clone> View for Annotations<Message> {
    type V = AnnotationsV;

    open spec fn view(&self) -> AnnotationsV {
        AnnotationsV {
            tool: match self.tool {
                Some(s) => Some(s@),
                None => None,
            },
            baked: self.baked_geometry@.map_values(|s: Shape| s@),
            image_size: self.image_size,
            crop_area: self.crop_area,
        }
    }
}

impl AnnotationsV {
    /// Extents are within range and nonnegative, and every stored coordinate
    /// is in the mapper's image.
    pub open spec fn wf(self) -> bool {
        &&& self.image_size.wf()
        &&& self.image_size.width >= 0
        &&& self.image_size.height >= 0
        &&& self.crop_area.wf()
        &&& self.crop_area.width >= 0
        &&& self.crop_area.height >= 0
        &&& match self.tool {
            Some(s) => s.wf(),
            None => true,
        }
        &&& forall|i: int| 0 <= i < self.baked.len() ==> (#[trigger] self.baked[i]).wf()
    }
}

/// Squared distance between two points.
pub open spec fn spec_dist_squared(p: Point, q: Point) -> int {
    (p.x - q.x) * (p.x - q.x) + (p.y - q.y) * (p.y - q.y)
}

/// Whether a move to `cp` is far enough from the last stored point `p` for a
/// new freehand point to be recorded.
pub open spec fn spec_far_enough(p: Point, cp: Point) -> bool {
    spec_dist_squared(p, cp) > MIN_DRAG_DISTANCE_SQUARED as int
}

/// A text shape's anchor tracks the cursor continuously; other shapes only
/// move on press/drag.
pub open spec fn spec_track_text(s: ShapeV, cp: Point) -> ShapeV {
    match s {
        ShapeV::Text { color, content, size, font, position: _ } => ShapeV::Text {
            color,
            content,
            size,
            font,
            position: cp,
        },
        _ => s,
    }
}

/// On press: anchor the shape's start at the cursor.
pub open spec fn spec_anchor(s: ShapeV, cp: Point) -> ShapeV {
    match s {
        ShapeV::Rectangle { color, fill_style, rec } => ShapeV::Rectangle {
            color,
            fill_style,
            rec: Rect { x: cp.x, y: cp.y, ..rec },
        },
        ShapeV::Arrow { color, stroke_width, begin: _, end: _ } => ShapeV::Arrow {
            color,
            stroke_width,
            begin: cp,
            end: cp,
        },
        ShapeV::Text { .. } => s,
        ShapeV::FreeHand { color, stroke_width, points } => ShapeV::FreeHand {
            color,
            stroke_width,
            points: points.push(cp),
        },
    }
}

/// On drag: the rectangle's extents grow as cursor minus origin (signed),
/// the arrow's end tracks the cursor, and a freehand point is appended only
/// when the cursor moved far enough from the last stored point.
pub open spec fn spec_drag(s: ShapeV, cp: Point) -> ShapeV {
    match s {
        ShapeV::Rectangle { color, fill_style, rec } => ShapeV::Rectangle {
            color,
            fill_style,
            rec: Rect {
                width: (cp.x - rec.x) as i64,
                height: (cp.y - rec.y) as i64,
                ..rec
            },
        },
        ShapeV::Arrow { color, stroke_width, begin, end: _ } => ShapeV::Arrow {
            color,
            stroke_width,
            begin,
            end: cp,
        },
        ShapeV::Text { .. } => s,
        ShapeV::FreeHand { color, stroke_width, points } => ShapeV::FreeHand {
            color,
            stroke_width,
            points: if points.len() > 0 && spec_far_enough(points.last(), cp) {
                points.push(cp)
            } else {
                points
            },
        },
    }
}

/// On release: the in-progress geometry is reset to a neutral state so no
/// stale shape flashes before the next press.
pub open spec fn spec_reset(s: ShapeV) -> ShapeV {
    match s {
        ShapeV::Rectangle { color, fill_style, rec: _ } => ShapeV::Rectangle {
            color,
            fill_style,
            rec: Rect { x: 0, y: 0, width: 0, height: 0 },
        },
        ShapeV::Arrow { color, stroke_width, begin: _, end: _ } => ShapeV::Arrow {
            color,
            stroke_width,
            begin: Point { x: 0, y: 0 },
            end: Point { x: 0, y: 0 },
        },
        ShapeV::Text { color, content, size, font, position: _ } => ShapeV::Text {
            color,
            content,
            size,
            font,
            position: Point { x: 0, y: 0 },
        },
        ShapeV::FreeHand { color, stroke_width, points: _ } => ShapeV::FreeHand {
            color,
            stroke_width,
            points: Seq::empty(),
        },
    }
}

/// One step of the annotation engine: the new engine value, the new pressed
/// flag, whether the event was consumed, and whether a shape was committed.
pub open spec fn spec_ann_update(
    a: AnnotationsV,
    pressed: bool,
    event: PointerEvent,
    bounds: Rect,
    cursor: Option<Point>,
) -> (AnnotationsV, bool, Status, bool) {
    match spec_logical_cursor(cursor, bounds, a.crop_area) {
        None => (a, pressed, Status::Ignored, false),
        Some(cp) => match a.tool {
            None => (a, pressed, Status::Ignored, false),
            Some(tool0) => {
                let tool = spec_track_text(tool0, cp);
                let a1 = AnnotationsV { tool: Some(tool), ..a };
                match event {
                    PointerEvent::LeftPressed => (
                        AnnotationsV { tool: Some(spec_anchor(tool, cp)), ..a1 },
                        true,
                        Status::Captured,
                        false,
                    ),
                    PointerEvent::LeftReleased => (
                        AnnotationsV {
                            tool: Some(spec_reset(tool)),
                            baked: a1.baked.push(tool),
                            ..a1
                        },
                        false,
                        Status::Captured,
                        true,
                    ),
                    PointerEvent::Moved => if pressed {
                        (
                            AnnotationsV { tool: Some(spec_drag(tool, cp)), ..a1 },
                            pressed,
                            Status::Captured,
                            false,
                        )
                    } else {
                        (a1, pressed, Status::Captured, false)
                    },
                    PointerEvent::Other => (a1, pressed, Status::Ignored, false),
                }
            },
        },
    }
}

/// `spec_track_text`, on the concrete shape.
fn track_text(s: Shape, cp: Point) -> (r: Shape)
    ensures
        r@ == spec_track_text(s@, cp),
{
    match s {
        Shape::Text { color, content, size, font, position: _ } => Shape::Text {
            color,
            content,
            size,
            font,
            position: cp,
        },
        other => other,
    }
}

/// `spec_anchor`, on the concrete shape.
fn anchor(s: Shape, cp: Point) -> (r: Shape)
    ensures
        r@ == spec_anchor(s@, cp),
{
    match s {
        Shape::Rectangle { color, fill_style, rec } => Shape::Rectangle {
            color,
            fill_style,
            rec: Rect { x: cp.x, y: cp.y, width: rec.width, height: rec.height },
        },
        Shape::Arrow { color, stroke_width, begin: _, end: _ } => Shape::Arrow {
            color,
            stroke_width,
            begin: cp,
            end: cp,
        },
        Shape::Text { color, content, size, font, position } => Shape::Text {
            color,
            content,
            size,
            font,
            position,
        },
        Shape::FreeHand { color, stroke_width, points } => {
            let mut points = points;
            points.push(cp);
            Shape::FreeHand { color, stroke_width, points }
        },
    }
}

/// `spec_drag`, on the concrete shape.
fn drag(s: Shape, cp: Point) -> (r: Shape)
    requires
        s@.wf(),
        cp.wide_wf(),
    ensures
        r@ == spec_drag(s@, cp),
{
    match s {
        Shape::Rectangle { color, fill_style, rec } => Shape::Rectangle {
            color,
            fill_style,
            rec: Rect { x: rec.x, y: rec.y, width: cp.x - rec.x, height: cp.y - rec.y },
        },
        Shape::Arrow { color, stroke_width, begin, end: _ } => Shape::Arrow {
            color,
            stroke_width,
            begin,
            end: cp,
        },
        Shape::Text { color, content, size, font, position } => Shape::Text {
            color,
            content,
            size,
            font,
            position,
        },
        Shape::FreeHand { color, stroke_width, points } => {
            let mut points = points;
            if points.len() > 0 {
                let last = points[points.len() - 1];
                proof {
                    assert(points@[points@.len() - 1].wide_wf());
                }
                let dx = (cp.x as i128) - (last.x as i128);
                let dy = (cp.y as i128) - (last.y as i128);
                proof {
                    assert(0 <= dx * dx <= 0x1_0000_0000_0000_0000_0000_0000 && 0 <= dy * dy
                        <= 0x1_0000_0000_0000_0000_0000_0000) by (nonlinear_arith)
                        requires
                            -0x1_0000_0000_0000 <= dx <= 0x1_0000_0000_0000,
                            -0x1_0000_0000_0000 <= dy <= 0x1_0000_0000_0000,
                    ;
                    assert((last.x - cp.x) * (last.x - cp.x) == dx * dx && (last.y - cp.y) * (
                    last.y - cp.y) == dy * dy) by (nonlinear_arith)
                        requires
                            dx == cp.x - last.x,
                            dy == cp.y - last.y,
                    ;
                    assert(dx * dx + dy * dy == spec_dist_squared(last, cp));
                }
                if dx * dx + dy * dy > MIN_DRAG_DISTANCE_SQUARED as i128 {
                    points.push(cp);
                }
            }
            Shape::FreeHand { color, stroke_width, points }
        },
    }
}

/// `spec_reset`, on the concrete shape.
fn reset(s: Shape) -> (r: Shape)
    ensures
        r@ == spec_reset(s@),
{
    match s {
        Shape::Rectangle { color, fill_style, rec: _ } => Shape::Rectangle {
            color,
            fill_style,
            rec: Rect::zero(),
        },
        Shape::Arrow { color, stroke_width, begin: _, end: _ } => Shape::Arrow {
            color,
            stroke_width,
            begin: Point::origin(),
            end: Point::origin(),
        },
        Shape::Text { color, content, size, font, position: _ } => Shape::Text {
            color,
            content,
            size,
            font,
            position: Point::origin(),
        },
        Shape::FreeHand { color, stroke_width, points } => {
            let mut points = points;
            points.clear();
            Shape::FreeHand { color, stroke_width, points }
        },
    }
}

impl<Message: Clone> Annotations<Message> {
    /// A fresh engine over an image of `image_size`: no tool, no shapes, and
    /// the crop area covering the full image.
    pub fn new(image_size: Size, new_annotation_msg: Message) -> (a: Annotations<Message>)
        requires
            image_size.wf(),
            image_size.width >= 0,
            image_size.height >= 0,
        ensures
            a@ == (AnnotationsV {
                tool: None::<ShapeV>,
                baked: Seq::<ShapeV>::empty(),
                image_size,
                crop_area: Rect { x: 0, y: 0, width: image_size.width, height: image_size.height },
            }),
            a@.wf(),
            a.new_annotation_msg == new_annotation_msg,
    {
        let a = Annotations {
            tool: None,
            baked_geometry: Vec::new(),
            image_size,
            crop_area: Rect::with_size(image_size),
            new_annotation_msg,
        };
        proof {
            assert(a@.baked =~= Seq::<ShapeV>::empty());
        }
        a
    }

    /// Removes the most recently finalized shape (stack discipline; no redo).
    pub fn undo_annotation(&mut self)
        requires
            old(self)@.wf(),
        ensures
            final(self)@ == (AnnotationsV {
                baked: if old(self)@.baked.len() > 0 {
                    old(self)@.baked.drop_last()
                } else {
                    old(self)@.baked
                },
                ..old(self)@
            }),
            final(self)@.wf(),
            final(self).new_annotation_msg == old(self).new_annotation_msg,
    {
        let _ = self.baked_geometry.pop();
        proof {
            if old(self).baked_geometry@.len() > 0 {
                assert(self@.baked =~= old(self)@.baked.drop_last());
            } else {
                assert(self@.baked =~= old(self)@.baked);
            }
        }
    }

    /// Empties the finalized list, clears the active tool, and resets the
    /// crop area to the full image.
    pub fn clear_annotations(&mut self)
        requires
            old(self)@.wf(),
        ensures
            final(self)@ == (AnnotationsV {
                tool: None::<ShapeV>,
                baked: Seq::<ShapeV>::empty(),
                image_size: old(self)@.image_size,
                crop_area: Rect {
                    x: 0,
                    y: 0,
                    width: old(self)@.image_size.width,
                    height: old(self)@.image_size.height,
                },
            }),
            final(self)@.wf(),
            final(self).new_annotation_msg == old(self).new_annotation_msg,
    {
        self.baked_geometry.clear();
        self.tool = None;
        self.crop_area = Rect::with_size(self.image_size);
        proof {
            assert(self@.baked =~= Seq::<ShapeV>::empty());
        }
    }

    /// Replaces the in-progress shape template; `None` disables drawing.
    /// Constructing a template places no geometry.
    pub fn set_tool(&mut self, tool: Option<Tool>)
        requires
            old(self)@.wf(),
        ensures
            final(self)@ == (AnnotationsV {
                tool: match tool {
                    Some(t) => Some(spec_shape_of_tool(t@)),
                    None => None,
                },
                ..old(self)@
            }),
            final(self)@.wf(),
            final(self).new_annotation_msg == old(self).new_annotation_msg,
    {
        if let Some(t) = tool {
            self.tool = Some(Shape::from_tool(t));
        } else {
            self.tool = None;
        }
    }

    /// Atomically swaps the crop area, returning the previous one (the
    /// compositor widens the view to the full image and later restores it).
    pub fn set_crop(&mut self, rec: Rect) -> (ret: Rect)
        requires
            old(self)@.wf(),
            rec.wf(),
            rec.width >= 0,
            rec.height >= 0,
        ensures
            ret == old(self)@.crop_area,
            final(self)@ == (AnnotationsV { crop_area: rec, ..old(self)@ }),
            final(self)@.wf(),
            final(self).new_annotation_msg == old(self).new_annotation_msg,
    {
        let ret = self.crop_area;
        self.crop_area = rec;
        ret
    }

    /// Resets the engine to a new image: the crop area covers it fully.
    pub fn set_image_size(&mut self, size: Size)
        requires
            old(self)@.wf(),
            size.wf(),
            size.width >= 0,
            size.height >= 0,
        ensures
            final(self)@ == (AnnotationsV {
                image_size: size,
                crop_area: Rect { x: 0, y: 0, width: size.width, height: size.height },
                ..old(self)@
            }),
            final(self)@.wf(),
            final(self).new_annotation_msg == old(self).new_annotation_msg,
    {
        self.image_size = size;
        self.crop_area = Rect::with_size(size);
    }

    /// Feeds one pointer event to the engine. Mirrors `spec_ann_update`; the
    /// returned message is present exactly when a shape was committed.
    pub fn update(&mut self, state: &mut State, event: PointerEvent, bounds: Rect, cursor: Option<
        Point,
    >) -> (r: (Status, Option<Message>))
        requires
            old(self)@.wf(),
            bounds.wf(),
            cursor matches Some(p) ==> p.wide_wf(),
        ensures
            ({
                let (a2, pressed2, status, committed) = spec_ann_update(
                    old(self)@,
                    old(state).mouse_pressed,
                    event,
                    bounds,
                    cursor,
                );
                &&& final(self)@ == a2
                &&& final(state).mouse_pressed == pressed2
                &&& r.0 == status
                &&& (r.1 is Some <==> committed)
            }),
            final(self)@.wf(),
            final(self).new_annotation_msg == old(self).new_annotation_msg,
    {
        let cp = match logical_cursor(cursor, bounds, self.crop_area) {
            Some(cp) => cp,
            None => {
                return (Status::Ignored, None);
            },
        };
        let tool0 = match self.tool.take() {
            Some(t) => t,
            None => {
                return (Status::Ignored, None);
            },
        };
        let tool = track_text(tool0, cp);
        match event {
            PointerEvent::LeftPressed => {
                state.mouse_pressed = true;
                self.tool = Some(anchor(tool, cp));
                (Status::Captured, None)
            },
            PointerEvent::LeftReleased => {
                state.mouse_pressed = false;
                self.baked_geometry.push(tool.clone());
                self.tool = Some(reset(tool));
                proof {
                    assert(self@.baked =~= old(self)@.baked.push(
                        spec_track_text(old(self)@.tool->Some_0, cp),
                    ));
                }
                (Status::Captured, Some(self.new_annotation_msg.clone()))
            },
            PointerEvent::Moved => {
                if state.mouse_pressed {
                    self.tool = Some(drag(tool, cp));
                } else {
                    self.tool = Some(tool);
                }
                (Status::Captured, None)
            },
            PointerEvent::Other => {
                self.tool = Some(tool);
                (Status::Ignored, None)
            },
        }
    }

    /// The mouse cursor to show: a crosshair over the surface while a tool
    /// is selected.
    pub fn mouse_interaction(&self, bounds: Rect, cursor: Option<Point>) -> (r: Interaction)
        requires
            bounds.wf(),
            cursor matches Some(p) ==> p.wide_wf(),
        ensures
            r == (if (match cursor {
                Some(p) => bounds.spec_contains(p),
                None => false,
            }) && self@.tool is Some {
                Interaction::Crosshair
            } else {
                Interaction::Idle
            }),
    {
        let over = match cursor {
            Some(p) => bounds.contains(p),
            None => false,
        };
        if over && self.tool.is_some() {
            Interaction::Crosshair
        } else {
            Interaction::Idle
        }
    }
}

} // verus!

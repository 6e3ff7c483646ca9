//! The shape model: the tool specifications the host's UI hands the engine,
//! and the in-progress / finalized shapes the engine accumulates.

use vstd::prelude::*;

use crate::color::Rgba;
use crate::geometry::{in_wide_range, Point, Rect};

verus! {

/// How a rectangle annotation is painted: solid, or stroked with the given
/// line width (logical units).
#[derive(Debug, Clone, Copy, PartialEq, Eq, Structural)]
pub enum FillStyle {
    Fill,
    Stroke(i64),
}

/// A tool specification: what the user picked in the UI, with no geometry
/// placed yet.
#[derive(Debug)]
pub enum Tool {
    Rectangle { color: Rgba, fill_style: FillStyle },
    Arrow { color: Rgba, stroke_width: i64 },
    Text { color: Rgba, content: String, size: i64, font: String },
    FreeHand { color: Rgba, stroke_width: i64 },
}

/// Mathematical value of a `Tool`.
pub enum ToolV {
    Rectangle { color: Rgba, fill_style: FillStyle },
    Arrow { color: Rgba, stroke_width: i64 },
    Text { color: Rgba, content: Seq<char>, size: i64, font: Seq<char> },
    FreeHand { color: Rgba, stroke_width: i64 },
}

impl View for Tool {
    type V = ToolV;

    open spec fn view(&self) -> ToolV {
        match self {
            Tool::Rectangle { color, fill_style } => ToolV::Rectangle {
                color: *color,
                fill_style: *fill_style,
            },
            Tool::Arrow { color, stroke_width } => ToolV::Arrow {
                color: *color,
                stroke_width: *stroke_width,
            },
            Tool::Text { color, content, size, font } => ToolV::Text {
                color: *color,
                content: content@,
                size: *size,
                font: font@,
            },
            Tool::FreeHand { color, stroke_width } => ToolV::FreeHand {
                color: *color,
                stroke_width: *stroke_width,
            },
        }
    }
}

/// A shape: a tool together with the geometry drawn so far. The single
/// in-progress shape and every finalized shape share this type.
#[derive(Debug)]
pub enum Shape {
    Rectangle { color: Rgba, fill_style: FillStyle, rec: Rect },
    Arrow { color: Rgba, stroke_width: i64, begin: Point, end: Point },
    Text { color: Rgba, content: String, size: i64, font: String, position: Point },
    FreeHand { color: Rgba, stroke_width: i64, points: Vec<Point> },
}

/// Mathematical value of a `Shape`.
pub enum ShapeV {
    Rectangle { color: Rgba, fill_style: FillStyle, rec: Rect },
    Arrow { color: Rgba, stroke_width: i64, begin: Point, end: Point },
    Text { color: Rgba, content: Seq<char>, size: i64, font: Seq<char>, position: Point },
    FreeHand { color: Rgba, stroke_width: i64, points: Seq<Point> },
}

impl View for Shape {
    type V = ShapeV;

    open spec fn view(&self) -> ShapeV {
        match self {
            Shape::Rectangle { color, fill_style, rec } => ShapeV::Rectangle {
                color: *color,
                fill_style: *fill_style,
                rec: *rec,
            },
            Shape::Arrow { color, stroke_width, begin, end } => ShapeV::Arrow {
                color: *color,
                stroke_width: *stroke_width,
                begin: *begin,
                end: *end,
            },
            Shape::Text { color, content, size, font, position } => ShapeV::Text {
                color: *color,
                content: content@,
                size: *size,
                font: font@,
                position: *position,
            },
            Shape::FreeHand { color, stroke_width, points } => ShapeV::FreeHand {
                color: *color,
                stroke_width: *stroke_width,
                points: points@,
            },
        }
    }
}

impl ShapeV {
    /// Every coordinate the shape stores is a sum of two in-range values.
    pub open spec fn wf(self) -> bool {
        match self {
            ShapeV::Rectangle { rec, .. } => in_wide_range(rec.x as int) && in_wide_range(
                rec.y as int,
            ) && -4 * (crate::geometry::COORD_LIMIT as int) <= rec.width <= 4 * (
            crate::geometry::COORD_LIMIT as int) && -4 * (crate::geometry::COORD_LIMIT as int)
                <= rec.height <= 4 * (crate::geometry::COORD_LIMIT as int),
            ShapeV::Arrow { begin, end, .. } => begin.wide_wf() && end.wide_wf(),
            ShapeV::Text { position, .. } => position.wide_wf(),
            ShapeV::FreeHand { points, .. } => forall|i: int|
                0 <= i < points.len() ==> (#[trigger] points[i]).wide_wf(),
        }
    }
}

/// The geometry a fresh shape starts with: zero extents, no points.
pub open spec fn spec_shape_of_tool(t: ToolV) -> ShapeV {
    match t {
        ToolV::Rectangle { color, fill_style } => ShapeV::Rectangle {
            color,
            fill_style,
            rec: Rect { x: 0, y: 0, width: 0, height: 0 },
        },
        ToolV::Arrow { color, stroke_width } => ShapeV::Arrow {
            color,
            stroke_width,
            begin: Point { x: 0, y: 0 },
            end: Point { x: 0, y: 0 },
        },
        ToolV::Text { color, content, size, font } => ShapeV::Text {
            color,
            content,
            size,
            font,
            position: Point { x: 0, y: 0 },
        },
        ToolV::FreeHand { color, stroke_width } => ShapeV::FreeHand {
            color,
            stroke_width,
            points: Seq::empty(),
        },
    }
}

impl Shape {
    /// Builds the in-progress shape for a freshly selected tool; no geometry
    /// is placed until the first press.
    pub fn from_tool(tool: Tool) -> (s: Shape)
        ensures
            s@ == spec_shape_of_tool(tool@),
            s@.wf(),
    {
        match tool {
            Tool::Rectangle { color, fill_style } => Shape::Rectangle {
                color,
                fill_style,
                rec: Rect::zero(),
            },
            Tool::Arrow { color, stroke_width } => Shape::Arrow {
                color,
                stroke_width,
                begin: Point::origin(),
                end: Point::origin(),
            },
            Tool::Text { color, content, size, font } => Shape::Text {
                color,
                content,
                size,
                font,
                position: Point::origin(),
            },
            Tool::FreeHand { color, stroke_width } => {
                let points: Vec<Point> = Vec::with_capacity(300);
                proof {
                    assert(points@ =~= Seq::<Point>::empty());
                }
                Shape::FreeHand { color, stroke_width, points }
            },
        }
    }
}

/// Copies a polyline point for point.
fn copy_points(points: &Vec<Point>) -> (r: Vec<Point>)
    ensures
        r@ == points@,
{
    let mut r: Vec<Point> = Vec::with_capacity(points.len());
    let mut i: usize = 0;
    while i < points.len()
        invariant
            i <= points.len(),
            r@ == points@.take(i as int),
        decreases points.len() - i,
    {
        r.push(points[i]);
        i = i + 1;
    }
    proof {
        assert(points@.take(points@.len() as int) =~= points@);
    }
    r
}

impl Clone for Shape {
    /// A deep copy with the same mathematical value (used when an in-progress
    /// shape is committed to the finalized list).
    fn clone(&self) -> (res: Self)
        ensures
            res@ == self@,
    {
        match self {
            Shape::Rectangle { color, fill_style, rec } => Shape::Rectangle {
                color: *color,
                fill_style: *fill_style,
                rec: *rec,
            },
            Shape::Arrow { color, stroke_width, begin, end } => Shape::Arrow {
                color: *color,
                stroke_width: *stroke_width,
                begin: *begin,
                end: *end,
            },
            Shape::Text { color, content, size, font, position } => Shape::Text {
                color: *color,
                content: content.clone(),
                size: *size,
                font: font.clone(),
                position: *position,
            },
            Shape::FreeHand { color, stroke_width, points } => Shape::FreeHand {
                color: *color,
                stroke_width: *stroke_width,
                points: copy_points(points),
            },
        }
    }
}

} // verus!

use pds_project::annotations::{Annotations, State};
use pds_project::color::Rgba;
use pds_project::geometry::{Point, Rect, Size};
use pds_project::input::{PointerEvent, Status};
use pds_project::render::RenderOp;
use pds_project::shapes::{FillStyle, Shape, Tool};

#[derive(Clone, Debug, PartialEq)]
enum Message {
    Dummy,
}

fn full_bounds() -> Rect {
    Rect::new(0, 0, 2000, 1000)
}

fn engine() -> Annotations<Message> {
    Annotations::new(Size::new(2000, 1000), Message::Dummy)
}

fn send(
    a: &mut Annotations<Message>,
    state: &mut State,
    event: PointerEvent,
    bounds: Rect,
    x: i64,
    y: i64,
) -> (Status, Option<Message>) {
    a.update(state, event, bounds, Some(Point::new(x, y)))
}

#[test]
fn rectangle_drag_commits_press_point_and_signed_size() {
    // Image 2000x1000; press at logical (500,500), move to (700,500),
    // release there: the finalized rectangle is {500,500,200,0}.
    let mut a = engine();
    let mut state = State::default();
    let bounds = full_bounds();
    a.set_tool(Some(Tool::Rectangle {
        color: Rgba::new(0, 50, 10, 100),
        fill_style: FillStyle::Stroke(1),
    }));

    send(&mut a, &mut state, PointerEvent::Moved, bounds, 500, 500);
    send(&mut a, &mut state, PointerEvent::LeftPressed, bounds, 500, 500);
    send(&mut a, &mut state, PointerEvent::Moved, bounds, 700, 500);
    let (status, msg) = send(&mut a, &mut state, PointerEvent::LeftReleased, bounds, 700, 500);

    assert_eq!(status, Status::Captured);
    assert_eq!(msg, Some(Message::Dummy));
    assert_eq!(a.baked_geometry.len(), 1);
    match &a.baked_geometry[0] {
        Shape::Rectangle { rec, .. } => {
            assert_eq!(*rec, Rect::new(500, 500, 200, 0));
        }
        other => panic!("expected a rectangle, got {:?}", other),
    }
    // The in-progress rectangle was reset so no stale shape shows.
    match a.tool.as_ref().unwrap() {
        Shape::Rectangle { rec, .. } => assert_eq!(*rec, Rect::new(0, 0, 0, 0)),
        other => panic!("expected a rectangle, got {:?}", other),
    }
}

#[test]
fn rectangle_size_may_be_negative_during_leftward_drag() {
    let mut a = engine();
    let mut state = State::default();
    let bounds = full_bounds();
    a.set_tool(Some(Tool::Rectangle {
        color: Rgba::new(0, 50, 10, 100),
        fill_style: FillStyle::Fill,
    }));

    send(&mut a, &mut state, PointerEvent::LeftPressed, bounds, 500, 500);
    send(&mut a, &mut state, PointerEvent::Moved, bounds, 300, 200);
    send(&mut a, &mut state, PointerEvent::LeftReleased, bounds, 300, 200);

    match &a.baked_geometry[0] {
        Shape::Rectangle { rec, .. } => assert_eq!(*rec, Rect::new(500, 500, -200, -300)),
        other => panic!("expected a rectangle, got {:?}", other),
    }
}

#[test]
fn freehand_decimates_near_moves() {
    let mut a = engine();
    let mut state = State::default();
    let bounds = full_bounds();
    a.set_tool(Some(Tool::FreeHand { color: Rgba::new(100, 50, 50, 100), stroke_width: 1 }));

    send(&mut a, &mut state, PointerEvent::LeftPressed, bounds, 500, 500);
    // Distance^2 = 50 <= 100: dropped.
    send(&mut a, &mut state, PointerEvent::Moved, bounds, 505, 505);
    // Far enough: stored.
    send(&mut a, &mut state, PointerEvent::Moved, bounds, 600, 600);
    // Exact duplicate of the last stored point: dropped.
    send(&mut a, &mut state, PointerEvent::Moved, bounds, 600, 600);
    // Distance exactly 10 (squared 100) is not "farther than": dropped.
    send(&mut a, &mut state, PointerEvent::Moved, bounds, 610, 600);
    // Distance^2 = 101: stored.
    send(&mut a, &mut state, PointerEvent::Moved, bounds, 610, 601);
    send(&mut a, &mut state, PointerEvent::LeftReleased, bounds, 610, 601);

    match &a.baked_geometry[0] {
        Shape::FreeHand { points, .. } => {
            assert_eq!(
                points,
                &vec![Point::new(500, 500), Point::new(600, 600), Point::new(610, 601)]
            );
        }
        other => panic!("expected a freehand stroke, got {:?}", other),
    }
    // The in-progress stroke was cleared on release.
    match a.tool.as_ref().unwrap() {
        Shape::FreeHand { points, .. } => assert!(points.is_empty()),
        other => panic!("expected a freehand stroke, got {:?}", other),
    }
}

#[test]
fn arrow_tracks_cursor_and_text_follows_without_press() {
    let mut a = engine();
    let mut state = State::default();
    let bounds = full_bounds();
    a.set_tool(Some(Tool::Arrow { color: Rgba::new(100, 50, 50, 100), stroke_width: 1 }));

    send(&mut a, &mut state, PointerEvent::LeftPressed, bounds, 500, 600);
    send(&mut a, &mut state, PointerEvent::Moved, bounds, 1000, 700);
    send(&mut a, &mut state, PointerEvent::LeftReleased, bounds, 450, 450);

    match &a.baked_geometry[0] {
        Shape::Arrow { begin, end, .. } => {
            assert_eq!(*begin, Point::new(500, 600));
            assert_eq!(*end, Point::new(1000, 700));
        }
        other => panic!("expected an arrow, got {:?}", other),
    }

    // A text anchor follows the cursor with no button pressed.
    a.set_tool(Some(Tool::Text {
        color: Rgba::new(100, 100, 0, 100),
        content: "Test".to_string(),
        size: 15,
        font: "Tektur".to_string(),
    }));
    send(&mut a, &mut state, PointerEvent::Moved, bounds, 123, 456);
    match a.tool.as_ref().unwrap() {
        Shape::Text { position, .. } => assert_eq!(*position, Point::new(123, 456)),
        other => panic!("expected a text shape, got {:?}", other),
    }
}

#[test]
fn events_without_cursor_or_tool_are_ignored() {
    let mut a = engine();
    let mut state = State::default();
    let bounds = full_bounds();

    // No tool selected: nothing is consumed.
    let (status, msg) = send(&mut a, &mut state, PointerEvent::LeftPressed, bounds, 10, 10);
    assert_eq!(status, Status::Ignored);
    assert!(msg.is_none());

    // Tool selected but the cursor is unavailable: nothing changes.
    a.set_tool(Some(Tool::FreeHand { color: Rgba::new(0, 0, 0, 100), stroke_width: 1 }));
    let (status, _) = a.update(&mut state, PointerEvent::LeftPressed, bounds, None);
    assert_eq!(status, Status::Ignored);
    match a.tool.as_ref().unwrap() {
        Shape::FreeHand { points, .. } => assert!(points.is_empty()),
        other => panic!("expected a freehand stroke, got {:?}", other),
    }
}

#[test]
fn cursor_is_mapped_through_the_crop_area() {
    // Crop area (500,0) 1100x800 over a widget a tenth of the image's size:
    // widget (10,20) maps to (500 + 10*1100/200, 0 + 20*800/100).
    let mut a = engine();
    let mut state = State::default();
    let bounds = Rect::new(0, 0, 200, 100);
    let prev = a.set_crop(Rect::new(500, 0, 1100, 800));
    assert_eq!(prev, Rect::new(0, 0, 2000, 1000));

    a.set_tool(Some(Tool::Rectangle {
        color: Rgba::new(0, 50, 10, 100),
        fill_style: FillStyle::Stroke(1),
    }));
    send(&mut a, &mut state, PointerEvent::LeftPressed, bounds, 10, 20);
    send(&mut a, &mut state, PointerEvent::Moved, bounds, 50, 25);
    send(&mut a, &mut state, PointerEvent::LeftReleased, bounds, 50, 25);

    match &a.baked_geometry[0] {
        Shape::Rectangle { rec, .. } => {
            assert_eq!(*rec, Rect::new(555, 160, 220, 40));
        }
        other => panic!("expected a rectangle, got {:?}", other),
    }
}

#[test]
fn undo_and_clear_manage_the_finalized_list() {
    let mut a = engine();
    let mut state = State::default();
    let bounds = full_bounds();
    a.set_tool(Some(Tool::Arrow { color: Rgba::new(0, 0, 0, 100), stroke_width: 1 }));

    send(&mut a, &mut state, PointerEvent::LeftPressed, bounds, 100, 100);
    send(&mut a, &mut state, PointerEvent::LeftReleased, bounds, 100, 100);
    send(&mut a, &mut state, PointerEvent::LeftPressed, bounds, 200, 200);
    send(&mut a, &mut state, PointerEvent::LeftReleased, bounds, 200, 200);
    assert_eq!(a.baked_geometry.len(), 2);

    a.undo_annotation();
    assert_eq!(a.baked_geometry.len(), 1);

    a.set_crop(Rect::new(10, 10, 100, 100));
    a.clear_annotations();
    assert_eq!(a.baked_geometry.len(), 0);
    assert!(a.tool.is_none());
    assert_eq!(a.crop_area, Rect::new(0, 0, 2000, 1000));
}

#[test]
fn render_plan_orders_shapes_and_skips_empty_strokes() {
    let mut a = engine();
    let mut state = State::default();
    let bounds = full_bounds();

    // One committed zero-length arrow: painted without barbs.
    a.set_tool(Some(Tool::Arrow { color: Rgba::new(0, 0, 0, 100), stroke_width: 1 }));
    send(&mut a, &mut state, PointerEvent::LeftPressed, bounds, 300, 300);
    send(&mut a, &mut state, PointerEvent::LeftReleased, bounds, 300, 300);

    // A freehand tool with no points yet: nothing painted for it.
    a.set_tool(Some(Tool::FreeHand { color: Rgba::new(0, 0, 0, 100), stroke_width: 1 }));

    let plan = a.draw(bounds, Some(Point::new(5, 5)));
    assert_eq!(plan.scale_num, 1000);
    assert_eq!(plan.scale_den, 1000);
    assert_eq!(plan.translation, Point::new(0, 0));
    assert_eq!(plan.barb_length_hundredths, 5 * 1000);
    assert_eq!(plan.ops.len(), 1);
    match &plan.ops[0] {
        RenderOp::StrokeArrow { begin, end, with_barbs, .. } => {
            assert_eq!(*begin, Point::new(300, 300));
            assert_eq!(*end, Point::new(300, 300));
            assert!(!(*with_barbs));
        }
        other => panic!("expected an arrow op, got {:?}", other),
    }

    // With the cursor away from the surface the in-progress shape is not
    // painted either way.
    let plan = a.draw(bounds, None);
    assert_eq!(plan.ops.len(), 1);
}

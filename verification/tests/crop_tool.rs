use pds_project::crop_tool::{CropTool, State};
use pds_project::geometry::{Point, Rect, Size};
use pds_project::input::PointerEvent;

fn moved(cr: &mut CropTool, state: &mut State, bounds: Rect, x: i64, y: i64) {
    cr.update(state, PointerEvent::Moved, bounds, Some(Point::new(x, y)));
}

fn pressed(cr: &mut CropTool, state: &mut State, bounds: Rect, x: i64, y: i64) {
    cr.update(state, PointerEvent::LeftPressed, bounds, Some(Point::new(x, y)));
}

fn released(cr: &mut CropTool, state: &mut State, bounds: Rect, x: i64, y: i64) {
    cr.update(state, PointerEvent::LeftReleased, bounds, Some(Point::new(x, y)));
}

#[test]
fn minimum_size() {
    let crop_bounds = Rect::new(0, 0, 100, 200);
    let bounds = Rect::new(0, 0, 100, 200);
    let min_crop_size = Size::new(10, 10);

    let mut state = State::default();
    let mut cr = CropTool::new(crop_bounds, min_crop_size);

    moved(&mut cr, &mut state, bounds, 10, 20);
    pressed(&mut cr, &mut state, bounds, 10, 20);
    released(&mut cr, &mut state, bounds, 10, 20);

    let res_crop = cr.get_crop_rec().unwrap();
    assert_eq!(Rect::new(10, 20, 10, 10), res_crop);
}

#[test]
fn scaled() {
    let crop_bounds = Rect::new(0, 0, 100, 200);
    let bounds = Rect::new(0, 0, 100 / 2, 200 / 2);
    let min_crop_size = Size::new(10, 10);

    let mut state = State::default();
    let mut cr = CropTool::new(crop_bounds, min_crop_size);

    moved(&mut cr, &mut state, bounds, 10, 20);
    pressed(&mut cr, &mut state, bounds, 10, 20);
    moved(&mut cr, &mut state, bounds, 30, 40);
    released(&mut cr, &mut state, bounds, 30, 40);

    let res_crop = cr.get_crop_rec().unwrap();
    assert_eq!(Rect::new(20, 40, 40, 40), res_crop);
}

#[test]
fn move_bottom_right() {
    let crop_bounds = Rect::new(0, 0, 100, 200);
    let bounds = Rect::new(0, 0, 100 / 2, 200 / 2);
    let min_crop_size = Size::new(10, 10);

    let mut state = State::default();
    let mut cr = CropTool::new(crop_bounds, min_crop_size);

    moved(&mut cr, &mut state, bounds, 10, 20);
    pressed(&mut cr, &mut state, bounds, 10, 20);
    moved(&mut cr, &mut state, bounds, 30, 40);
    released(&mut cr, &mut state, bounds, 30, 40);
    pressed(&mut cr, &mut state, bounds, 11, 39);
    moved(&mut cr, &mut state, bounds, 49, 99);
    released(&mut cr, &mut state, bounds, 49, 99);

    let res_crop = cr.get_crop_rec().unwrap();
    assert_eq!(Rect::new(60, 160, 40, 40), res_crop);
}

#[test]
fn first_press_creates_at_minimum_with_resize_active() {
    // Bounds and widget identical, minimum 10x10: a press at (10,20) creates
    // the selection there with the minimum size and resize-bottom-right
    // active, a move to (30,40) grows it, release commits 20x20.
    let crop_bounds = Rect::new(0, 0, 100, 200);
    let bounds = Rect::new(0, 0, 100, 200);
    let mut state = State::default();
    let mut cr = CropTool::new(crop_bounds, Size::new(10, 10));

    pressed(&mut cr, &mut state, bounds, 10, 20);
    assert_eq!(state.crop_rectangle, Some(Rect::new(10, 20, 10, 10)));
    assert!(cr.get_crop_rec().is_none());

    moved(&mut cr, &mut state, bounds, 30, 40);
    released(&mut cr, &mut state, bounds, 30, 40);
    assert_eq!(cr.get_crop_rec().unwrap(), Rect::new(10, 20, 20, 20));
}

#[test]
fn resize_never_shrinks_below_minimum() {
    let crop_bounds = Rect::new(0, 0, 100, 200);
    let bounds = Rect::new(0, 0, 100, 200);
    let mut state = State::default();
    let mut cr = CropTool::new(crop_bounds, Size::new(10, 10));

    // Create a 40x40 selection at (30, 30).
    pressed(&mut cr, &mut state, bounds, 30, 30);
    moved(&mut cr, &mut state, bounds, 70, 70);
    released(&mut cr, &mut state, bounds, 70, 70);
    assert_eq!(cr.get_crop_rec().unwrap(), Rect::new(30, 30, 40, 40));

    // Drag the bottom-right handle far past the top-left corner: both
    // extents clamp to the minimum, the origin stays.
    pressed(&mut cr, &mut state, bounds, 70, 70);
    moved(&mut cr, &mut state, bounds, 0, 0);
    released(&mut cr, &mut state, bounds, 0, 0);
    let rec = cr.get_crop_rec().unwrap();
    assert_eq!(rec, Rect::new(30, 30, 10, 10));
}

#[test]
fn resize_top_left_keeps_bottom_right_fixed() {
    let crop_bounds = Rect::new(0, 0, 100, 200);
    let bounds = Rect::new(0, 0, 100, 200);
    let mut state = State::default();
    let mut cr = CropTool::new(crop_bounds, Size::new(10, 10));

    pressed(&mut cr, &mut state, bounds, 30, 30);
    moved(&mut cr, &mut state, bounds, 70, 70);
    released(&mut cr, &mut state, bounds, 70, 70);

    // Press on the top-left handle and pull it to (10, 10): the bottom-right
    // corner must stay at (70, 70).
    pressed(&mut cr, &mut state, bounds, 30, 30);
    moved(&mut cr, &mut state, bounds, 10, 10);
    released(&mut cr, &mut state, bounds, 10, 10);
    assert_eq!(cr.get_crop_rec().unwrap(), Rect::new(10, 10, 60, 60));
}

#[test]
fn move_clamps_inside_bounds() {
    // Example: a committed 40x40 selection moved by a drag that would push
    // it past the right edge stops at the edge.
    let crop_bounds = Rect::new(0, 0, 100, 200);
    let bounds = Rect::new(0, 0, 100, 200);
    let mut state = State::default();
    let mut cr = CropTool::new(crop_bounds, Size::new(10, 10));

    pressed(&mut cr, &mut state, bounds, 20, 40);
    moved(&mut cr, &mut state, bounds, 60, 80);
    released(&mut cr, &mut state, bounds, 60, 80);
    assert_eq!(cr.get_crop_rec().unwrap(), Rect::new(20, 40, 40, 40));

    // Press inside the body (away from the handles), drag to the far corner.
    pressed(&mut cr, &mut state, bounds, 40, 60);
    moved(&mut cr, &mut state, bounds, 99, 199);
    released(&mut cr, &mut state, bounds, 99, 199);
    let rec = cr.get_crop_rec().unwrap();
    assert_eq!(rec, Rect::new(60, 160, 40, 40));
}

#[test]
fn events_outside_widget_are_ignored() {
    let crop_bounds = Rect::new(0, 0, 100, 200);
    let bounds = Rect::new(0, 0, 100, 200);
    let mut state = State::default();
    let mut cr = CropTool::new(crop_bounds, Size::new(10, 10));

    // Unavailable cursor: nothing happens.
    cr.update(&mut state, PointerEvent::LeftPressed, bounds, None);
    assert!(state.crop_rectangle.is_none());

    // Cursor outside the widget bounds: nothing happens either.
    pressed(&mut cr, &mut state, bounds, 150, 20);
    assert!(state.crop_rectangle.is_none());
}

//! The crop-selection state machine: one crop rectangle, dragged by its
//! corner handles or by its body, always clamped to the configured bounds and
//! never smaller than the configured minimum size.

use vstd::prelude::*;
use vstd::arithmetic::div_mod::{
    lemma_div_nonincreasing, lemma_div_pos_is_pos, lemma_fundamental_div_mod,
    lemma_fundamental_div_mod_converse, lemma_multiply_divide_le,
};
use vstd::arithmetic::mul::lemma_mul_nonnegative;

use crate::color::Rgba;

use crate::geometry::{
    arith_safe, logical_cursor, spec_logical_cursor, Point, Rect, Size, COORD_LIMIT,
};
use crate::input::{Interaction, PointerEvent, Status};

verus! {

/// Side of the square corner handles, in widget pixels; rescaled into
/// logical units against the widget's height on every event.
pub const HANDLE_SIZE: i64 = 17;

/// The drag a press started.
#[derive(Debug, Clone, Copy, PartialEq, Eq, Structural)]
pub enum CropAction {
    ResizeTl,
    ResizeBr,
    MoveArea,
}

/// The crop engine: configuration plus the rectangle committed at the last
/// release.
#[derive(Debug, Clone, Copy, PartialEq, Eq, Structural)]
pub struct CropTool {
    /// Committed at release; transient drag positions never show here.
    pub crop_rectangle: Option<Rect>,
    /// The fixed outer rectangle a selection may not leave.
    pub crop_bounds: Rect,
    /// Least width and height a selection may have.
    pub min_crop_size: Size,
}

/// Per-drag state: the in-drag rectangle, the corner handles of the last
/// event, the running drag kind, and the press offset of a move.
#[derive(Debug, Clone, Copy, PartialEq, Eq, Structural)]
pub struct State {
    pub crop_rectangle: Option<Rect>,
    pub tl_handle: Rect,
    pub br_handle: Rect,
    pub action: Option<CropAction>,
    pub click_offset: Point,
}

impl Default for State {
    /// The state before any press: no rectangle, no drag.
    fn default() -> (s: State)
        ensures
            s == State::initial(),
    {
        State {
            crop_rectangle: None,
            tl_handle: Rect { x: 0, y: 0, width: 0, height: 0 },
            br_handle: Rect { x: 0, y: 0, width: 0, height: 0 },
            action: None,
            click_offset: Point { x: 0, y: 0 },
        }
    }
}

impl State {
    pub open spec fn initial() -> State {
        State {
            crop_rectangle: None,
            tl_handle: Rect { x: 0, y: 0, width: 0, height: 0 },
            br_handle: Rect { x: 0, y: 0, width: 0, height: 0 },
            action: None,
            click_offset: Point { x: 0, y: 0 },
        }
    }

    /// Bounds on the cached handles and press offset, and validity of the
    /// in-drag rectangle.
    pub open spec fn wf(self, tool: CropTool) -> bool {
        &&& match self.crop_rectangle {
            Some(r) => tool.rect_valid(r),
            None => true,
        }
        &&& arith_safe(self.tl_handle.x as int) && arith_safe(self.tl_handle.y as int)
            && arith_safe(self.tl_handle.width as int) && arith_safe(self.tl_handle.height as int)
        &&& arith_safe(self.br_handle.x as int) && arith_safe(self.br_handle.y as int)
            && arith_safe(self.br_handle.width as int) && arith_safe(self.br_handle.height as int)
        &&& -4 * (COORD_LIMIT as int) <= self.click_offset.x <= 4 * (COORD_LIMIT as int)
        &&& -4 * (COORD_LIMIT as int) <= self.click_offset.y <= 4 * (COORD_LIMIT as int)
    }
}

impl CropTool {
    /// The configuration never changes after construction: positive bounds
    /// within the coordinate limit, and a positive minimum that fits in them.
    pub open spec fn config_wf(self) -> bool {
        &&& self.crop_bounds.wf()
        &&& self.crop_bounds.positive()
        &&& 0 < self.min_crop_size.width <= self.crop_bounds.width
        &&& 0 < self.min_crop_size.height <= self.crop_bounds.height
    }

    /// A selection the engine may ever expose: at least the minimum size and
    /// fully inside the crop bounds.
    pub open spec fn rect_valid(self, r: Rect) -> bool {
        &&& r.width >= self.min_crop_size.width
        &&& r.height >= self.min_crop_size.height
        &&& r.inside(self.crop_bounds)
    }

    pub open spec fn wf(self) -> bool {
        &&& self.config_wf()
        &&& match self.crop_rectangle {
            Some(r) => self.rect_valid(r),
            None => true,
        }
    }

    pub fn new(crop_bounds: Rect, min_crop_size: Size) -> (t: CropTool)
        requires
            crop_bounds.wf(),
            crop_bounds.positive(),
            0 < min_crop_size.width <= crop_bounds.width,
            0 < min_crop_size.height <= crop_bounds.height,
        ensures
            t == (CropTool { crop_rectangle: None::<Rect>, crop_bounds, min_crop_size }),
            t.wf(),
    {
        CropTool { crop_rectangle: None, crop_bounds, min_crop_size }
    }

    /// The rectangle committed at the last release, if any.
    pub fn get_crop_rec(&self) -> (r: Option<Rect>)
        requires
            self.wf(),
        ensures
            r == self.crop_rectangle,
            r matches Some(rec) ==> self.rect_valid(rec),
    {
        self.crop_rectangle
    }
}

/// The corner handles' side in logical units: `HANDLE_SIZE` widget pixels
/// taken through the widget-to-bounds height ratio.
pub open spec fn spec_handle_size(crop_bounds: Rect, bounds: Rect) -> int {
    HANDLE_SIZE as int * crop_bounds.height as int / bounds.height as int
}

/// The top-left handle: a square of side `hs` centered on the rectangle's
/// top-left corner.
pub open spec fn spec_tl_handle(rec: Rect, hs: int) -> Rect {
    Rect {
        x: (rec.x - hs / 2) as i64,
        y: (rec.y - hs / 2) as i64,
        width: hs as i64,
        height: hs as i64,
    }
}

/// The bottom-right handle: a square of side `hs` centered on the
/// rectangle's bottom-right corner.
pub open spec fn spec_br_handle(rec: Rect, hs: int) -> Rect {
    Rect {
        x: (rec.x + rec.width - hs / 2) as i64,
        y: (rec.y + rec.height - hs / 2) as i64,
        width: hs as i64,
        height: hs as i64,
    }
}

/// Resize from the top-left corner: the bottom-right corner stays fixed, and
/// an axis whose candidate size would fall below the minimum has its origin
/// pinned so the size clamps to the minimum exactly.
pub open spec fn spec_resize_tl(rec: Rect, cp: Point, min: Size) -> Rect {
    let br_x = rec.x + rec.width;
    let br_y = rec.y + rec.height;
    let nx: int = if rec.width - (cp.x - rec.x) < min.width {
        rec.x + rec.width - min.width
    } else {
        cp.x as int
    };
    let ny: int = if rec.height - (cp.y - rec.y) < min.height {
        rec.y + rec.height - min.height
    } else {
        cp.y as int
    };
    let w: int = if br_x - nx > min.width {
        br_x - nx
    } else {
        min.width as int
    };
    let h: int = if br_y - ny > min.height {
        br_y - ny
    } else {
        min.height as int
    };
    Rect { x: nx as i64, y: ny as i64, width: w as i64, height: h as i64 }
}

/// Resize from the bottom-right corner: the origin stays fixed and each size
/// is clamped to at least the minimum.
pub open spec fn spec_resize_br(rec: Rect, cp: Point, min: Size) -> Rect {
    let w: int = if cp.x - rec.x > min.width {
        cp.x - rec.x
    } else {
        min.width as int
    };
    let h: int = if cp.y - rec.y > min.height {
        cp.y - rec.y
    } else {
        min.height as int
    };
    Rect { x: rec.x, y: rec.y, width: w as i64, height: h as i64 }
}

/// Move the whole rectangle: new origin is the cursor minus the press
/// offset, clamped on both axes so the rectangle never exits the bounds.
pub open spec fn spec_move_area(rec: Rect, cp: Point, offset: Point, bounds: Rect) -> Rect {
    let cand_x = cp.x - offset.x;
    let cand_y = cp.y - offset.y;
    let nx: int = if cand_x < bounds.x {
        bounds.x as int
    } else if cand_x + rec.width > bounds.x + bounds.width {
        bounds.width - rec.width + bounds.x
    } else {
        cand_x
    };
    let ny: int = if cand_y < bounds.y {
        bounds.y as int
    } else if cand_y + rec.height > bounds.y + bounds.height {
        bounds.height - rec.height + bounds.y
    } else {
        cand_y
    };
    Rect { x: nx as i64, y: ny as i64, width: rec.width, height: rec.height }
}

/// The rectangle a first press creates: anchored at the cursor with the
/// minimum size, pulled back inside the bounds where it would stick out.
pub open spec fn spec_create_rect(cp: Point, min: Size, bounds: Rect) -> Rect {
    let nx: int = if cp.x + min.width > bounds.x + bounds.width {
        bounds.width - min.width + bounds.x
    } else {
        cp.x as int
    };
    let ny: int = if cp.y + min.height > bounds.y + bounds.height {
        bounds.height - min.height + bounds.y
    } else {
        cp.y as int
    };
    Rect { x: nx as i64, y: ny as i64, width: min.width, height: min.height }
}

/// One step of the crop engine. Mirrored exactly by `CropTool::update`.
pub open spec fn spec_crop_update(
    t: CropTool,
    s: State,
    event: PointerEvent,
    bounds: Rect,
    cursor: Option<Point>,
) -> (CropTool, State, Status) {
    match spec_logical_cursor(cursor, bounds, t.crop_bounds) {
        None => (t, s, Status::Ignored),
        Some(cp) => match s.crop_rectangle {
            Some(rec) => {
                let hs = spec_handle_size(t.crop_bounds, bounds);
                let tl = spec_tl_handle(rec, hs);
                let br = spec_br_handle(rec, hs);
                let s1 = State { tl_handle: tl, br_handle: br, ..s };
                match event {
                    PointerEvent::LeftPressed => {
                        if tl.spec_contains(cp) {
                            (t, State { action: Some(CropAction::ResizeTl), ..s1 }, Status::Captured)
                        } else if br.spec_contains(cp) {
                            (t, State { action: Some(CropAction::ResizeBr), ..s1 }, Status::Captured)
                        } else if rec.spec_contains(cp) {
                            (
                                t,
                                State {
                                    action: Some(CropAction::MoveArea),
                                    click_offset: Point {
                                        x: (cp.x - rec.x) as i64,
                                        y: (cp.y - rec.y) as i64,
                                    },
                                    ..s1
                                },
                                Status::Captured,
                            )
                        } else {
                            (t, State { action: None, ..s1 }, Status::Captured)
                        }
                    },
                    PointerEvent::Moved => match s1.action {
                        Some(CropAction::ResizeTl) => (
                            t,
                            State {
                                crop_rectangle: Some(spec_resize_tl(rec, cp, t.min_crop_size)),
                                ..s1
                            },
                            Status::Captured,
                        ),
                        Some(CropAction::ResizeBr) => (
                            t,
                            State {
                                crop_rectangle: Some(spec_resize_br(rec, cp, t.min_crop_size)),
                                ..s1
                            },
                            Status::Captured,
                        ),
                        Some(CropAction::MoveArea) => (
                            t,
                            State {
                                crop_rectangle: Some(
                                    spec_move_area(rec, cp, s1.click_offset, t.crop_bounds),
                                ),
                                ..s1
                            },
                            Status::Captured,
                        ),
                        None => (t, s1, Status::Ignored),
                    },
                    PointerEvent::LeftReleased => (
                        CropTool { crop_rectangle: s1.crop_rectangle, ..t },
                        State { action: None, ..s1 },
                        Status::Captured,
                    ),
                    PointerEvent::Other => (t, s1, Status::Ignored),
                }
            },
            None => match event {
                PointerEvent::LeftPressed => (
                    t,
                    State {
                        crop_rectangle: Some(spec_create_rect(cp, t.min_crop_size, t.crop_bounds)),
                        action: Some(CropAction::ResizeBr),
                        ..s
                    },
                    Status::Captured,
                ),
                _ => (t, s, Status::Ignored),
            },
        },
    }
}

impl CropTool {
    /// Feeds one pointer event to the engine. The logical cursor is computed
    /// against the fixed crop bounds; an unavailable cursor leaves everything
    /// unchanged. Every rectangle the step stores — in-drag or committed —
    /// keeps at least the minimum size and stays inside the crop bounds.
    pub fn update(&mut self, state: &mut State, event: PointerEvent, bounds: Rect, cursor: Option<
        Point,
    >) -> (r: Status)
        requires
            old(self).wf(),
            old(state).wf(*old(self)),
            bounds.wf(),
            cursor matches Some(p) ==> p.wide_wf(),
        ensures
            (*final(self), *final(state), r) == spec_crop_update(
                *old(self),
                *old(state),
                event,
                bounds,
                cursor,
            ),
            final(self).wf(),
            final(state).wf(*final(self)),
            final(self).crop_bounds == old(self).crop_bounds,
            final(self).min_crop_size == old(self).min_crop_size,
    {
        let cp = match logical_cursor(cursor, bounds, self.crop_bounds) {
            Some(cp) => cp,
            None => {
                return Status::Ignored;
            },
        };
        proof {
            lemma_div_pos_is_pos(
                HANDLE_SIZE as int * self.crop_bounds.height as int,
                bounds.height as int,
            );
            lemma_div_nonincreasing(
                HANDLE_SIZE as int * self.crop_bounds.height as int,
                bounds.height as int,
            );
        }
        match state.crop_rectangle {
            Some(rec) => {
                let handle_size = HANDLE_SIZE * self.crop_bounds.height / bounds.height;
                state.tl_handle = Rect {
                    x: rec.x - handle_size / 2,
                    y: rec.y - handle_size / 2,
                    width: handle_size,
                    height: handle_size,
                };
                state.br_handle = Rect {
                    x: rec.x + rec.width - handle_size / 2,
                    y: rec.y + rec.height - handle_size / 2,
                    width: handle_size,
                    height: handle_size,
                };
                match event {
                    PointerEvent::LeftPressed => {
                        if state.tl_handle.contains(cp) {
                            state.action = Some(CropAction::ResizeTl);
                        } else if state.br_handle.contains(cp) {
                            state.action = Some(CropAction::ResizeBr);
                        } else if rec.contains(cp) {
                            state.click_offset = Point { x: cp.x - rec.x, y: cp.y - rec.y };
                            state.action = Some(CropAction::MoveArea);
                        } else {
                            state.action = None;
                        }
                        Status::Captured
                    },
                    PointerEvent::Moved => {
                        match state.action {
                            Some(CropAction::ResizeTl) => {
                                let br_x = rec.x + rec.width;
                                let br_y = rec.y + rec.height;
                                let nx = if rec.width - (cp.x - rec.x) < self.min_crop_size.width {
                                    rec.x + rec.width - self.min_crop_size.width
                                } else {
                                    cp.x
                                };
                                let ny = if rec.height - (cp.y - rec.y)
                                    < self.min_crop_size.height {
                                    rec.y + rec.height - self.min_crop_size.height
                                } else {
                                    cp.y
                                };
                                let w = if br_x - nx > self.min_crop_size.width {
                                    br_x - nx
                                } else {
                                    self.min_crop_size.width
                                };
                                let h = if br_y - ny > self.min_crop_size.height {
                                    br_y - ny
                                } else {
                                    self.min_crop_size.height
                                };
                                state.crop_rectangle = Some(
                                    Rect { x: nx, y: ny, width: w, height: h },
                                );
                                Status::Captured
                            },
                            Some(CropAction::ResizeBr) => {
                                let w = if cp.x - rec.x > self.min_crop_size.width {
                                    cp.x - rec.x
                                } else {
                                    self.min_crop_size.width
                                };
                                let h = if cp.y - rec.y > self.min_crop_size.height {
                                    cp.y - rec.y
                                } else {
                                    self.min_crop_size.height
                                };
                                state.crop_rectangle = Some(
                                    Rect { x: rec.x, y: rec.y, width: w, height: h },
                                );
                                Status::Captured
                            },
                            Some(CropAction::MoveArea) => {
                                let cand_x = cp.x - state.click_offset.x;
                                let cand_y = cp.y - state.click_offset.y;
                                let nx = if cand_x < self.crop_bounds.x {
                                    self.crop_bounds.x
                                } else if cand_x + rec.width > self.crop_bounds.x
                                    + self.crop_bounds.width {
                                    self.crop_bounds.width - rec.width + self.crop_bounds.x
                                } else {
                                    cand_x
                                };
                                let ny = if cand_y < self.crop_bounds.y {
                                    self.crop_bounds.y
                                } else if cand_y + rec.height > self.crop_bounds.y
                                    + self.crop_bounds.height {
                                    self.crop_bounds.height - rec.height + self.crop_bounds.y
                                } else {
                                    cand_y
                                };
                                state.crop_rectangle = Some(
                                    Rect { x: nx, y: ny, width: rec.width, height: rec.height },
                                );
                                Status::Captured
                            },
                            None => Status::Ignored,
                        }
                    },
                    PointerEvent::LeftReleased => {
                        state.action = None;
                        self.crop_rectangle = state.crop_rectangle;
                        Status::Captured
                    },
                    PointerEvent::Other => Status::Ignored,
                }
            },
            None => {
                match event {
                    PointerEvent::LeftPressed => {
                        let mut rec = Rect {
                            x: cp.x,
                            y: cp.y,
                            width: self.min_crop_size.width,
                            height: self.min_crop_size.height,
                        };
                        if rec.x + rec.width > self.crop_bounds.x + self.crop_bounds.width {
                            rec.x = self.crop_bounds.width - rec.width + self.crop_bounds.x;
                        }
                        if rec.y + rec.height > self.crop_bounds.y + self.crop_bounds.height {
                            rec.y = self.crop_bounds.height - rec.height + self.crop_bounds.y;
                        }
                        state.crop_rectangle = Some(rec);
                        state.action = Some(CropAction::ResizeBr);
                        Status::Captured
                    },
                    _ => Status::Ignored,
                }
            },
        }
    }
}

/// Stroke width of the two corner marks, in widget pixels.
pub const HANDLE_STROKE_WIDTH: i64 = 4;

/// An L-shaped corner mark: the polyline `a -> b -> c`.
#[derive(Debug, Clone, Copy, PartialEq, Eq, Structural)]
pub struct Mark {
    pub a: Point,
    pub b: Point,
    pub c: Point,
}

/// What the crop engine paints over the image: without a selection the whole
/// surface is dimmed; with one, the region outside the selection is dimmed
/// by four non-overlapping bands and the two resize handles are marked.
#[derive(Debug, Clone, Copy, PartialEq, Eq, Structural)]
pub enum CropOverlay {
    Full { color: Rgba },
    Selection {
        color: Rgba,
        top: Rect,
        bottom: Rect,
        left: Rect,
        right: Rect,
        tl_mark: Mark,
        br_mark: Mark,
        mark_color: Rgba,
        mark_width: i64,
    },
}

/// The translucent dark overlay color.
pub open spec fn spec_overlay_color() -> Rgba {
    Rgba { r: 0, g: 0, b: 0, a: 80 }
}

/// The in-drag rectangle taken from logical units to widget pixels.
pub open spec fn spec_scaled_rec(rec: Rect, cb: Rect, bounds: Rect) -> Rect {
    Rect {
        x: ((rec.x - cb.x) * bounds.width / cb.width as int) as i64,
        y: ((rec.y - cb.y) * bounds.height / cb.height as int) as i64,
        width: (rec.width * bounds.width / cb.width as int) as i64,
        height: (rec.height * bounds.height / cb.height as int) as i64,
    }
}

/// How many of the four bands and the scaled selection contain `p`.
pub open spec fn spec_cover_count(
    top: Rect,
    bottom: Rect,
    left: Rect,
    right: Rect,
    srec: Rect,
    p: Point,
) -> int {
    (if top.spec_contains(p) {
        1int
    } else {
        0int
    }) + (if bottom.spec_contains(p) {
        1int
    } else {
        0int
    }) + (if left.spec_contains(p) {
        1int
    } else {
        0int
    }) + (if right.spec_contains(p) {
        1int
    } else {
        0int
    }) + (if srec.spec_contains(p) {
        1int
    } else {
        0int
    })
}

/// The overlay of one frame, mirrored exactly by `CropTool::draw`.
pub open spec fn spec_crop_overlay(t: CropTool, s: State, bounds: Rect) -> CropOverlay {
    match s.crop_rectangle {
        None => CropOverlay::Full { color: spec_overlay_color() },
        Some(rec) => {
            let sr = spec_scaled_rec(rec, t.crop_bounds, bounds);
            let br_x = sr.x + sr.width;
            let br_y = sr.y + sr.height;
            CropOverlay::Selection {
                color: spec_overlay_color(),
                top: Rect { x: 0, y: 0, width: bounds.width, height: sr.y },
                bottom: Rect {
                    x: 0,
                    y: br_y as i64,
                    width: bounds.width,
                    height: (bounds.height - br_y) as i64,
                },
                left: Rect { x: 0, y: sr.y, width: sr.x, height: sr.height },
                right: Rect {
                    x: br_x as i64,
                    y: sr.y,
                    width: (bounds.width - br_x) as i64,
                    height: sr.height,
                },
                tl_mark: Mark {
                    a: Point { x: (sr.x + HANDLE_SIZE) as i64, y: sr.y },
                    b: Point { x: sr.x, y: sr.y },
                    c: Point { x: sr.x, y: (sr.y + HANDLE_SIZE) as i64 },
                },
                br_mark: Mark {
                    a: Point { x: (br_x - HANDLE_SIZE) as i64, y: br_y as i64 },
                    b: Point { x: br_x as i64, y: br_y as i64 },
                    c: Point { x: br_x as i64, y: (br_y - HANDLE_SIZE) as i64 },
                },
                mark_color: Rgba { r: 100, g: 100, b: 100, a: 100 },
                mark_width: HANDLE_STROKE_WIDTH,
            }
        },
    }
}

/// Sums of truncating divisions by a shared positive divisor never exceed
/// the division of the sum.
proof fn lemma_div_sum_le(a: int, b: int, d: int)
    requires
        0 <= a,
        0 <= b,
        0 < d,
    ensures
        a / d + b / d <= (a + b) / d,
{
    lemma_fundamental_div_mod(a, d);
    lemma_fundamental_div_mod(b, d);
    let q1 = a / d;
    let r1 = a % d;
    let q2 = b / d;
    let r2 = b % d;
    if r1 + r2 < d {
        assert(a + b == (q1 + q2) * d + (r1 + r2)) by (nonlinear_arith)
            requires
                a == d * q1 + r1,
                b == d * q2 + r2,
        ;
        lemma_fundamental_div_mod_converse(a + b, d, q1 + q2, r1 + r2);
    } else {
        assert(a + b == (q1 + q2 + 1) * d + (r1 + r2 - d)) by (nonlinear_arith)
            requires
                a == d * q1 + r1,
                b == d * q2 + r2,
        ;
        lemma_fundamental_div_mod_converse(a + b, d, q1 + q2 + 1, r1 + r2 - d);
    }
}

/// The scaled selection fits inside the widget when the logical selection
/// fits inside the crop bounds.
proof fn lemma_scaled_rec_inside(rec: Rect, cb: Rect, bounds: Rect)
    requires
        cb.wf(),
        cb.positive(),
        bounds.wf(),
        bounds.positive(),
        rec.width >= 0,
        rec.height >= 0,
        rec.inside(cb),
    ensures
        ({
            let sr = spec_scaled_rec(rec, cb, bounds);
            0 <= sr.x && 0 <= sr.y && 0 <= sr.width && 0 <= sr.height && sr.x + sr.width
                <= bounds.width && sr.y + sr.height <= bounds.height
        }),
{
    let dx = rec.x - cb.x;
    let dy = rec.y - cb.y;
    lemma_mul_nonnegative(dx, bounds.width as int);
    lemma_mul_nonnegative(dy, bounds.height as int);
    lemma_mul_nonnegative(rec.width as int, bounds.width as int);
    lemma_mul_nonnegative(rec.height as int, bounds.height as int);
    lemma_div_pos_is_pos(dx * bounds.width, cb.width as int);
    lemma_div_pos_is_pos(dy * bounds.height, cb.height as int);
    lemma_div_pos_is_pos(rec.width * bounds.width, cb.width as int);
    lemma_div_pos_is_pos(rec.height * bounds.height, cb.height as int);
    lemma_div_sum_le(dx * bounds.width, rec.width * bounds.width, cb.width as int);
    lemma_div_sum_le(dy * bounds.height, rec.height * bounds.height, cb.height as int);
    assert(dx * bounds.width + rec.width * bounds.width == (dx + rec.width) * bounds.width
        && dy * bounds.height + rec.height * bounds.height == (dy + rec.height) * bounds.height)
        by (nonlinear_arith);
    assert((dx + rec.width) * bounds.width <= cb.width * bounds.width && (dy + rec.height)
        * bounds.height <= cb.height * bounds.height) by (nonlinear_arith)
        requires
            dx + rec.width <= cb.width,
            dy + rec.height <= cb.height,
            bounds.positive(),
    ;
    lemma_multiply_divide_le((dx + rec.width) * bounds.width, cb.width as int, bounds.width as int);
    lemma_multiply_divide_le(
        (dy + rec.height) * bounds.height,
        cb.height as int,
        bounds.height as int,
    );
    assert(cb.width as int * bounds.width as int == bounds.width as int * cb.width as int
        && cb.height as int * bounds.height as int == bounds.height as int * cb.height as int)
        by (nonlinear_arith);
}

impl CropTool {
    /// Plans the overlay of one frame. With a selection, the four bands are
    /// pairwise disjoint and, together with the scaled selection, cover each
    /// widget point exactly once — the dim never double-covers a corner.
    pub fn draw(&self, state: &State, bounds: Rect) -> (overlay: CropOverlay)
        requires
            self.wf(),
            state.wf(*self),
            bounds.wf(),
            bounds.positive(),
        ensures
            overlay == spec_crop_overlay(*self, *state, bounds),
            overlay matches CropOverlay::Selection { top, bottom, left, right, .. } ==> forall|
                p: Point,
            |
                #![auto]
                0 <= p.x < bounds.width && 0 <= p.y < bounds.height ==> spec_cover_count(
                    top,
                    bottom,
                    left,
                    right,
                    spec_scaled_rec(state.crop_rectangle->Some_0, self.crop_bounds, bounds),
                    p,
                ) == 1,
    {
        match state.crop_rectangle {
            None => CropOverlay::Full { color: Rgba { r: 0, g: 0, b: 0, a: 80 } },
            Some(rec) => {
                proof {
                    lemma_scaled_rec_inside(rec, self.crop_bounds, bounds);
                    assert(0 <= (rec.x - self.crop_bounds.x) * bounds.width <= 0x1000_0000_0000_0000
                        && 0 <= (rec.y - self.crop_bounds.y) * bounds.height
                        <= 0x1000_0000_0000_0000 && 0 <= rec.width * bounds.width
                        <= 0x1000_0000_0000_0000 && 0 <= rec.height * bounds.height
                        <= 0x1000_0000_0000_0000) by (nonlinear_arith)
                        requires
                            0 <= rec.x - self.crop_bounds.x <= COORD_LIMIT as int,
                            0 <= rec.y - self.crop_bounds.y <= COORD_LIMIT as int,
                            0 <= rec.width <= COORD_LIMIT as int,
                            0 <= rec.height <= COORD_LIMIT as int,
                            0 < bounds.width <= COORD_LIMIT as int,
                            0 < bounds.height <= COORD_LIMIT as int,
                            COORD_LIMIT as int == 1_000_000_000,
                    ;
                }
                let sx = (rec.x - self.crop_bounds.x) * bounds.width / self.crop_bounds.width;
                let sy = (rec.y - self.crop_bounds.y) * bounds.height / self.crop_bounds.height;
                let sw = rec.width * bounds.width / self.crop_bounds.width;
                let sh = rec.height * bounds.height / self.crop_bounds.height;
                let br_x = sx + sw;
                let br_y = sy + sh;
                CropOverlay::Selection {
                    color: Rgba { r: 0, g: 0, b: 0, a: 80 },
                    top: Rect { x: 0, y: 0, width: bounds.width, height: sy },
                    bottom: Rect {
                        x: 0,
                        y: br_y,
                        width: bounds.width,
                        height: bounds.height - br_y,
                    },
                    left: Rect { x: 0, y: sy, width: sx, height: sh },
                    right: Rect { x: br_x, y: sy, width: bounds.width - br_x, height: sh },
                    tl_mark: Mark {
                        a: Point { x: sx + HANDLE_SIZE, y: sy },
                        b: Point { x: sx, y: sy },
                        c: Point { x: sx, y: sy + HANDLE_SIZE },
                    },
                    br_mark: Mark {
                        a: Point { x: br_x - HANDLE_SIZE, y: br_y },
                        b: Point { x: br_x, y: br_y },
                        c: Point { x: br_x, y: br_y - HANDLE_SIZE },
                    },
                    mark_color: Rgba { r: 100, g: 100, b: 100, a: 100 },
                    mark_width: HANDLE_STROKE_WIDTH,
                }
            },
        }
    }

    /// The mouse cursor to show: resize over either handle, grab or grabbing
    /// over the body, a crosshair while no selection exists, idle otherwise.
    pub fn mouse_interaction(&self, state: &State, bounds: Rect, cursor: Option<Point>) -> (r:
        Interaction)
        requires
            self.wf(),
            state.wf(*self),
            bounds.wf(),
            cursor matches Some(p) ==> p.wide_wf(),
        ensures
            r == spec_crop_interaction(*self, *state, bounds, cursor),
    {
        let cp = match logical_cursor(cursor, bounds, self.crop_bounds) {
            Some(cp) => cp,
            None => {
                return Interaction::Idle;
            },
        };
        let rec = match state.crop_rectangle {
            Some(rec) => rec,
            None => {
                return Interaction::Crosshair;
            },
        };
        if state.tl_handle.contains(cp) {
            Interaction::Resizing
        } else if state.br_handle.contains(cp) {
            Interaction::Resizing
        } else if rec.contains(cp) && state.action.is_none() {
            Interaction::Grab
        } else if rec.contains(cp) && state.action.is_some() {
            Interaction::Grabbing
        } else {
            Interaction::Idle
        }
    }
}

/// The cursor feedback of one frame, mirrored exactly by
/// `CropTool::mouse_interaction`.
pub open spec fn spec_crop_interaction(
    t: CropTool,
    s: State,
    bounds: Rect,
    cursor: Option<Point>,
) -> Interaction {
    match spec_logical_cursor(cursor, bounds, t.crop_bounds) {
        None => Interaction::Idle,
        Some(cp) => match s.crop_rectangle {
            None => Interaction::Crosshair,
            Some(rec) => if s.tl_handle.spec_contains(cp) || s.br_handle.spec_contains(cp) {
                Interaction::Resizing
            } else if rec.spec_contains(cp) && s.action is None {
                Interaction::Grab
            } else if rec.spec_contains(cp) && s.action is Some {
                Interaction::Grabbing
            } else {
                Interaction::Idle
            },
        },
    }
}

} // verus!

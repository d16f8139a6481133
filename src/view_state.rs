//! The view state: canvas geometry, the control square centred in the
//! canvas, and the pointer. Each event yields a new snapshot.
use crate::transform::ControlRect;
use vstd::prelude::*;

verus! {

/// Control-square coordinates are held in twentieths of a pixel: the square
/// of side `0.9 * min(height, width)` centred in the canvas then has exact
/// edges.
pub const SUBPIXELS: i64 = 20;

/// Inset, in pixels, of the surface's drawing area within the control square.
pub const GRAPH_MARGIN: i64 = 20;

/// The shorter of the canvas's two sides.
pub open spec fn min_side(height: int, width: int) -> int {
    if height <= width {
        height
    } else {
        width
    }
}

/// Lower edge, in twentieths of a pixel, of a span of `0.9 * side` pixels
/// centred in a span of `extent` pixels: `20 * (extent/2 - 0.45 * side)`.
pub open spec fn centred_low(extent: int, side: int) -> int {
    10 * extent - 9 * side
}

/// Upper edge, in twentieths of a pixel, of that centred span:
/// `20 * (extent/2 + 0.45 * side)`.
pub open spec fn centred_high(extent: int, side: int) -> int {
    10 * extent + 9 * side
}

/// The pointer's height in the bottom-up convention of the canvas.
pub open spec fn flipped_y(canvas_height: int, y: int) -> int {
    canvas_height - y
}

/// How a pointer move turns the surface: the rotation about the X axis
/// grows by `π * about_x_axis / per_width` radians, the one about the
/// Y axis by `π * about_y_axis / per_width` radians.
#[derive(Clone, Copy, Debug, PartialEq, Eq, Structural)]
pub struct RotationStep {
    pub about_x_axis: i64,
    pub about_y_axis: i64,
    pub per_width: u32,
}

/// Snapshot of the view: canvas size in pixels, the control square in
/// twentieths of a pixel, and the pointer, whose position is in pixels
/// with the Y axis pointing up.
#[derive(Clone, Copy, Debug, PartialEq, Eq, Structural)]
pub struct AppState {
    pub canvas_height: u32,
    pub canvas_width: u32,
    pub control_top: i64,
    pub control_bottom: i64,
    pub control_left: i64,
    pub control_right: i64,
    pub mouse_down: bool,
    pub mouse_x: i64,
    pub mouse_y: i64,
}

impl AppState {
    /// The control square is centred in the canvas, and the pointer lies
    /// where a pointer event can have put it.
    pub open spec fn wf(&self) -> bool {
        let side = min_side(self.canvas_height as int, self.canvas_width as int);
        &&& self.control_bottom == centred_low(self.canvas_height as int, side)
        &&& self.control_top == centred_high(self.canvas_height as int, side)
        &&& self.control_left == centred_low(self.canvas_width as int, side)
        &&& self.control_right == centred_high(self.canvas_width as int, side)
        &&& i32::MIN <= self.mouse_x <= i32::MAX
        &&& flipped_y(0, i32::MAX as int) <= self.mouse_y <= flipped_y(
            u32::MAX as int,
            i32::MIN as int,
        )
    }

    /// The state at start-up: no canvas yet, pointer released at the origin.
    pub fn new() -> (s: AppState)
        ensures
            s.wf(),
            s == (AppState {
                canvas_height: 0,
                canvas_width: 0,
                control_top: 0,
                control_bottom: 0,
                control_left: 0,
                control_right: 0,
                mouse_down: false,
                mouse_x: 0,
                mouse_y: 0,
            }),
    {
        AppState {
            canvas_height: 0,
            canvas_width: 0,
            control_top: 0,
            control_bottom: 0,
            control_left: 0,
            control_right: 0,
            mouse_down: false,
            mouse_x: 0,
            mouse_y: 0,
        }
    }

    /// The area the surface is drawn in: the control square shrunk by
    /// `GRAPH_MARGIN` pixels on every side, in twentieths of a pixel.
    pub fn graph_area(&self) -> (r: ControlRect)
        requires
            self.wf(),
        ensures
            r.bottom == self.control_bottom + GRAPH_MARGIN * SUBPIXELS,
            r.top == self.control_top - GRAPH_MARGIN * SUBPIXELS,
            r.left == self.control_left + GRAPH_MARGIN * SUBPIXELS,
            r.right == self.control_right - GRAPH_MARGIN * SUBPIXELS,
    {
        let inset: i64 = GRAPH_MARGIN * SUBPIXELS;
        ControlRect {
            bottom: self.control_bottom + inset,
            top: self.control_top - inset,
            left: self.control_left + inset,
            right: self.control_right - inset,
        }
    }
}

/// The state after the canvas took the size `canvas_height` by
/// `canvas_width` pixels: the control square is centred anew, with side
/// `0.9 * min(canvas_height, canvas_width)`; the pointer is kept.
pub fn update_dynamic_data(state: &AppState, canvas_height: u32, canvas_width: u32) -> (r: AppState)
    ensures
        state.wf() ==> r.wf(),
        r == (AppState {
            canvas_height,
            canvas_width,
            control_bottom: centred_low(
                canvas_height as int,
                min_side(canvas_height as int, canvas_width as int),
            ) as i64,
            control_top: centred_high(
                canvas_height as int,
                min_side(canvas_height as int, canvas_width as int),
            ) as i64,
            control_left: centred_low(
                canvas_width as int,
                min_side(canvas_height as int, canvas_width as int),
            ) as i64,
            control_right: centred_high(
                canvas_width as int,
                min_side(canvas_height as int, canvas_width as int),
            ) as i64,
            ..*state
        }),
{
    let side: i64 = if canvas_height <= canvas_width {
        canvas_height as i64
    } else {
        canvas_width as i64
    };
    let height: i64 = canvas_height as i64;
    let width: i64 = canvas_width as i64;
    AppState {
        canvas_height,
        canvas_width,
        control_bottom: 10 * height - 9 * side,
        control_top: 10 * height + 9 * side,
        control_left: 10 * width - 9 * side,
        control_right: 10 * width + 9 * side,
        ..*state
    }
}

/// The state after the pointer was pressed (`mouse_down`) or released at
/// `(x, y)`, given with the Y axis pointing down.
pub fn update_mouse_down(state: &AppState, x: i32, y: i32, mouse_down: bool) -> (r: AppState)
    ensures
        state.wf() ==> r.wf(),
        r == (AppState {
            mouse_down,
            mouse_x: x as i64,
            mouse_y: flipped_y(state.canvas_height as int, y as int) as i64,
            ..*state
        }),
{
    AppState {
        mouse_down,
        mouse_x: x as i64,
        mouse_y: state.canvas_height as i64 - y as i64,
        ..*state
    }
}

/// The state after the pointer moved to `(x, y)`, given with the Y axis
/// pointing down, and how the move turns the surface.
///
/// While the pointer is pressed, a move of `dx` pixels to the right and
/// `dy` pixels up turns the surface by `π * dy / canvas_width` about the
/// X axis and by `-π * dx / canvas_width` about the Y axis. A released
/// pointer turns nothing, and neither does a canvas without width.
pub fn update_mouse_position(state: &AppState, x: i32, y: i32) -> (r: (AppState, Option<RotationStep>))
    requires
        state.wf(),
    ensures
        r.0.wf(),
        !state.mouse_down ==> r.1 is None,
        r.0 == (AppState {
            mouse_x: x as i64,
            mouse_y: flipped_y(state.canvas_height as int, y as int) as i64,
            ..*state
        }),
        r.1 == if state.mouse_down && state.canvas_width > 0 {
            Some(
                RotationStep {
                    about_x_axis: (flipped_y(state.canvas_height as int, y as int)
                        - state.mouse_y) as i64,
                    about_y_axis: (state.mouse_x - x) as i64,
                    per_width: state.canvas_width,
                },
            )
        } else {
            None
        },
{
    let mouse_y: i64 = state.canvas_height as i64 - y as i64;
    let delta_x: i64 = x as i64 - state.mouse_x;
    let delta_y: i64 = mouse_y - state.mouse_y;
    let step = if state.mouse_down && state.canvas_width > 0 {
        Some(RotationStep { about_x_axis: delta_y, about_y_axis: -delta_x, per_width: state.canvas_width })
    } else {
        None
    };
    (AppState { mouse_x: x as i64, mouse_y, ..*state }, step)
}

} // verus!

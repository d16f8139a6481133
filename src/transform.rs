//! Exact parameters of the model-to-clip transform of the surface.
//!
//! The transform places the surface, a square over `[-1, 1]²`, in a
//! rectangle of the canvas: it scales X and Y by the rectangle's share of
//! the canvas height and moves the scaled square so that it lies over the
//! rectangle in clip coordinates. The rotations and the perspective are
//! applied around these parameters by the renderer.
use crate::view_state::SUBPIXELS;
use vstd::prelude::*;

verus! {

/// An axis-aligned rectangle of the canvas, in twentieths of a pixel, with
/// the Y axis pointing up.
#[derive(Clone, Copy, Debug, PartialEq, Eq, Structural)]
pub struct ControlRect {
    pub bottom: i64,
    pub top: i64,
    pub left: i64,
    pub right: i64,
}

/// The fraction `num / den`.
#[derive(Clone, Copy, Debug, PartialEq, Eq, Structural)]
pub struct Ratio {
    pub num: i128,
    pub den: i128,
}

/// Aspect ratio, common X/Y scale and translation of the surface, each an
/// exact fraction.
#[derive(Clone, Copy, Debug, PartialEq, Eq, Structural)]
pub struct TransformParams {
    pub aspect_ratio: Ratio,
    pub scale: Ratio,
    pub translate_x: Ratio,
    pub translate_y: Ratio,
}

/// Numerator, over `SUBPIXELS * extent`, of the clip-space translation that
/// moves the square over the span `[low, high]` of a canvas side of
/// `extent` pixels (span edges in twentieths of a pixel):
/// `-1 + (high - low) / (20 extent) + 2 low / (20 extent)`.
pub open spec fn translate_num(low: int, high: int, extent: int) -> int {
    high + low - SUBPIXELS * extent
}

/// The parameters for the rectangle `area` of a canvas of
/// `canvas_height` by `canvas_width` pixels. The scale is the rectangle's
/// height over the canvas height, used for both X and Y so that the
/// surface keeps its proportions.
pub open spec fn params_of(area: ControlRect, canvas_height: int, canvas_width: int) -> TransformParams {
    TransformParams {
        aspect_ratio: Ratio { num: canvas_width as i128, den: canvas_height as i128 },
        scale: Ratio {
            num: (area.top - area.bottom) as i128,
            den: (SUBPIXELS * canvas_height) as i128,
        },
        translate_x: Ratio {
            num: translate_num(area.left as int, area.right as int, canvas_width) as i128,
            den: (SUBPIXELS * canvas_width) as i128,
        },
        translate_y: Ratio {
            num: translate_num(area.bottom as int, area.top as int, canvas_height) as i128,
            den: (SUBPIXELS * canvas_height) as i128,
        },
    }
}

/// The transform parameters for drawing the surface in `area`. A canvas
/// without height or width has none: every ratio would divide by zero, and
/// the frame is to be skipped.
pub fn transform_params(area: &ControlRect, canvas_height: u32, canvas_width: u32) -> (r: Option<
    TransformParams,
>)
    ensures
        r is None <==> (canvas_height == 0 || canvas_width == 0),
        r is Some ==> r->0 == params_of(*area, canvas_height as int, canvas_width as int),
{
    if canvas_height == 0 || canvas_width == 0 {
        return None;
    }
    let height: i128 = canvas_height as i128;
    let width: i128 = canvas_width as i128;
    let sub: i128 = SUBPIXELS as i128;
    let bottom: i128 = area.bottom as i128;
    let top: i128 = area.top as i128;
    let left: i128 = area.left as i128;
    let right: i128 = area.right as i128;
    Some(
        TransformParams {
            aspect_ratio: Ratio { num: width, den: height },
            scale: Ratio { num: top - bottom, den: sub * height },
            translate_x: Ratio { num: right + left - sub * width, den: sub * width },
            translate_y: Ratio { num: top + bottom - sub * height, den: sub * height },
        },
    )
}

/// How a flat unit square, corners `(0, 0)` and `(1, 1)`, is scaled and
/// then moved to cover a rectangle of the canvas in clip coordinates.
#[derive(Clone, Copy, Debug, PartialEq, Eq, Structural)]
pub struct RectPlacement {
    pub scale_x: Ratio,
    pub scale_y: Ratio,
    pub translate_x: Ratio,
    pub translate_y: Ratio,
}

/// The placement of the unit square over `area` on a canvas of
/// `canvas_height` by `canvas_width` pixels: clip space spans 2 over each
/// canvas side, so the square is scaled by `2 (right - left) / width` and
/// `2 (top - bottom) / height`, and moved to `2 left / width - 1`,
/// `2 bottom / height - 1` (edges in twentieths of a pixel).
pub open spec fn placement_of(area: ControlRect, canvas_height: int, canvas_width: int) -> RectPlacement {
    RectPlacement {
        scale_x: Ratio {
            num: (2 * (area.right - area.left)) as i128,
            den: (SUBPIXELS * canvas_width) as i128,
        },
        scale_y: Ratio {
            num: (2 * (area.top - area.bottom)) as i128,
            den: (SUBPIXELS * canvas_height) as i128,
        },
        translate_x: Ratio {
            num: (2 * area.left - SUBPIXELS * canvas_width) as i128,
            den: (SUBPIXELS * canvas_width) as i128,
        },
        translate_y: Ratio {
            num: (2 * area.bottom - SUBPIXELS * canvas_height) as i128,
            den: (SUBPIXELS * canvas_height) as i128,
        },
    }
}

/// The placement of a flat rectangle drawn over `area`; none on a canvas
/// without height or width.
pub fn rect_placement(area: &ControlRect, canvas_height: u32, canvas_width: u32) -> (r: Option<
    RectPlacement,
>)
    ensures
        r is None <==> (canvas_height == 0 || canvas_width == 0),
        r is Some ==> r->0 == placement_of(*area, canvas_height as int, canvas_width as int),
{
    if canvas_height == 0 || canvas_width == 0 {
        return None;
    }
    let sub: i128 = SUBPIXELS as i128;
    let height: i128 = sub * canvas_height as i128;
    let width: i128 = sub * canvas_width as i128;
    let bottom: i128 = area.bottom as i128;
    let top: i128 = area.top as i128;
    let left: i128 = area.left as i128;
    let right: i128 = area.right as i128;
    Some(
        RectPlacement {
            scale_x: Ratio { num: 2 * (right - left), den: width },
            scale_y: Ratio { num: 2 * (top - bottom), den: height },
            translate_x: Ratio { num: 2 * left - width, den: width },
            translate_y: Ratio { num: 2 * bottom - height, den: height },
        },
    )
}

/// Over the whole canvas the surface is drawn unscaled and centred: the
/// scale is one and both translations are zero, so the model origin goes
/// to the clip-space origin before depth and perspective.
pub proof fn lemma_full_canvas_is_centred(canvas_height: u32, canvas_width: u32)
    requires
        canvas_height > 0,
        canvas_width > 0,
    ensures
        ({
            let area = ControlRect {
                bottom: 0,
                top: (SUBPIXELS * canvas_height) as i64,
                left: 0,
                right: (SUBPIXELS * canvas_width) as i64,
            };
            let p = params_of(area, canvas_height as int, canvas_width as int);
            &&& p.scale.num == p.scale.den
            &&& p.scale.den > 0
            &&& p.translate_x.num == 0
            &&& p.translate_y.num == 0
        }),
{
}

} // verus!

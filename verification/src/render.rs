//! The render entry point's verified half: validate a request, expand the
//! selected definition, check the turtle operation stream, and parse the
//! gradient colors.  The resulting plan holds everything the embedding
//! needs to drive the surface; the floating-point drawing itself happens
//! there, one operation at a time.

use vstd::prelude::*;
use crate::catalog;
use crate::color;
use crate::color::Rgb;
use crate::errors::RenderError;
use crate::expansion;
use crate::lsystem::LSystemImpl;
use crate::turtle;
use crate::turtle::TurtleOp;

verus! {

/// Effective drawing scale for a surface of the given size: narrow
/// surfaces (width under 600) use twice the height so the rendering does
/// not come out too small.
pub fn effective_scale(width: u32, height: u32) -> (scale: u64)
    ensures
        scale == if width < 600 {
            2 * (height as int)
        } else {
            width as int
        },
{
    if width < 600 {
        2 * (height as u64)
    } else {
        width as u64
    }
}

/// Everything a surface needs to draw one validated render request.
#[derive(Debug)]
pub struct RenderPlan {
    /// The turtle operations of the expanded sequence, in order.
    pub ops: Vec<TurtleOp>,
    /// Turning angle per turn step, in tenths of a degree.
    pub angle_tenth_degrees: u32,
    /// Pre-rotation of the drawing, in microradians.
    pub initial_angle_urad: i64,
    /// Stroke-length factor, in parts per million of the effective scale.
    pub length_ppm: i64,
    /// Vertical origin, in parts per million of the surface height.
    pub height_ppm: i64,
    /// Horizontal origin, in parts per million of the surface width.
    pub width_ppm: i64,
    /// The validated iteration count of the request.
    pub iterations: u32,
    /// Parsed gradient endpoint colors.
    pub color_start: Rgb,
    pub color_end: Rgb,
}

/// Why a render request fails, if it does: an unknown identifier first,
/// then an iteration count above the entry's ceiling, then a sequence
/// that breaks the stack discipline, then an unparseable color.
pub open spec fn render_failure(
    fractal_type: u32,
    iterations: u32,
    color_start: Seq<char>,
    color_end: Seq<char>,
) -> Option<RenderError> {
    let sys = catalog::catalog_view(fractal_type as int);
    if !(1 <= fractal_type <= 17) {
        Some(RenderError::UnknownFractal)
    } else if iterations > sys.max_rounds {
        Some(RenderError::IterationLimitExceeded)
    } else if !turtle::well_bracketed(
        turtle::ops_of(expansion::expansion(sys, iterations as nat)),
    ) {
        Some(RenderError::MalformedSequence)
    } else if !color::is_valid_color(color_start) || !color::is_valid_color(color_end) {
        Some(RenderError::InvalidColor)
    } else {
        None
    }
}

/// Validate a render request and compute its drawing plan.  Succeeds
/// exactly when the request names a catalog entry, stays within its
/// iteration ceiling, expands to a well-bracketed sequence and carries
/// two valid colors; the plan then holds that entry's operation stream,
/// placement data and parsed colors.
pub fn prepare_render(
    fractal_type: u32,
    iterations: u32,
    color_start: &str,
    color_end: &str,
) -> (r: Result<RenderPlan, RenderError>)
    ensures
        r is Ok <==> render_failure(fractal_type, iterations, color_start@, color_end@) is None,
        r is Err ==> Some(r->Err_0) == render_failure(
            fractal_type,
            iterations,
            color_start@,
            color_end@,
        ),
        r is Ok ==> ({
            let sys = catalog::catalog_view(fractal_type as int);
            let plan = r->Ok_0;
            &&& plan.ops@ == turtle::ops_of(expansion::expansion(sys, iterations as nat))
            &&& turtle::well_bracketed(plan.ops@)
            &&& plan.angle_tenth_degrees as int == sys.angle_tenth_degrees
            &&& plan.initial_angle_urad == sys.canvas.initial_angle_urad
            &&& plan.length_ppm == sys.canvas.length_ppm
            &&& plan.height_ppm == sys.canvas.height_ppm
            &&& plan.width_ppm == sys.canvas.width_ppm
            &&& plan.iterations == iterations
            &&& plan.color_start == color::color_of(color_start@)
            &&& plan.color_end == color::color_of(color_end@)
        }),
{
    let system = match LSystemImpl::new(fractal_type) {
        Ok(system) => system,
        Err(e) => {
            return Err(e);
        },
    };
    let sequence = match system.expand(iterations) {
        Ok(sequence) => sequence,
        Err(e) => {
            return Err(e);
        },
    };
    let ops = match turtle::interpret(&sequence) {
        Ok(ops) => ops,
        Err(e) => {
            return Err(e);
        },
    };
    let start = match color::parse_hex_color(color_start) {
        Ok(c) => c,
        Err(e) => {
            return Err(e);
        },
    };
    let end = match color::parse_hex_color(color_end) {
        Ok(c) => c,
        Err(e) => {
            return Err(e);
        },
    };
    let scaling = system.get_canvas_scaling();
    Ok(
        RenderPlan {
            ops,
            angle_tenth_degrees: system.get_angle(),
            initial_angle_urad: scaling.initial_angle_urad,
            length_ppm: scaling.length_ppm,
            height_ppm: scaling.height_ppm,
            width_ppm: scaling.width_ppm,
            iterations,
            color_start: start,
            color_end: end,
        },
    )
}

} // verus!

//! L-system definitions: rewrite rules, view-scaling data, and the
//! per-definition handle that the render entry point works with.

use vstd::prelude::*;
use crate::catalog;
use crate::errors::RenderError;
use crate::expansion;
use crate::expansion::LSystemView;

verus! {

/// One rewrite rule: the symbol it fires on and its replacement sequence.
pub struct Rule {
    pub symbol: char,
    pub replacement: Vec<char>,
}

/// How a drawing is placed and sized on a surface.  All values are plain
/// integers in fixed units so that the placement data can be reasoned
/// about; the embedding divides them back out when it drives the surface.
pub struct CanvasScaling {
    /// Rotation applied before drawing starts, in microradians.
    pub initial_angle_urad: i64,
    /// Stroke-length factor, in parts per million of the effective scale.
    pub length_ppm: i64,
    /// Vertical origin, in parts per million of the surface height.
    pub height_ppm: i64,
    /// Horizontal origin, in parts per million of the surface width.
    pub width_ppm: i64,
}

/// One L-system definition: the symbols eligible for rewriting, the seed
/// sequence, the rule table, the turning angle, the iteration ceiling and
/// the view scaling.
pub struct LSystem {
    pub variables: Vec<char>,
    pub seed: Vec<char>,
    pub rules: Vec<Rule>,
    /// Turning angle in tenths of a degree.
    pub angle_tenth_degrees: u32,
    /// Ceiling on the requested iteration count.
    pub max_rounds: u32,
    pub canvas: CanvasScaling,
}

/// The rule table as a sequence of (symbol, replacement) pairs.
pub open spec fn rules_view(rules: Seq<Rule>) -> Seq<(char, Seq<char>)> {
    Seq::new(rules.len(), |i: int| (rules[i].symbol, rules[i].replacement@))
}

impl View for LSystem {
    type V = LSystemView;

    open spec fn view(&self) -> LSystemView {
        LSystemView {
            variables: self.variables@,
            seed: self.seed@,
            rules: rules_view(self.rules@),
            angle_tenth_degrees: self.angle_tenth_degrees as int,
            max_rounds: self.max_rounds as int,
            canvas: self.canvas,
        }
    }
}

/// A selected L-system definition, ready to be expanded.
pub struct LSystemImpl(pub LSystem);

impl LSystemImpl {
    /// Select a catalog entry by its identifier.  Identifiers 1 through 17
    /// name the catalog's entries; any other identifier is rejected with
    /// `UnknownFractal`.
    pub fn new(fractal_type: u32) -> (r: Result<LSystemImpl, RenderError>)
        ensures
            r is Ok <==> 1 <= fractal_type <= 17,
            r is Ok ==> r->Ok_0.0@ == catalog::catalog_view(fractal_type as int),
            r is Err ==> r->Err_0 == RenderError::UnknownFractal,
    {
        match catalog::catalog_entry(fractal_type) {
            Ok(system) => Ok(LSystemImpl(system)),
            Err(e) => Err(e),
        }
    }

    /// Expand the definition's seed by `iterations` rounds of parallel
    /// rewriting.  Requests above the definition's ceiling are rejected
    /// with `IterationLimitExceeded`.
    pub fn expand(&self, iterations: u32) -> (r: Result<Vec<char>, RenderError>)
        ensures
            r is Ok <==> iterations <= self.0.max_rounds,
            r is Ok ==> r->Ok_0@ == expansion::expansion(self.0@, iterations as nat),
            r is Err ==> r->Err_0 == RenderError::IterationLimitExceeded,
    {
        expansion::expand_lsystem(&self.0, iterations)
    }

    /// The definition's view-scaling data.
    pub fn get_canvas_scaling(&self) -> (r: &CanvasScaling)
        ensures
            *r == self.0.canvas,
    {
        &self.0.canvas
    }

    /// The definition's turning angle, in tenths of a degree.
    pub fn get_angle(&self) -> (r: u32)
        ensures
            r == self.0.angle_tenth_degrees,
    {
        self.0.angle_tenth_degrees
    }
}

} // verus!

//! How polygons are rasterised.

use vstd::prelude::*;

verus! {

/// The way polygons are drawn.
#[derive(Clone, Copy, Debug, PartialEq, Eq, Structural)]
pub enum PolygonMode {
    /// Just show the points.
    Point,
    /// Just show the lines.
    Line,
    /// Fill in the polygons.
    Fill,
}

impl PolygonMode {
    /// The mode that follows `mode` when the user steps through them: from
    /// filled to lines, from lines to points, from points back to filled.
    pub open spec fn next(mode: PolygonMode) -> PolygonMode {
        match mode {
            PolygonMode::Point => PolygonMode::Fill,
            PolygonMode::Line => PolygonMode::Point,
            PolygonMode::Fill => PolygonMode::Line,
        }
    }

    /// Steps to the next mode.
    pub fn turn(mode: PolygonMode) -> (turned: PolygonMode)
        ensures
            turned == PolygonMode::next(mode),
    {
        match mode {
            PolygonMode::Point => PolygonMode::Fill,
            PolygonMode::Line => PolygonMode::Point,
            PolygonMode::Fill => PolygonMode::Line,
        }
    }
}

} // verus!

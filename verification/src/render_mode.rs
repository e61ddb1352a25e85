use vstd::prelude::*;

verus! {

/// How the pipeline rasterises triangles.
#[derive(Clone, Copy, Debug, PartialEq, Eq, Structural)]
pub enum PolygonMode {
    Fill,
    Line,
    Point,
}

/// The mode that follows `mode` when the user asks for the next one:
/// filled, then wireframe, then points, then filled again.
pub open spec fn spec_next_render_mode(mode: PolygonMode) -> PolygonMode {
    match mode {
        PolygonMode::Fill => PolygonMode::Line,
        PolygonMode::Line => PolygonMode::Point,
        PolygonMode::Point => PolygonMode::Fill,
    }
}

/// The polygon mode to switch to from `mode`.
pub fn next_render_mode(mode: PolygonMode) -> (next: PolygonMode)
    ensures
        next == spec_next_render_mode(mode),
{
    if mode == PolygonMode::Fill {
        PolygonMode::Line
    } else if mode == PolygonMode::Line {
        PolygonMode::Point
    } else {
        PolygonMode::Fill
    }
}

/// Switching always changes the mode, and three switches bring back the mode
/// one started from, so every mode is reached from every other.
pub proof fn lemma_render_modes_cycle(mode: PolygonMode)
    ensures
        spec_next_render_mode(mode) != mode,
        spec_next_render_mode(spec_next_render_mode(mode)) != mode,
        spec_next_render_mode(spec_next_render_mode(spec_next_render_mode(mode))) == mode,
{
}

} // verus!

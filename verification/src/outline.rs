//! The outline of a glyph as a font describes it: paths, each with the
//! offset where the pen is put down and the strokes that it then draws.

use vstd::prelude::*;

verus! {

/// A pair of coordinates as the font gives them: the bit patterns of two
/// binary32 numbers, in the units of the font.
#[derive(Clone, Copy, Debug, PartialEq, Eq, Structural)]
pub struct Offset(pub u32, pub u32);

/// One stroke of the pen: where it goes, and for a curve the control
/// points that bend the way there.
#[derive(Clone, Copy, Debug, PartialEq, Eq, Structural)]
pub enum Stroke {
    /// A line to the offset.
    Linear(Offset),
    /// A quadratic Bezier curve: the control point, then the target.
    Quadratic(Offset, Offset),
    /// A cubic Bezier curve: the two control points, then the target.
    Cubic(Offset, Offset, Offset),
}

impl Stroke {
    /// The offset where the stroke ends.
    pub open spec fn spec_target(&self) -> Offset {
        match *self {
            Stroke::Linear(target) => target,
            Stroke::Quadratic(_, target) => target,
            Stroke::Cubic(_, _, target) => target,
        }
    }

    /// The offset where the stroke ends.
    #[verifier::when_used_as_spec(spec_target)]
    pub fn target(&self) -> (target: Offset)
        ensures
            target == self.spec_target(),
    {
        match self {
            Stroke::Linear(target) => *target,
            Stroke::Quadratic(_, target) => *target,
            Stroke::Cubic(_, _, target) => *target,
        }
    }
}

/// One path of an outline.
#[derive(Debug, PartialEq, Eq)]
pub struct Path {
    /// Where the path begins.
    pub offset: Offset,
    /// What is drawn from there, in order.
    pub strokes: Vec<Stroke>,
}

/// What a [`Path`] holds.
pub struct PathView {
    pub offset: Offset,
    pub strokes: Seq<Stroke>,
}

impl View for Path {
    type V = PathView;

    open spec fn view(&self) -> PathView {
        PathView { offset: self.offset, strokes: self.strokes@ }
    }
}

/// What a sequence of paths holds.
pub open spec fn paths_view(paths: Seq<Path>) -> Seq<PathView> {
    paths.map_values(|path: Path| path@)
}

/// The paths of one glyph, in the order of the font.
#[derive(Debug, PartialEq, Eq)]
pub struct Outline {
    pub paths: Vec<Path>,
}

impl View for Outline {
    type V = Seq<PathView>;

    open spec fn view(&self) -> Seq<PathView> {
        paths_view(self.paths@)
    }
}

} // verus!

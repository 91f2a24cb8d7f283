//! The shape of a glyph: contours made of coloured edges.
//!
//! A shape is passive data. It is built edge by edge and contour by contour
//! and then handed to whoever renders it or measures distances on it.

use vstd::prelude::*;

verus! {

/// A point of the plane. Each coordinate is the bit pattern of a binary64
/// number, in the units of the font.
#[derive(Clone, Copy, Debug, PartialEq, Eq, Structural)]
pub struct Point2 {
    pub x: u64,
    pub y: u64,
}

impl Point2 {
    /// The point with the given coordinates.
    pub fn new(x: u64, y: u64) -> (point: Self)
        ensures
            point == (Point2 { x, y }),
    {
        Point2 { x, y }
    }
}

/// The channels that an edge contributes to in a multi-channel distance
/// field. `White` stands for all of them and is what an edge has before any
/// colouring pass has run.
#[derive(Clone, Copy, Debug, PartialEq, Eq, Structural)]
pub enum EdgeColor {
    Black,
    Red,
    Green,
    Yellow,
    Blue,
    Magenta,
    Cyan,
    White,
}

impl Default for EdgeColor {
    fn default() -> (color: Self)
        ensures
            color == EdgeColor::White,
    {
        EdgeColor::White
    }
}

/// One curve of a contour, with its colour: a line, a quadratic Bezier curve
/// with one control point, or a cubic Bezier curve with two.
#[derive(Clone, Copy, Debug, PartialEq, Eq, Structural)]
pub enum EdgeHolder {
    Linear { start: Point2, end: Point2, color: EdgeColor },
    Quadratic { start: Point2, control: Point2, end: Point2, color: EdgeColor },
    Cubic { start: Point2, control1: Point2, control2: Point2, end: Point2, color: EdgeColor },
}

impl EdgeHolder {
    /// The point where the edge begins.
    pub open spec fn spec_start(&self) -> Point2 {
        match *self {
            EdgeHolder::Linear { start, .. } => start,
            EdgeHolder::Quadratic { start, .. } => start,
            EdgeHolder::Cubic { start, .. } => start,
        }
    }

    /// The point where the edge ends.
    pub open spec fn spec_end(&self) -> Point2 {
        match *self {
            EdgeHolder::Linear { end, .. } => end,
            EdgeHolder::Quadratic { end, .. } => end,
            EdgeHolder::Cubic { end, .. } => end,
        }
    }

    /// The colour of the edge.
    pub open spec fn spec_color(&self) -> EdgeColor {
        match *self {
            EdgeHolder::Linear { color, .. } => color,
            EdgeHolder::Quadratic { color, .. } => color,
            EdgeHolder::Cubic { color, .. } => color,
        }
    }

    /// The points that define the edge, from its start to its end, control
    /// points in between.
    pub open spec fn spec_points(&self) -> Seq<Point2> {
        match *self {
            EdgeHolder::Linear { start, end, .. } => seq![start, end],
            EdgeHolder::Quadratic { start, control, end, .. } => seq![start, control, end],
            EdgeHolder::Cubic { start, control1, control2, end, .. } => seq![
                start,
                control1,
                control2,
                end,
            ],
        }
    }

    /// The line from `start` to `end`.
    pub fn new_linear(start: Point2, end: Point2, color: EdgeColor) -> (edge: Self)
        ensures
            edge == (EdgeHolder::Linear { start, end, color }),
    {
        EdgeHolder::Linear { start, end, color }
    }

    /// The quadratic curve from `start` to `end` that `control` bends.
    pub fn new_quadratic(start: Point2, control: Point2, end: Point2, color: EdgeColor) -> (edge:
        Self)
        ensures
            edge == (EdgeHolder::Quadratic { start, control, end, color }),
    {
        EdgeHolder::Quadratic { start, control, end, color }
    }

    /// The cubic curve from `start` to `end` that `control1` and `control2`
    /// bend.
    pub fn new_cubic(
        start: Point2,
        control1: Point2,
        control2: Point2,
        end: Point2,
        color: EdgeColor,
    ) -> (edge: Self)
        ensures
            edge == (EdgeHolder::Cubic { start, control1, control2, end, color }),
    {
        EdgeHolder::Cubic { start, control1, control2, end, color }
    }

    /// The point where the edge begins.
    #[verifier::when_used_as_spec(spec_start)]
    pub fn start(&self) -> (point: Point2)
        ensures
            point == self.spec_start(),
    {
        match self {
            EdgeHolder::Linear { start, .. } => *start,
            EdgeHolder::Quadratic { start, .. } => *start,
            EdgeHolder::Cubic { start, .. } => *start,
        }
    }

    /// The point where the edge ends.
    #[verifier::when_used_as_spec(spec_end)]
    pub fn end(&self) -> (point: Point2)
        ensures
            point == self.spec_end(),
    {
        match self {
            EdgeHolder::Linear { end, .. } => *end,
            EdgeHolder::Quadratic { end, .. } => *end,
            EdgeHolder::Cubic { end, .. } => *end,
        }
    }

    /// The colour of the edge.
    #[verifier::when_used_as_spec(spec_color)]
    pub fn color(&self) -> (color: EdgeColor)
        ensures
            color == self.spec_color(),
    {
        match self {
            EdgeHolder::Linear { color, .. } => *color,
            EdgeHolder::Quadratic { color, .. } => *color,
            EdgeHolder::Cubic { color, .. } => *color,
        }
    }

    /// The points that define the edge, from its start to its end, control
    /// points in between: two for a line, three for a quadratic curve, four
    /// for a cubic one.
    pub fn points(&self) -> (points: Vec<Point2>)
        ensures
            points@ == self.spec_points(),
    {
        let mut points: Vec<Point2> = Vec::new();
        match self {
            EdgeHolder::Linear { start, end, .. } => {
                points.push(*start);
                points.push(*end);
            },
            EdgeHolder::Quadratic { start, control, end, .. } => {
                points.push(*start);
                points.push(*control);
                points.push(*end);
            },
            EdgeHolder::Cubic { start, control1, control2, end, .. } => {
                points.push(*start);
                points.push(*control1);
                points.push(*control2);
                points.push(*end);
            },
        }
        assert(points@ =~= self.spec_points());
        points
    }
}

/// Whether each edge but the first begins where the edge before it ends.
pub open spec fn is_chained(edges: Seq<EdgeHolder>) -> bool {
    forall|j: int| 0 < j < edges.len() ==> (#[trigger] edges[j]).start() == edges[j - 1].end()
}

/// Whether the last edge ends where the first one begins.
pub open spec fn is_closed(edges: Seq<EdgeHolder>) -> bool {
    edges.len() > 0 ==> edges.last().end() == edges.first().start()
}

/// Whether every edge has the colour that stands for no choice made.
pub open spec fn is_uncoloured(edges: Seq<EdgeHolder>) -> bool {
    forall|j: int| 0 <= j < edges.len() ==> (#[trigger] edges[j]).color() == EdgeColor::White
}

/// Whether `contours` are what tracing an outline leaves: at least one
/// contour, in each at least one edge, each edge but the first of its contour
/// beginning where the one before it ends, and no edge coloured yet.
pub open spec fn is_traced(contours: Seq<Seq<EdgeHolder>>) -> bool {
    &&& contours.len() > 0
    &&& forall|k: int|
        0 <= k < contours.len() ==> {
            &&& (#[trigger] contours[k]).len() > 0
            &&& is_chained(contours[k])
            &&& is_uncoloured(contours[k])
        }
}

/// One loop of an outline: edges in the order in which they are drawn.
#[derive(Debug, PartialEq, Eq)]
pub struct ShapeContour {
    pub edges: Vec<EdgeHolder>,
}

impl View for ShapeContour {
    type V = Seq<EdgeHolder>;

    open spec fn view(&self) -> Seq<EdgeHolder> {
        self.edges@
    }
}

impl ShapeContour {
    /// The contour without edges.
    pub fn new() -> (contour: Self)
        ensures
            contour@ == Seq::<EdgeHolder>::empty(),
    {
        ShapeContour { edges: Vec::new() }
    }

    /// Appends `edge` to the contour.
    pub fn add_edge(&mut self, edge: &EdgeHolder)
        ensures
            final(self)@ == old(self)@.push(*edge),
    {
        self.edges.push(*edge);
    }

    /// The number of edges.
    pub fn len(&self) -> (count: usize)
        ensures
            count == self@.len(),
    {
        self.edges.len()
    }
}

/// The outline of one glyph: contours in the order in which the font gives
/// them.
#[derive(Debug, PartialEq, Eq)]
pub struct Shape {
    pub contours: Vec<ShapeContour>,
}

impl View for Shape {
    type V = Seq<Seq<EdgeHolder>>;

    open spec fn view(&self) -> Seq<Seq<EdgeHolder>> {
        self.contours@.map_values(|contour: ShapeContour| contour@)
    }
}

impl Default for Shape {
    fn default() -> (shape: Self)
        ensures
            shape@ == Seq::<Seq<EdgeHolder>>::empty(),
    {
        let shape = Shape { contours: Vec::new() };
        assert(shape@ =~= Seq::<Seq<EdgeHolder>>::empty());
        shape
    }
}

impl Shape {
    /// Appends `contour` to the shape.
    pub fn add_contour(&mut self, contour: ShapeContour)
        ensures
            final(self)@ == old(self)@.push(contour@),
    {
        self.contours.push(contour);
        assert(self@ =~= old(self)@.push(contour@));
    }

    /// The number of contours.
    pub fn len(&self) -> (count: usize)
        ensures
            count == self@.len(),
    {
        self.contours.len()
    }
}

} // verus!

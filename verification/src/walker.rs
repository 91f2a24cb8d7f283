//! From the outline of a glyph to its shape.
//!
//! Each path with at least one stroke becomes a contour, and each of its
//! strokes an edge that begins where the edge before it ended; the first
//! begins at the offset of the path. A path without strokes draws nothing
//! and leaves no contour, so that a shape never holds an empty one. An
//! outline that draws nothing at all has no shape.

use crate::binary::{widen, widened};
use crate::outline::{Offset, Outline, Path, PathView, Stroke};
use crate::shape::{
    is_chained, is_closed, is_traced, is_uncoloured, ShapeContour, EdgeColor, EdgeHolder, Point2, Shape,
};
use vstd::prelude::*;

verus! {

/// The point that an offset of the font stands for: the same coordinates,
/// widened.
pub open spec fn widened_point(offset: Offset) -> Point2 {
    Point2 { x: widened(offset.0), y: widened(offset.1) }
}

/// The edge that `stroke` draws when the pen stands at `start`.
pub open spec fn edge_of(start: Point2, stroke: Stroke) -> EdgeHolder {
    match stroke {
        Stroke::Linear(target) => EdgeHolder::Linear {
            start,
            end: widened_point(target),
            color: EdgeColor::White,
        },
        Stroke::Quadratic(control, target) => EdgeHolder::Quadratic {
            start,
            control: widened_point(control),
            end: widened_point(target),
            color: EdgeColor::White,
        },
        Stroke::Cubic(control1, control2, target) => EdgeHolder::Cubic {
            start,
            control1: widened_point(control1),
            control2: widened_point(control2),
            end: widened_point(target),
            color: EdgeColor::White,
        },
    }
}

/// Where the pen stands before it draws stroke `index` of `path`: at the
/// offset of the path, or at the target of the stroke before.
pub open spec fn cursor(path: PathView, index: int) -> Point2 {
    if index <= 0 {
        widened_point(path.offset)
    } else {
        widened_point(path.strokes[index - 1].target())
    }
}

/// The edges that `path` draws.
pub open spec fn path_edges(path: PathView) -> Seq<EdgeHolder> {
    Seq::new(path.strokes.len(), |index: int| edge_of(cursor(path, index), path.strokes[index]))
}

/// Whether `path` draws anything.
pub open spec fn has_strokes(path: PathView) -> bool {
    path.strokes.len() > 0
}

/// The contours that `outline` draws: the edges of each path that draws
/// anything, in the order of the paths.
pub open spec fn shape_of(outline: Seq<PathView>) -> Seq<Seq<EdgeHolder>> {
    outline.filter(|path: PathView| has_strokes(path)).map_values(
        |path: PathView| path_edges(path),
    )
}

/// Whether no path of `outline` draws anything.
pub open spec fn is_blank(outline: Seq<PathView>) -> bool {
    forall|index: int| 0 <= index < outline.len() ==> !has_strokes(#[trigger] outline[index])
}

/// One more path adds its contour at the end if it draws anything.
pub proof fn lemma_shape_of_push(outline: Seq<PathView>, path: PathView)
    ensures
        shape_of(outline.push(path)) == if has_strokes(path) {
            shape_of(outline).push(path_edges(path))
        } else {
            shape_of(outline)
        },
{
    reveal(Seq::filter);
    assert(outline.push(path).drop_last() =~= outline);
    if has_strokes(path) {
        assert(shape_of(outline.push(path)) =~= shape_of(outline).push(path_edges(path)));
    }
}

/// Whether `shape` is what `outline` draws: nothing if no path draws
/// anything, and else the contours of `shape_of`.
pub open spec fn is_drawing_of(shape: Option<Shape>, outline: Seq<PathView>) -> bool {
    match shape {
        Some(drawn) => !is_blank(outline) && drawn@ == shape_of(outline),
        None => is_blank(outline),
    }
}

/// Whether the pen ends where it began: a path that draws anything returns
/// to its offset with its last stroke.
pub open spec fn returns_to_start(path: PathView) -> bool {
    has_strokes(path) ==> widened_point(path.strokes.last().target()) == widened_point(
        path.offset,
    )
}

/// The point that `offset` stands for.
pub fn widen_point(offset: &Offset) -> (point: Point2)
    ensures
        point == widened_point(*offset),
{
    Point2::new(widen(offset.0), widen(offset.1))
}

/// The edge that `stroke` draws when the pen stands at `start`.
pub fn stroke_edge(start: Point2, stroke: &Stroke) -> (edge: EdgeHolder)
    ensures
        edge == edge_of(start, *stroke),
{
    match stroke {
        Stroke::Linear(target) => EdgeHolder::new_linear(
            start,
            widen_point(target),
            EdgeColor::default(),
        ),
        Stroke::Quadratic(control, target) => EdgeHolder::new_quadratic(
            start,
            widen_point(control),
            widen_point(target),
            EdgeColor::default(),
        ),
        Stroke::Cubic(control1, control2, target) => EdgeHolder::new_cubic(
            start,
            widen_point(control1),
            widen_point(control2),
            widen_point(target),
            EdgeColor::default(),
        ),
    }
}

/// The contour that `path` draws.
pub fn path_contour(path: &Path) -> (contour: ShapeContour)
    ensures
        contour@ == path_edges(path@),
{
    let mut contour = ShapeContour::new();
    let mut last_point = widen_point(&path.offset);
    let mut index: usize = 0;
    while index < path.strokes.len()
        invariant
            index <= path.strokes.len(),
            last_point == cursor(path@, index as int),
            contour@ == path_edges(path@).take(index as int),
        decreases path.strokes.len() - index,
    {
        let edge = stroke_edge(last_point, &path.strokes[index]);
        contour.add_edge(&edge);
        last_point = edge.end();
        index = index + 1;
        assert(contour@ =~= path_edges(path@).take(index as int));
    }
    assert(contour@ =~= path_edges(path@));
    contour
}

/// The shape that `outline` draws, or nothing if it draws nothing.
pub fn outline_shape(outline: &Outline) -> (shape: Option<Shape>)
    ensures
        is_drawing_of(shape, outline@),
{
    let mut shape = Shape::default();
    let mut index: usize = 0;
    while index < outline.paths.len()
        invariant
            index <= outline.paths.len(),
            shape@ == shape_of(outline@.take(index as int)),
        decreases outline.paths.len() - index,
    {
        let path = &outline.paths[index];
        proof {
            assert(outline@.take(index + 1) =~= outline@.take(index as int).push(path@));
            lemma_shape_of_push(outline@.take(index as int), path@);
        }
        if path.strokes.len() > 0 {
            shape.add_contour(path_contour(path));
        }
        index = index + 1;
    }
    proof {
        assert(outline@.take(index as int) =~= outline@);
        lemma_blank_draws_nothing(outline@);
    }
    if shape.len() > 0 {
        Some(shape)
    } else {
        None
    }
}

/// An outline draws no contour exactly if none of its paths draws
/// anything.
pub proof fn lemma_blank_draws_nothing(outline: Seq<PathView>)
    ensures
        shape_of(outline).len() == 0 <==> is_blank(outline),
    decreases outline.len(),
{
    if outline.len() == 0 {
        reveal(Seq::filter);
    } else {
        let rest = outline.drop_last();
        assert(outline =~= rest.push(outline.last()));
        lemma_shape_of_push(rest, outline.last());
        lemma_blank_draws_nothing(rest);
        if is_blank(rest) && !has_strokes(outline.last()) {
            assert forall|index: int| 0 <= index < outline.len() implies !has_strokes(
                #[trigger] outline[index],
            ) by {
                if index < rest.len() {
                    assert(outline[index] == rest[index]);
                }
            }
        }
        if is_blank(outline) {
            assert forall|index: int| 0 <= index < rest.len() implies !has_strokes(
                #[trigger] rest[index],
            ) by {
                assert(rest[index] == outline[index]);
            }
        }
    }
}

/// Each contour of a shape comes from a path of the outline that draws
/// something.
pub proof fn lemma_contour_has_path(outline: Seq<PathView>, k: int) -> (index: int)
    requires
        0 <= k < shape_of(outline).len(),
    ensures
        0 <= index < outline.len(),
        has_strokes(outline[index]),
        shape_of(outline)[k] == path_edges(outline[index]),
{
    let kept = outline.filter(|path: PathView| has_strokes(path));
    outline.lemma_filter_pred(|path: PathView| has_strokes(path), k);
    assert(kept.contains(kept[k]));
    outline.lemma_filter_contains_rev(|path: PathView| has_strokes(path), kept[k]);
    choose|index: int| 0 <= index < outline.len() && outline[index] == kept[k]
}

/// Where every path draws something, the shape has one contour for each
/// path, in the order of the paths, and each contour has one edge for each
/// stroke of its path, in the order of the strokes.
pub proof fn lemma_contour_for_each_path(outline: Seq<PathView>)
    requires
        forall|index: int| 0 <= index < outline.len() ==> has_strokes(#[trigger] outline[index]),
    ensures
        is_blank(outline) <==> outline.len() == 0,
        shape_of(outline).len() == outline.len(),
        forall|index: int|
            0 <= index < outline.len() ==> {
                &&& (#[trigger] shape_of(outline)[index]) == path_edges(outline[index])
                &&& shape_of(outline)[index].len() == outline[index].strokes.len()
            },
    decreases outline.len(),
{
    if outline.len() > 0 {
        assert(has_strokes(outline[0]));
    }
    if outline.len() == 0 {
        reveal(Seq::filter);
    } else {
        let rest = outline.drop_last();
        assert(outline =~= rest.push(outline.last()));
        assert forall|index: int| 0 <= index < rest.len() implies has_strokes(
            #[trigger] rest[index],
        ) by {
            assert(rest[index] == outline[index]);
        }
        lemma_contour_for_each_path(rest);
        lemma_shape_of_push(rest, outline.last());
        assert forall|index: int| 0 <= index < outline.len() implies (#[trigger] shape_of(
            outline,
        )[index]) == path_edges(outline[index]) by {
            if index < rest.len() {
                assert(shape_of(outline)[index] == shape_of(rest)[index]);
                assert(rest[index] == outline[index]);
            }
        }
    }
}

/// The edges of a path are chained: each but the first begins where the
/// one before it ends, and the first begins at the offset of the path. None
/// is coloured. The last one ends where the first begins exactly if the path
/// returns to its start.
pub proof fn lemma_path_edges_are_chained(path: PathView)
    ensures
        path_edges(path).len() == path.strokes.len(),
        is_chained(path_edges(path)),
        is_uncoloured(path_edges(path)),
        has_strokes(path) ==> path_edges(path).first().start() == widened_point(path.offset),
        is_closed(path_edges(path)) <==> returns_to_start(path),
{
    let edges = path_edges(path);
    assert forall|j: int| 0 < j < edges.len() implies (#[trigger] edges[j]).start() == edges[j
        - 1].end() by {
        lemma_edge_follows_stroke(path, j);
        lemma_edge_follows_stroke(path, j - 1);
    }
    assert forall|j: int| 0 <= j < edges.len() implies (#[trigger] edges[j]).color()
        == EdgeColor::White by {
        lemma_edge_follows_stroke(path, j);
    }
    if has_strokes(path) {
        lemma_edge_follows_stroke(path, 0);
        lemma_edge_follows_stroke(path, edges.len() - 1);
    }
}

/// An edge is of the kind of its stroke: a line has two points, a
/// quadratic curve three and a cubic curve four. The first is where the pen
/// stood; the others are the offsets of the stroke, widened and otherwise
/// as they were.
pub proof fn lemma_edge_follows_stroke(path: PathView, index: int)
    requires
        0 <= index < path.strokes.len(),
    ensures
        path_edges(path)[index].start() == cursor(path, index),
        path_edges(path)[index].end() == cursor(path, index + 1),
        path_edges(path)[index].color() == EdgeColor::White,
        match path.strokes[index] {
            Stroke::Linear(target) => {
                &&& path_edges(path)[index] is Linear
                &&& path_edges(path)[index].spec_points() == seq![
                    cursor(path, index),
                    widened_point(target),
                ]
            },
            Stroke::Quadratic(control, target) => {
                &&& path_edges(path)[index] is Quadratic
                &&& path_edges(path)[index].spec_points() == seq![
                    cursor(path, index),
                    widened_point(control),
                    widened_point(target),
                ]
            },
            Stroke::Cubic(control1, control2, target) => {
                &&& path_edges(path)[index] is Cubic
                &&& path_edges(path)[index].spec_points() == seq![
                    cursor(path, index),
                    widened_point(control1),
                    widened_point(control2),
                    widened_point(target),
                ]
            },
        },
{
}

/// In every contour of a shape there is an edge, each edge but the first
/// begins where the one before it ends, and none is coloured.
pub proof fn lemma_shape_is_traced(outline: Seq<PathView>)
    requires
        !is_blank(outline),
    ensures
        is_traced(shape_of(outline)),
{
    lemma_blank_draws_nothing(outline);
    let contours = shape_of(outline);
    assert forall|k: int| 0 <= k < contours.len() implies {
        &&& (#[trigger] contours[k]).len() > 0
        &&& is_chained(contours[k])
        &&& is_uncoloured(contours[k])
    } by {
        let index = lemma_contour_has_path(outline, k);
        lemma_path_edges_are_chained(outline[index]);
    }
}

/// Where every path returns to its start, every contour of the shape is
/// closed: its last edge ends where its first begins.
pub proof fn lemma_closed_paths_draw_closed_contours(outline: Seq<PathView>)
    requires
        forall|index: int|
            0 <= index < outline.len() ==> returns_to_start(#[trigger] outline[index]),
    ensures
        forall|k: int| 0 <= k < shape_of(outline).len() ==> is_closed(#[trigger] shape_of(outline)[k]),
{
    assert forall|k: int| 0 <= k < shape_of(outline).len() implies is_closed(
        #[trigger] shape_of(outline)[k],
    ) by {
        let index = lemma_contour_has_path(outline, k);
        lemma_path_edges_are_chained(outline[index]);
    }
}

/// The shape is a function of the outline: two results for one outline are
/// both nothing, or both shapes with the same contours, edges and points.
pub proof fn lemma_drawing_is_determined(
    first: Option<Shape>,
    second: Option<Shape>,
    outline: Seq<PathView>,
)
    requires
        is_drawing_of(first, outline),
        is_drawing_of(second, outline),
    ensures
        first.is_some() == second.is_some(),
        first.is_some() ==> first.unwrap()@ == second.unwrap()@,
{
}

} // verus!

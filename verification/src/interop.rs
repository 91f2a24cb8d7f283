//! Glyphs of the `font` crate: what the library takes on trust from it, and
//! the way from what a font answered to the shape of the glyph.
//!
//! The library does not ask the font itself. Asking reads the font's tape,
//! and on a malformed font it may not come back; whoever holds the font
//! asks, and hands the answer to [`drawn_shape`].

use crate::outline::{paths_view, Offset, Outline, Path, PathView, Stroke};
use crate::shape::{is_traced, Shape};
use crate::walker::{is_blank, is_drawing_of, lemma_shape_is_traced, outline_shape};
use vstd::prelude::*;

verus! {

/// A glyph of the `font` crate.
#[verifier::external_type_specification]
#[verifier::external_body]
pub struct ExGlyph(font::Glyph);

/// A contour of a glyph of the `font` crate. The library reads contours
/// through their glyph only; the type is named here because a glyph
/// dereferences to its contours.
#[verifier::external_type_specification]
#[verifier::external_body]
pub struct ExContour(font::glyph::Contour);

/// A segment of a contour of the `font` crate, named here because a contour
/// dereferences to its segments.
#[verifier::external_type_specification]
#[verifier::external_body]
pub struct ExSegment(font::glyph::Segment);

/// The error with which the `font` crate fails.
#[verifier::external_type_specification]
#[verifier::external_body]
pub struct ExError(std::io::Error);

/// What the field `contours` of a glyph holds: for each contour its field
/// `offset` and its field `segments`, each number as its bit pattern.
pub uninterp spec fn glyph_outline(glyph: font::Glyph) -> Seq<PathView>;

/// The length of the field `contours` of a glyph.
#[verifier::external_body]
fn path_count(glyph: &font::Glyph) -> (count: usize)
    ensures
        count == glyph_outline(*glyph).len(),
{
    glyph.contours.len()
}

/// The field `offset` of the contour at `path`, each `f32` by `to_bits`.
#[verifier::external_body]
fn path_offset(glyph: &font::Glyph, path: usize) -> (offset: Offset)
    requires
        path < glyph_outline(*glyph).len(),
    ensures
        offset == glyph_outline(*glyph)[path as int].offset,
{
    let start = glyph.contours[path].offset;
    Offset(start.0.to_bits(), start.1.to_bits())
}

/// The length of the field `segments` of the contour at `path`.
#[verifier::external_body]
fn stroke_count(glyph: &font::Glyph, path: usize) -> (count: usize)
    requires
        path < glyph_outline(*glyph).len(),
    ensures
        count == glyph_outline(*glyph)[path as int].strokes.len(),
{
    glyph.contours[path].segments.len()
}

/// The stroke at `index` of the contour at `path`: the same variant with
/// the same offsets in the same order, each `f32` by `to_bits`.
#[verifier::external_body]
fn stroke_at(glyph: &font::Glyph, path: usize, index: usize) -> (stroke: Stroke)
    requires
        path < glyph_outline(*glyph).len(),
        index < glyph_outline(*glyph)[path as int].strokes.len(),
    ensures
        stroke == glyph_outline(*glyph)[path as int].strokes[index as int],
{
    match glyph.contours[path].segments[index] {
        font::glyph::Segment::Linear(a) => Stroke::Linear(Offset(a.0.to_bits(), a.1.to_bits())),
        font::glyph::Segment::Quadratic(a, b) => Stroke::Quadratic(
            Offset(a.0.to_bits(), a.1.to_bits()),
            Offset(b.0.to_bits(), b.1.to_bits()),
        ),
        font::glyph::Segment::Cubic(a, b, c) => Stroke::Cubic(
            Offset(a.0.to_bits(), a.1.to_bits()),
            Offset(b.0.to_bits(), b.1.to_bits()),
            Offset(c.0.to_bits(), c.1.to_bits()),
        ),
    }
}

/// The strokes of the contour at `path`, in order.
fn read_strokes(glyph: &font::Glyph, path: usize) -> (strokes: Vec<Stroke>)
    requires
        path < glyph_outline(*glyph).len(),
    ensures
        strokes@ == glyph_outline(*glyph)[path as int].strokes,
{
    let count = stroke_count(glyph, path);
    let mut strokes: Vec<Stroke> = Vec::new();
    let mut index: usize = 0;
    while index < count
        invariant
            path < glyph_outline(*glyph).len(),
            count == glyph_outline(*glyph)[path as int].strokes.len(),
            index <= count,
            strokes@ == glyph_outline(*glyph)[path as int].strokes.take(index as int),
        decreases count - index,
    {
        strokes.push(stroke_at(glyph, path, index));
        index = index + 1;
        assert(strokes@ =~= glyph_outline(*glyph)[path as int].strokes.take(index as int));
    }
    assert(strokes@ =~= glyph_outline(*glyph)[path as int].strokes);
    strokes
}

/// The outline of a glyph: its contours as paths, in order.
pub fn read_outline(glyph: &font::Glyph) -> (outline: Outline)
    ensures
        outline@ == glyph_outline(*glyph),
{
    let count = path_count(glyph);
    let mut paths: Vec<Path> = Vec::new();
    let mut index: usize = 0;
    while index < count
        invariant
            count == glyph_outline(*glyph).len(),
            index <= count,
            paths@.len() == index,
            paths_view(paths@) == glyph_outline(*glyph).take(index as int),
        decreases count - index,
    {
        let ghost old_paths = paths@;
        let path = Path { offset: path_offset(glyph, index), strokes: read_strokes(glyph, index) };
        assert(path@ == glyph_outline(*glyph)[index as int]);
        paths.push(path);
        index = index + 1;
        assert(paths_view(paths@) =~= glyph_outline(*glyph).take(index as int)) by {
            assert(paths@.drop_last() =~= old_paths);
            assert forall|k: int| 0 <= k < index implies paths_view(paths@)[k] == glyph_outline(
                *glyph,
            )[k] by {
                if k < index - 1 {
                    assert(paths_view(old_paths)[k] == old_paths[k]@);
                }
            }
        }
    }
    let outline = Outline { paths };
    assert(outline@ =~= glyph_outline(*glyph));
    outline
}

/// What a font's answer draws. A font that fails and a font that has no
/// glyph for the character give nothing, and so does a glyph whose outline
/// draws nothing, as that of a space. Every other glyph gives the shape that
/// its outline draws.
pub open spec fn is_drawn_from(
    shape: Option<Shape>,
    drawn: Result<Option<font::Glyph>, std::io::Error>,
) -> bool {
    match drawn {
        Ok(Some(glyph)) => is_drawing_of(shape, glyph_outline(glyph)),
        _ => shape.is_none(),
    }
}

/// The shape for what a font answered when asked for a glyph.
pub fn drawn_shape(drawn: Result<Option<font::Glyph>, std::io::Error>) -> (shape: Option<Shape>)
    ensures
        is_drawn_from(shape, drawn),
        shape matches Some(traced) ==> is_traced(traced@),
{
    match drawn {
        Ok(Some(glyph)) => {
            let outline = read_outline(&glyph);
            proof {
                if !is_blank(outline@) {
                    lemma_shape_is_traced(outline@);
                }
            }
            outline_shape(&outline)
        },
        _ => None,
    }
}

/// What a font's answer draws is a function of the answer: two results for
/// one answer are both nothing, or both shapes with the same contours, edges
/// and points.
pub proof fn lemma_drawn_shape_is_determined(
    first: Option<Shape>,
    second: Option<Shape>,
    drawn: Result<Option<font::Glyph>, std::io::Error>,
)
    requires
        is_drawn_from(first, drawn),
        is_drawn_from(second, drawn),
    ensures
        first.is_some() == second.is_some(),
        first.is_some() ==> first.unwrap()@ == second.unwrap()@,
{
}

} // verus!

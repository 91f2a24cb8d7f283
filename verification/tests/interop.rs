use font_shape::interop::{drawn_shape, read_outline};
use font_shape::outline::{Offset, Outline, Path, Stroke};
use font_shape::shape::{EdgeColor, EdgeHolder, Point2};
use font_shape::walker::outline_shape;

fn bits(x: f32, y: f32) -> Offset {
    Offset(x.to_bits(), y.to_bits())
}

fn spot(x: f64, y: f64) -> Point2 {
    Point2 { x: x.to_bits(), y: y.to_bits() }
}

fn glyph_of(contours: Vec<font::glyph::Contour>) -> font::Glyph {
    font::Glyph { contours, ..Default::default() }
}

fn contour_of(offset: (f32, f32), segments: Vec<font::glyph::Segment>) -> font::glyph::Contour {
    font::glyph::Contour {
        offset: font::Offset(offset.0, offset.1),
        position: font::Offset(offset.0, offset.1),
        segments,
    }
}

fn letter_glyph() -> font::Glyph {
    glyph_of(vec![
        contour_of(
            (1.0, 2.0),
            vec![
                font::glyph::Segment::Linear(font::Offset(3.0, 4.0)),
                font::glyph::Segment::Quadratic(font::Offset(5.0, 6.0), font::Offset(7.0, 8.0)),
                font::glyph::Segment::Cubic(
                    font::Offset(9.0, 10.0),
                    font::Offset(11.0, 12.0),
                    font::Offset(13.5, -14.25),
                ),
            ],
        ),
        contour_of((20.0, 21.0), vec![font::glyph::Segment::Linear(font::Offset(22.0, 23.0))]),
    ])
}

fn ask(font: &mut font::Font, glyph: char) -> Option<font_shape::shape::Shape> {
    drawn_shape(font.glyph(glyph))
}

fn noto_sans() -> font::Font {
    let file = font::File::read(std::io::Cursor::new(notosans::REGULAR_TTF)).unwrap();
    file.fonts.into_iter().next().unwrap()
}

#[test]
fn read_outline_copies_a_glyph() {
    let outline = read_outline(&letter_glyph());
    assert_eq!(
        outline,
        Outline {
            paths: vec![
                Path {
                    offset: bits(1.0, 2.0),
                    strokes: vec![
                        Stroke::Linear(bits(3.0, 4.0)),
                        Stroke::Quadratic(bits(5.0, 6.0), bits(7.0, 8.0)),
                        Stroke::Cubic(bits(9.0, 10.0), bits(11.0, 12.0), bits(13.5, -14.25)),
                    ],
                },
                Path { offset: bits(20.0, 21.0), strokes: vec![Stroke::Linear(bits(22.0, 23.0))] },
            ],
        }
    );
}

#[test]
fn read_outline_of_a_glyph_without_contours_is_empty() {
    assert_eq!(read_outline(&glyph_of(vec![])), Outline { paths: vec![] });
    assert_eq!(read_outline(&font::Glyph::default()), Outline { paths: vec![] });
}

#[test]
fn read_outline_keeps_contours_without_segments() {
    let glyph = glyph_of(vec![contour_of((1.0, 1.0), vec![]), contour_of((2.0, 3.0), vec![])]);
    assert_eq!(
        read_outline(&glyph),
        Outline {
            paths: vec![
                Path { offset: bits(1.0, 1.0), strokes: vec![] },
                Path { offset: bits(2.0, 3.0), strokes: vec![] },
            ],
        }
    );
}

#[test]
fn drawn_shape_of_a_glyph_is_the_shape_of_its_outline() {
    let shape = drawn_shape(Ok(Some(letter_glyph()))).unwrap();
    assert_eq!(shape.len(), 2);
    assert_eq!(
        shape.contours[0].edges,
        vec![
            EdgeHolder::Linear { start: spot(1.0, 2.0), end: spot(3.0, 4.0), color: EdgeColor::White },
            EdgeHolder::Quadratic {
                start: spot(3.0, 4.0),
                control: spot(5.0, 6.0),
                end: spot(7.0, 8.0),
                color: EdgeColor::White,
            },
            EdgeHolder::Cubic {
                start: spot(7.0, 8.0),
                control1: spot(9.0, 10.0),
                control2: spot(11.0, 12.0),
                end: spot(13.5, -14.25),
                color: EdgeColor::White,
            },
        ]
    );
    assert_eq!(
        shape.contours[1].edges,
        vec![EdgeHolder::Linear {
            start: spot(20.0, 21.0),
            end: spot(22.0, 23.0),
            color: EdgeColor::White,
        }]
    );
    assert_eq!(Some(shape), outline_shape(&read_outline(&letter_glyph())));
}

#[test]
fn drawn_shape_of_no_glyph_is_nothing() {
    assert_eq!(drawn_shape(Ok(None)), None);
}

#[test]
fn drawn_shape_of_a_failure_is_nothing() {
    let failure = std::io::Error::new(std::io::ErrorKind::Other, "found a malformed glyph");
    assert_eq!(drawn_shape(Err(failure)), None);
}

#[test]
fn drawn_shape_of_a_glyph_that_draws_nothing_is_nothing() {
    assert_eq!(drawn_shape(Ok(Some(font::Glyph::default()))), None);
    assert_eq!(drawn_shape(Ok(Some(glyph_of(vec![contour_of((4.0, 4.0), vec![])])))), None);
}

#[test]
fn shape_of_a_letter_follows_the_font() {
    let mut font = noto_sans();
    let glyph = font.glyph('A').unwrap().unwrap();
    let shape = ask(&mut font, 'A').unwrap();
    assert_eq!(glyph.contours.len(), 2);
    assert_eq!(shape.len(), glyph.contours.len());
    for (contour, source) in shape.contours.iter().zip(glyph.contours.iter()) {
        assert_eq!(contour.len(), source.segments.len());
        let mut cursor = (source.offset.0 as f64, source.offset.1 as f64);
        for (edge, segment) in contour.edges.iter().zip(source.segments.iter()) {
            let expected: Vec<(f64, f64)> = match *segment {
                font::glyph::Segment::Linear(a) => vec![cursor, (a.0 as f64, a.1 as f64)],
                font::glyph::Segment::Quadratic(a, b) => {
                    vec![cursor, (a.0 as f64, a.1 as f64), (b.0 as f64, b.1 as f64)]
                }
                font::glyph::Segment::Cubic(a, b, c) => vec![
                    cursor,
                    (a.0 as f64, a.1 as f64),
                    (b.0 as f64, b.1 as f64),
                    (c.0 as f64, c.1 as f64),
                ],
            };
            let points: Vec<(f64, f64)> = edge
                .points()
                .iter()
                .map(|point| (f64::from_bits(point.x), f64::from_bits(point.y)))
                .collect();
            assert_eq!(points, expected);
            assert_eq!(edge.color(), EdgeColor::White);
            cursor = expected[expected.len() - 1];
        }
    }
}

#[test]
fn shape_of_a_space_is_nothing() {
    let mut font = noto_sans();
    assert!(font.glyph(' ').unwrap().is_some());
    assert_eq!(ask(&mut font, ' '), None);
    assert_eq!(ask(&mut font, '\u{a0}'), None);
}

#[test]
fn shape_of_a_character_that_the_font_lacks_is_nothing() {
    let mut font = noto_sans();
    assert!(font.glyph('\u{4e2d}').unwrap().is_none());
    assert_eq!(ask(&mut font, '\u{4e2d}'), None);
    assert_eq!(ask(&mut font, '\u{10ffff}'), None);
}

#[test]
fn shape_of_latin_letters_is_something() {
    let mut font = noto_sans();
    let mut shapes = 0;
    for glyph in "abcdefghABCDEFGH".chars() {
        if let Some(shape) = ask(&mut font, glyph) {
            assert!(shape.len() > 0);
            for contour in &shape.contours {
                assert!(contour.len() > 0);
                for index in 1..contour.edges.len() {
                    assert_eq!(contour.edges[index].start(), contour.edges[index - 1].end());
                }
            }
            shapes += 1;
        }
    }
    assert_eq!(shapes, 16);
}

#[test]
fn shape_is_the_same_when_asked_again() {
    let mut font = noto_sans();
    let first = ask(&mut font, 'g');
    let second = ask(&mut font, 'g');
    assert!(first.is_some());
    assert_eq!(first, second);
    let mut other = noto_sans();
    assert_eq!(ask(&mut other, 'g'), first);
}

#[test]
fn letter_of_four_lines_has_one_closed_contour_and_space_has_none() {
    let letter = glyph_of(vec![contour_of(
        (0.0, 0.0),
        vec![
            font::glyph::Segment::Linear(font::Offset(600.0, 0.0)),
            font::glyph::Segment::Linear(font::Offset(600.0, 700.0)),
            font::glyph::Segment::Linear(font::Offset(0.0, 700.0)),
            font::glyph::Segment::Linear(font::Offset(0.0, 0.0)),
        ],
    )]);
    let space = glyph_of(vec![]);
    let shape = drawn_shape(Ok(Some(letter))).unwrap();
    assert_eq!(shape.len(), 1);
    let corners = [(0.0, 0.0), (600.0, 0.0), (600.0, 700.0), (0.0, 700.0)];
    let expected: Vec<EdgeHolder> = (0..4)
        .map(|index| EdgeHolder::Linear {
            start: spot(corners[index].0, corners[index].1),
            end: spot(corners[(index + 1) % 4].0, corners[(index + 1) % 4].1),
            color: EdgeColor::White,
        })
        .collect();
    assert_eq!(shape.contours[0].edges, expected);
    assert_eq!(shape.contours[0].edges[3].end(), shape.contours[0].edges[0].start());
    assert_eq!(drawn_shape(Ok(Some(space))), None);
}

use pds_project::color::{adjust_color, Rgba, ToolColor};
use pds_project::geometry::{Point, Rect};
use pds_project::primitive::{adjust_primitive_colors, Primitive};

#[test]
fn adjust_color_test() {
    let test_color = Rgba::new(100, 10, 20, 30);
    let control_color = Rgba::new(20, 10, 100, 30);

    let res = adjust_color(test_color);

    assert_eq!(control_color, res);
}

#[test]
fn adjust_color_twice_is_identity() {
    let colors = [
        Rgba::new(0, 0, 0, 0),
        Rgba::new(100, 10, 20, 30),
        Rgba::new(81, 18, 18, 100),
        Rgba::new(2, 58, 89, 100),
    ];
    for c in colors {
        assert_eq!(adjust_color(adjust_color(c)), c);
    }
}

fn sample_tree() -> Primitive {
    Primitive::Group {
        primitives: vec![
            Primitive::Clip {
                bounds: Rect::new(0, 0, 10, 10),
                content: Box::new(Primitive::Stroke {
                    color: Rgba::new(81, 18, 18, 100),
                    width: 1,
                    path: vec![Point::new(0, 0), Point::new(5, 5)],
                }),
            },
            Primitive::Translate {
                translation: Point::new(3, 4),
                content: Box::new(Primitive::Quad {
                    bounds: Rect::new(1, 1, 2, 2),
                    background: Rgba::new(10, 20, 30, 40),
                    border_color: Rgba::new(1, 2, 3, 4),
                }),
            },
            Primitive::Cache {
                content: Box::new(Primitive::Text {
                    color: Rgba::new(100, 100, 0, 100),
                    content: "Test".to_string(),
                    size: 15,
                    position: Point::new(7, 8),
                }),
            },
            Primitive::Svg { handle: 3, color: None, bounds: Rect::new(0, 0, 4, 4) },
            Primitive::Mesh {
                colors: vec![Rgba::new(1, 2, 3, 4), Rgba::new(5, 6, 7, 8)],
            },
            Primitive::Image { handle: 9, bounds: Rect::new(0, 0, 2, 2) },
        ],
    }
}

#[test]
fn fixup_swaps_every_nested_color_and_keeps_geometry() {
    let adjusted = adjust_primitive_colors(sample_tree());
    match adjusted {
        Primitive::Group { primitives } => {
            assert_eq!(primitives.len(), 6);
            match &primitives[0] {
                Primitive::Clip { bounds, content } => {
                    assert_eq!(*bounds, Rect::new(0, 0, 10, 10));
                    match content.as_ref() {
                        Primitive::Stroke { color, width, path } => {
                            assert_eq!(*color, Rgba::new(18, 18, 81, 100));
                            assert_eq!(*width, 1);
                            assert_eq!(path, &vec![Point::new(0, 0), Point::new(5, 5)]);
                        }
                        other => panic!("expected a stroke, got {:?}", other),
                    }
                }
                other => panic!("expected a clip, got {:?}", other),
            }
            match &primitives[1] {
                Primitive::Translate { translation, content } => {
                    assert_eq!(*translation, Point::new(3, 4));
                    match content.as_ref() {
                        Primitive::Quad { background, border_color, .. } => {
                            assert_eq!(*background, Rgba::new(30, 20, 10, 40));
                            assert_eq!(*border_color, Rgba::new(3, 2, 1, 4));
                        }
                        other => panic!("expected a quad, got {:?}", other),
                    }
                }
                other => panic!("expected a translate, got {:?}", other),
            }
            match &primitives[2] {
                Primitive::Cache { content } => match content.as_ref() {
                    Primitive::Text { color, content, size, position } => {
                        assert_eq!(*color, Rgba::new(0, 100, 100, 100));
                        assert_eq!(content, "Test");
                        assert_eq!(*size, 15);
                        assert_eq!(*position, Point::new(7, 8));
                    }
                    other => panic!("expected a text, got {:?}", other),
                },
                other => panic!("expected a cache, got {:?}", other),
            }
            match &primitives[3] {
                Primitive::Svg { color, .. } => assert!(color.is_none()),
                other => panic!("expected an svg, got {:?}", other),
            }
            match &primitives[4] {
                Primitive::Mesh { colors } => {
                    assert_eq!(colors, &vec![Rgba::new(3, 2, 1, 4), Rgba::new(7, 6, 5, 8)]);
                }
                other => panic!("expected a mesh, got {:?}", other),
            }
            match &primitives[5] {
                Primitive::Image { handle, bounds } => {
                    assert_eq!(*handle, 9);
                    assert_eq!(*bounds, Rect::new(0, 0, 2, 2));
                }
                other => panic!("expected an image, got {:?}", other),
            }
        }
        other => panic!("expected a group, got {:?}", other),
    }
}

#[test]
fn fixup_twice_returns_the_original_tree() {
    let twice = adjust_primitive_colors(adjust_primitive_colors(sample_tree()));
    assert_eq!(twice, sample_tree());
}

#[test]
fn palette_colors_are_opaque() {
    let all = [
        ToolColor::White,
        ToolColor::Black,
        ToolColor::Red,
        ToolColor::Orange,
        ToolColor::Yellow,
        ToolColor::Green,
        ToolColor::Blue,
        ToolColor::Violet,
    ];
    for tc in all {
        assert_eq!(tc.color().a, 100);
    }
    assert_eq!(ToolColor::Red.color(), Rgba::new(81, 18, 18, 100));
    assert_eq!(ToolColor::Blue.color(), Rgba::new(2, 58, 89, 100));
}

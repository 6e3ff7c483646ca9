use pds_project::color::{Rgba, ToolColor};
use pds_project::crop_tool::CropTool;
use pds_project::editor::{
    default_min_crop_size, get_last_crop, tool_of_selection, HistoryEntry, PickListTools,
};
use pds_project::canvas_to_pixels::CropRect;
use pds_project::geometry::{widget_point_to_logical, Point, Rect, Size};
use pds_project::shapes::Tool;

#[test]
fn mapper_takes_widget_points_to_logical_space() {
    // logical.xy = pointer.xy * logical_size / widget_size + logical_origin
    let p = widget_point_to_logical(
        Point::new(10, 20),
        Size::new(50, 100),
        Rect::new(5, 7, 100, 200),
    )
    .unwrap();
    assert_eq!(p, Point::new(25, 47));
}

#[test]
fn mapper_fails_only_on_zero_area_widgets() {
    assert!(widget_point_to_logical(
        Point::new(0, 0),
        Size::new(0, 100),
        Rect::new(0, 0, 100, 200)
    )
    .is_none());
    assert!(widget_point_to_logical(
        Point::new(0, 0),
        Size::new(100, 0),
        Rect::new(0, 0, 100, 200)
    )
    .is_none());
    assert!(widget_point_to_logical(
        Point::new(0, 0),
        Size::new(100, 100),
        Rect::new(0, 0, 100, 200)
    )
    .is_some());
}

#[test]
fn mapper_is_scale_invariant() {
    // Scaling the widget and the pointer by the same factor leaves the
    // logical point unchanged.
    let logical = Rect::new(0, 0, 100, 200);
    let base = widget_point_to_logical(Point::new(10, 20), Size::new(50, 100), logical).unwrap();
    for k in [2i64, 3, 7] {
        let scaled = widget_point_to_logical(
            Point::new(10 * k, 20 * k),
            Size::new(50 * k, 100 * k),
            logical,
        )
        .unwrap();
        assert_eq!(scaled, base);
    }
}

#[test]
fn toolbar_selections_build_the_right_tools() {
    let rect = tool_of_selection(&PickListTools::Rectangle, ToolColor::Red);
    match rect {
        Tool::Rectangle { color, fill_style } => {
            assert_eq!(color, Rgba::new(81, 18, 18, 100));
            assert_eq!(fill_style, pds_project::shapes::FillStyle::Stroke(1));
        }
        other => panic!("expected a rectangle tool, got {:?}", other),
    }

    let text = tool_of_selection(
        &PickListTools::Text { text: "Hello".to_string(), size: 15 },
        ToolColor::Yellow,
    );
    match text {
        Tool::Text { color, content, size, font } => {
            assert_eq!(color, Rgba::new(99, 73, 0, 100));
            assert_eq!(content, "Hello".to_string());
            assert_eq!(size, 15);
            assert_eq!(font, "".to_string());
        }
        other => panic!("expected a text tool, got {:?}", other),
    }

    let highlighter = tool_of_selection(&PickListTools::Highlighter, ToolColor::Green);
    match highlighter {
        Tool::FreeHand { color, stroke_width } => {
            // Half-opaque, three units wide.
            assert_eq!(color, Rgba::new(0, 82, 52, 50));
            assert_eq!(stroke_width, 3);
        }
        other => panic!("expected a freehand tool, got {:?}", other),
    }

    let pen = tool_of_selection(&PickListTools::Pen, ToolColor::Black);
    match pen {
        Tool::FreeHand { color, stroke_width } => {
            assert_eq!(color, Rgba::new(0, 0, 0, 100));
            assert_eq!(stroke_width, 1);
        }
        other => panic!("expected a freehand tool, got {:?}", other),
    }
}

#[test]
fn last_crop_comes_from_the_history_tail() {
    let c1 = CropRect { x: 1, y: 2, width: 3, height: 4 };
    let c2 = CropRect { x: 5, y: 6, width: 7, height: 8 };
    let history = vec![
        HistoryEntry::Crop(c1),
        HistoryEntry::Annotate,
        HistoryEntry::Crop(c2),
        HistoryEntry::Annotate,
    ];
    assert_eq!(get_last_crop(&history), Some(c2));

    let history = vec![HistoryEntry::Annotate, HistoryEntry::Annotate];
    assert_eq!(get_last_crop(&history), None);
    assert_eq!(get_last_crop(&Vec::new()), None);
}

#[test]
fn minimum_crop_size_is_three_percent_but_at_least_one() {
    let min = default_min_crop_size(Size::new(2000, 1000));
    assert_eq!(min, Size::new(60, 30));

    // Tiny images still get a workable minimum.
    let min = default_min_crop_size(Size::new(20, 10));
    assert_eq!(min, Size::new(1, 1));

    // The minimum is accepted by the crop engine's constructor.
    let tool = CropTool::new(Rect::new(0, 0, 20, 10), min);
    assert!(tool.get_crop_rec().is_none());
}

//! Editor-session rules: the tool palette the UI offers, the edit history
//! used for undo, and the configuration of a crop operation.

use vstd::prelude::*;
use vstd::arithmetic::div_mod::{lemma_div_pos_is_pos, lemma_multiply_divide_le};

use crate::canvas_to_pixels::CropRect;
use crate::color::{Rgba, ToolColor};
use crate::geometry::Size;
use crate::shapes::{FillStyle, Tool, ToolV};
use crate::{Delays, ImageFormat, Screen};

verus! {

/// Everything the UI can ask the editor session to do. The host's event
/// loop produces these and performs the I/O each one stands for; the
/// decisions behind them live in this crate.
#[derive(Debug, Clone, PartialEq)]
pub enum Message {
    InitScreenshot,
    TakeScreenshot,
    CopyToClipboard,
    Save,
    SaveAs,
    Settings,
    ChangeFormat { format: ImageFormat },
    ToolSelected(PickListTools),
    ToolColorSelected(ToolColor),
    ScreenSelected(Screen),
    DelaySelected(Delays),
    Undo,
    ChooseSaveFolder,
    BeginCrop,
    EndCrop,
    CancelCrop,
    NewAnnotation,
}

/// What the toolbar offers; the pen and the highlighter are both freehand
/// tools with different width and opacity.
#[derive(Debug, Clone, PartialEq)]
pub enum PickListTools {
    Rectangle,
    Arrow,
    Text { text: String, size: i64 },
    Pen,
    Highlighter,
}

/// The tool specification a toolbar selection and a picked color stand for.
pub open spec fn spec_tool_of_selection(sel: PickListTools, color: Rgba) -> ToolV {
    match sel {
        PickListTools::Rectangle => ToolV::Rectangle { color, fill_style: FillStyle::Stroke(1) },
        PickListTools::Arrow => ToolV::Arrow { color, stroke_width: 1 },
        PickListTools::Text { text, size } => ToolV::Text {
            color,
            content: text@,
            size,
            font: ""@,
        },
        PickListTools::Pen => ToolV::FreeHand { color, stroke_width: 1 },
        PickListTools::Highlighter => ToolV::FreeHand {
            color: Rgba { a: 50, ..color },
            stroke_width: 3,
        },
    }
}

/// Builds the tool specification for the selected toolbar entry and picker
/// color: stroked rectangles and arrows of width one, text in the default
/// font, a pen of width one, and a half-opaque highlighter of width three.
pub fn tool_of_selection(sel: &PickListTools, tool_color: ToolColor) -> (r: Tool)
    ensures
        r@ == spec_tool_of_selection(*sel, tool_color.spec_color()),
{
    let color = tool_color.color();
    match sel {
        PickListTools::Rectangle => Tool::Rectangle { color, fill_style: FillStyle::Stroke(1) },
        PickListTools::Arrow => Tool::Arrow { color, stroke_width: 1 },
        PickListTools::Text { text, size } => {
            let font = String::new();
            proof {
                reveal_strlit("");
                assert(font@ =~= ""@);
            }
            Tool::Text { color, content: text.clone(), size: *size, font }
        },
        PickListTools::Pen => Tool::FreeHand { color, stroke_width: 1 },
        PickListTools::Highlighter => Tool::FreeHand {
            color: Rgba { r: color.r, g: color.g, b: color.b, a: 50 },
            stroke_width: 3,
        },
    }
}

/// One entry of the edit history: an annotation was committed, or the image
/// was cropped to the recorded rectangle.
#[derive(Debug, Clone, Copy, PartialEq, Eq, Structural)]
pub enum HistoryEntry {
    Annotate,
    Crop(CropRect),
}

/// The most recent crop in `history` at or before position `until`
/// (exclusive), if any.
pub open spec fn spec_last_crop(history: Seq<HistoryEntry>, until: int) -> Option<CropRect>
    decreases until when 0 <= until <= history.len()
{
    if until <= 0 {
        None
    } else {
        match history[until - 1] {
            HistoryEntry::Crop(c) => Some(c),
            HistoryEntry::Annotate => spec_last_crop(history, until - 1),
        }
    }
}

/// The crop rectangle of the most recent crop operation in the history, if
/// the image was ever cropped.
pub fn get_last_crop(history: &Vec<HistoryEntry>) -> (r: Option<CropRect>)
    ensures
        r == spec_last_crop(history@, history@.len() as int),
{
    let mut i: usize = history.len();
    while i > 0
        invariant
            i <= history@.len(),
            spec_last_crop(history@, history@.len() as int) == spec_last_crop(history@, i as int),
        decreases i,
    {
        match history[i - 1] {
            HistoryEntry::Crop(c) => {
                return Some(c);
            },
            HistoryEntry::Annotate => {
                i = i - 1;
            },
        }
    }
    None
}

/// Hundredths of the image's extents a crop selection may never shrink
/// below.
pub const MIN_SIZE_RATIO_HUNDREDTHS: i64 = 3;

/// The least crop size for an image: three percent of each extent, and
/// never less than one logical unit, so a selection always keeps an area.
pub open spec fn spec_default_min_crop_size(image_size: Size) -> Size {
    let w = MIN_SIZE_RATIO_HUNDREDTHS as int * image_size.width / 100;
    let h = MIN_SIZE_RATIO_HUNDREDTHS as int * image_size.height / 100;
    Size {
        width: if w < 1 {
            1i64
        } else {
            w as i64
        },
        height: if h < 1 {
            1i64
        } else {
            h as i64
        },
    }
}

pub fn default_min_crop_size(image_size: Size) -> (r: Size)
    requires
        image_size.wf(),
        image_size.positive(),
    ensures
        r == spec_default_min_crop_size(image_size),
        0 < r.width <= image_size.width,
        0 < r.height <= image_size.height,
{
    proof {
        lemma_div_pos_is_pos(MIN_SIZE_RATIO_HUNDREDTHS as int * image_size.width, 100);
        lemma_div_pos_is_pos(MIN_SIZE_RATIO_HUNDREDTHS as int * image_size.height, 100);
        lemma_multiply_divide_le(
            MIN_SIZE_RATIO_HUNDREDTHS as int * image_size.width,
            100,
            image_size.width as int,
        );
        lemma_multiply_divide_le(
            MIN_SIZE_RATIO_HUNDREDTHS as int * image_size.height,
            100,
            image_size.height as int,
        );
    }
    let w = MIN_SIZE_RATIO_HUNDREDTHS * image_size.width / 100;
    let h = MIN_SIZE_RATIO_HUNDREDTHS * image_size.height / 100;
    Size {
        width: if w < 1 {
            1
        } else {
            w
        },
        height: if h < 1 {
            1
        } else {
            h
        },
    }
}

} // verus!

use vstd::prelude::*;

use crate::tool::Tool;

verus! {

/// Number of stroke widths offered for shapes, arrows and pens.
pub const STROKE_WIDTH_COUNT: usize = 3;

/// Number of text sizes offered for text.
pub const TEXT_SIZE_COUNT: usize = 3;

/// Number of colors in the option bar.
pub const TOOLBAR_COLOR_COUNT: usize = 7;

/// Number of emoji offered by the emotion tool.
pub const EMOTION_COUNT: usize = 40;

/// The mosaic block sizes, in pixels, offered by the mosaic tool.
pub fn mosaic_block_sizes() -> (sizes: [u32; 3])
    ensures
        sizes@ == seq![10u32, 16u32, 24u32],
{
    let sizes = [10u32, 16u32, 24u32];
    assert(sizes@ =~= seq![10u32, 16u32, 24u32]);
    sizes
}

/// The smallest mosaic block the editor accepts, in pixels.
pub const MIN_MOSAIC_BLOCK: u32 = 4;

/// The largest mosaic block the editor accepts, in pixels.
pub const MAX_MOSAIC_BLOCK: u32 = 64;

/// A requested mosaic block size kept between 4 and 64 pixels.
pub fn clamp_mosaic_block_size(size: u32) -> (clamped: u32)
    ensures
        clamped == (if size < MIN_MOSAIC_BLOCK {
            MIN_MOSAIC_BLOCK
        } else if size > MAX_MOSAIC_BLOCK {
            MAX_MOSAIC_BLOCK
        } else {
            size
        }),
{
    if size < MIN_MOSAIC_BLOCK {
        MIN_MOSAIC_BLOCK
    } else if size > MAX_MOSAIC_BLOCK {
        MAX_MOSAIC_BLOCK
    } else {
        size
    }
}

/// A command of the capture overlay's toolbar or option bar.
#[derive(Debug, Clone, Copy, PartialEq, Eq, Structural)]
pub enum OverlayAction {
    Tool(Tool),
    Option(OverlayOption),
    Undo,
    ExtractText,
    ScrollCapture,
    Languages,
    Save,
    Pin,
    Cancel,
    Confirm,
}

/// A command of the scrolling-capture toolbar.
#[derive(Debug, Clone, Copy, PartialEq, Eq, Structural)]
pub enum ScrollAction {
    Edit,
    Save,
    Cancel,
    Confirm,
}

/// An entry of the option bar; the number picks a width, size, color, block size or emoji.
#[derive(Debug, Clone, Copy, PartialEq, Eq, Structural)]
pub enum OverlayOption {
    StrokeWidth(u8),
    TextSize(u8),
    ToggleFill,
    Color(u8),
    MosaicBlock(u8),
    Emotion(u8),
}

/// Whether an option applies to `tool` and names an entry that exists.
pub open spec fn spec_valid_for(option: OverlayOption, tool: Tool) -> bool {
    match option {
        OverlayOption::StrokeWidth(index) => (tool == Tool::Rectangle || tool == Tool::Circle || tool
            == Tool::Arrow || tool == Tool::Pen) && index < STROKE_WIDTH_COUNT,
        OverlayOption::TextSize(index) => tool == Tool::Text && index < TEXT_SIZE_COUNT,
        OverlayOption::ToggleFill => tool == Tool::Rectangle || tool == Tool::Circle,
        OverlayOption::Color(index) => (tool == Tool::Rectangle || tool == Tool::Circle || tool
            == Tool::Arrow || tool == Tool::Pen || tool == Tool::Text) && index < TOOLBAR_COLOR_COUNT,
        OverlayOption::MosaicBlock(index) => tool == Tool::Mosaic && index < 3,
        OverlayOption::Emotion(index) => tool == Tool::Emotion && index < EMOTION_COUNT,
    }
}

impl OverlayOption {
    pub fn valid_for(self, tool: Tool) -> (valid: bool)
        ensures
            valid == spec_valid_for(self, tool),
    {
        match self {
            OverlayOption::StrokeWidth(index) => {
                (tool == Tool::Rectangle || tool == Tool::Circle || tool == Tool::Arrow || tool
                    == Tool::Pen) && (index as usize) < STROKE_WIDTH_COUNT
            },
            OverlayOption::TextSize(index) => tool == Tool::Text && (index as usize)
                < TEXT_SIZE_COUNT,
            OverlayOption::ToggleFill => tool == Tool::Rectangle || tool == Tool::Circle,
            OverlayOption::Color(index) => {
                (tool == Tool::Rectangle || tool == Tool::Circle || tool == Tool::Arrow || tool
                    == Tool::Pen || tool == Tool::Text) && (index as usize) < TOOLBAR_COLOR_COUNT
            },
            OverlayOption::MosaicBlock(index) => tool == Tool::Mosaic && index < 3,
            OverlayOption::Emotion(index) => tool == Tool::Emotion && (index as usize)
                < EMOTION_COUNT,
        }
    }
}

/// The capture toolbar's commands, left to right.
pub open spec fn spec_capture_actions() -> Seq<OverlayAction> {
    seq![
        OverlayAction::Tool(Tool::Rectangle),
        OverlayAction::Tool(Tool::Circle),
        OverlayAction::Tool(Tool::Emotion),
        OverlayAction::Tool(Tool::Arrow),
        OverlayAction::Tool(Tool::Pen),
        OverlayAction::Tool(Tool::Mosaic),
        OverlayAction::Tool(Tool::Text),
        OverlayAction::Undo,
        OverlayAction::ExtractText,
        OverlayAction::ScrollCapture,
        OverlayAction::Languages,
        OverlayAction::Save,
        OverlayAction::Pin,
        OverlayAction::Confirm,
        OverlayAction::Cancel,
    ]
}

pub fn capture_actions() -> (actions: [OverlayAction; 15])
    ensures
        actions@ == spec_capture_actions(),
{
    let actions = [
        OverlayAction::Tool(Tool::Rectangle),
        OverlayAction::Tool(Tool::Circle),
        OverlayAction::Tool(Tool::Emotion),
        OverlayAction::Tool(Tool::Arrow),
        OverlayAction::Tool(Tool::Pen),
        OverlayAction::Tool(Tool::Mosaic),
        OverlayAction::Tool(Tool::Text),
        OverlayAction::Undo,
        OverlayAction::ExtractText,
        OverlayAction::ScrollCapture,
        OverlayAction::Languages,
        OverlayAction::Save,
        OverlayAction::Pin,
        OverlayAction::Confirm,
        OverlayAction::Cancel,
    ];
    assert(actions@ =~= spec_capture_actions());
    actions
}

/// The scrolling toolbar's commands, left to right.
pub open spec fn spec_scroll_actions() -> Seq<ScrollAction> {
    seq![ScrollAction::Edit, ScrollAction::Save, ScrollAction::Cancel, ScrollAction::Confirm]
}

pub fn scroll_actions() -> (actions: [ScrollAction; 4])
    ensures
        actions@ == spec_scroll_actions(),
{
    let actions = [ScrollAction::Edit, ScrollAction::Save, ScrollAction::Cancel, ScrollAction::Confirm];
    assert(actions@ =~= spec_scroll_actions());
    actions
}

/// The option bar of a tool: the number of options and of grid columns; no bar for selection.
pub open spec fn spec_option_grid(tool: Tool) -> Option<(usize, usize)> {
    match tool {
        Tool::Rectangle | Tool::Circle => Some((11, 11)),
        Tool::Arrow | Tool::Pen | Tool::Text => Some((10, 10)),
        Tool::Mosaic => Some((3, 3)),
        Tool::Emotion => Some((EMOTION_COUNT, 8)),
        Tool::Select => None,
    }
}

pub fn option_grid(tool: Tool) -> (grid: Option<(usize, usize)>)
    ensures
        grid == spec_option_grid(tool),
{
    match tool {
        Tool::Rectangle | Tool::Circle => Some((11, 11)),
        Tool::Arrow | Tool::Pen | Tool::Text => Some((10, 10)),
        Tool::Mosaic => Some((3, 3)),
        Tool::Emotion => Some((EMOTION_COUNT, 8)),
        Tool::Select => None,
    }
}

/// The option at position `index` of a tool's option bar: widths or sizes first, the fill
/// toggle for shapes, then the colors; block sizes for mosaic; emoji for the emotion tool.
pub open spec fn spec_option_at(tool: Tool, index: usize) -> Option<OverlayOption> {
    match tool {
        Tool::Rectangle | Tool::Circle => if index <= 2 {
            Some(OverlayOption::StrokeWidth(index as u8))
        } else if index == 3 {
            Some(OverlayOption::ToggleFill)
        } else if index <= 10 {
            Some(OverlayOption::Color((index - 4) as u8))
        } else {
            None
        },
        Tool::Arrow | Tool::Pen => if index <= 2 {
            Some(OverlayOption::StrokeWidth(index as u8))
        } else if index <= 9 {
            Some(OverlayOption::Color((index - 3) as u8))
        } else {
            None
        },
        Tool::Text => if index <= 2 {
            Some(OverlayOption::TextSize(index as u8))
        } else if index <= 9 {
            Some(OverlayOption::Color((index - 3) as u8))
        } else {
            None
        },
        Tool::Mosaic => if index < 3 {
            Some(OverlayOption::MosaicBlock(index as u8))
        } else {
            None
        },
        Tool::Emotion => if index < EMOTION_COUNT {
            Some(OverlayOption::Emotion(index as u8))
        } else {
            None
        },
        Tool::Select => None,
    }
}

pub fn option_at(tool: Tool, index: usize) -> (option: Option<OverlayOption>)
    ensures
        option == spec_option_at(tool, index),
{
    match tool {
        Tool::Rectangle | Tool::Circle => if index <= 2 {
            Some(OverlayOption::StrokeWidth(index as u8))
        } else if index == 3 {
            Some(OverlayOption::ToggleFill)
        } else if index <= 10 {
            Some(OverlayOption::Color((index - 4) as u8))
        } else {
            None
        },
        Tool::Arrow | Tool::Pen => if index <= 2 {
            Some(OverlayOption::StrokeWidth(index as u8))
        } else if index <= 9 {
            Some(OverlayOption::Color((index - 3) as u8))
        } else {
            None
        },
        Tool::Text => if index <= 2 {
            Some(OverlayOption::TextSize(index as u8))
        } else if index <= 9 {
            Some(OverlayOption::Color((index - 3) as u8))
        } else {
            None
        },
        Tool::Mosaic => if index < 3 {
            Some(OverlayOption::MosaicBlock(index as u8))
        } else {
            None
        },
        Tool::Emotion => if index < EMOTION_COUNT {
            Some(OverlayOption::Emotion(index as u8))
        } else {
            None
        },
        Tool::Select => None,
    }
}

/// Every position of a tool's option bar holds an option that is valid for that tool,
/// the bar ends right after its last option, and the grid has at least one column.
pub proof fn lemma_option_bar_is_complete_and_valid(tool: Tool, index: usize)
    ensures
        match spec_option_grid(tool) {
            None => spec_option_at(tool, index) is None,
            Some((count, columns)) => {
                &&& columns >= 1
                &&& index < count ==> (spec_option_at(tool, index) matches Some(option)
                    && spec_valid_for(option, tool))
                &&& index >= count ==> spec_option_at(tool, index) is None
            },
        },
{
}

/// Different positions of an option bar hold different options.
pub proof fn lemma_option_bar_positions_are_distinct(tool: Tool, first: usize, second: usize)
    requires
        first != second,
        spec_option_at(tool, first) is Some,
        spec_option_at(tool, second) is Some,
    ensures
        spec_option_at(tool, first) != spec_option_at(tool, second),
{
}

} // verus!

use vstd::prelude::*;

use crate::overlay::{OverlayAction, spec_capture_actions};
use crate::tool::Tool;

verus! {

/// How a toolbar button is drawn.
#[derive(Debug, Clone, Copy, PartialEq, Eq, Structural)]
pub enum ToolbarVisualState {
    Disabled,
    Pressed,
    Hovered,
    Active,
    Idle,
}

/// The look of a toolbar button: a disabled button never looks interactive; otherwise being
/// pressed wins over being hovered, which wins over being the active tool.
pub open spec fn spec_toolbar_visual_state(
    enabled: bool,
    active: bool,
    hovered: bool,
    pressed: bool,
) -> ToolbarVisualState {
    if !enabled {
        ToolbarVisualState::Disabled
    } else if pressed {
        ToolbarVisualState::Pressed
    } else if hovered {
        ToolbarVisualState::Hovered
    } else if active {
        ToolbarVisualState::Active
    } else {
        ToolbarVisualState::Idle
    }
}

pub fn toolbar_visual_state(enabled: bool, active: bool, hovered: bool, pressed: bool) -> (state:
    ToolbarVisualState)
    ensures
        state == spec_toolbar_visual_state(enabled, active, hovered, pressed),
        !enabled <==> state == ToolbarVisualState::Disabled,
{
    if !enabled {
        ToolbarVisualState::Disabled
    } else if pressed {
        ToolbarVisualState::Pressed
    } else if hovered {
        ToolbarVisualState::Hovered
    } else if active {
        ToolbarVisualState::Active
    } else {
        ToolbarVisualState::Idle
    }
}

/// A glyph of the capture toolbar; each has one texture slot, in declaration order.
#[derive(Debug, Clone, Copy, PartialEq, Eq, Structural)]
pub enum ToolbarIcon {
    Rectangle,
    Circle,
    Emotion,
    Arrow,
    Pen,
    Mosaic,
    Text,
    Undo,
    ExtractText,
    ScrollCapture,
    Languages,
    Save,
    Pin,
    Confirm,
    Cancel,
    Select,
}

/// The number of toolbar glyphs.
pub const TOOLBAR_ICON_COUNT: usize = 16;

/// Every toolbar glyph in texture-slot order.
pub open spec fn spec_all_icons() -> Seq<ToolbarIcon> {
    seq![
        ToolbarIcon::Rectangle,
        ToolbarIcon::Circle,
        ToolbarIcon::Emotion,
        ToolbarIcon::Arrow,
        ToolbarIcon::Pen,
        ToolbarIcon::Mosaic,
        ToolbarIcon::Text,
        ToolbarIcon::Undo,
        ToolbarIcon::ExtractText,
        ToolbarIcon::ScrollCapture,
        ToolbarIcon::Languages,
        ToolbarIcon::Save,
        ToolbarIcon::Pin,
        ToolbarIcon::Confirm,
        ToolbarIcon::Cancel,
        ToolbarIcon::Select,
    ]
}

/// The texture slot of a glyph: its position in declaration order.
pub open spec fn spec_slot(icon: ToolbarIcon) -> int {
    match icon {
        ToolbarIcon::Rectangle => 0,
        ToolbarIcon::Circle => 1,
        ToolbarIcon::Emotion => 2,
        ToolbarIcon::Arrow => 3,
        ToolbarIcon::Pen => 4,
        ToolbarIcon::Mosaic => 5,
        ToolbarIcon::Text => 6,
        ToolbarIcon::Undo => 7,
        ToolbarIcon::ExtractText => 8,
        ToolbarIcon::ScrollCapture => 9,
        ToolbarIcon::Languages => 10,
        ToolbarIcon::Save => 11,
        ToolbarIcon::Pin => 12,
        ToolbarIcon::Confirm => 13,
        ToolbarIcon::Cancel => 14,
        ToolbarIcon::Select => 15,
    }
}

/// The glyph that a toolbar command shows; option-bar entries draw their own content.
pub open spec fn spec_icon_for_action(action: OverlayAction) -> Option<ToolbarIcon> {
    match action {
        OverlayAction::Tool(Tool::Rectangle) => Some(ToolbarIcon::Rectangle),
        OverlayAction::Tool(Tool::Circle) => Some(ToolbarIcon::Circle),
        OverlayAction::Tool(Tool::Emotion) => Some(ToolbarIcon::Emotion),
        OverlayAction::Tool(Tool::Arrow) => Some(ToolbarIcon::Arrow),
        OverlayAction::Tool(Tool::Pen) => Some(ToolbarIcon::Pen),
        OverlayAction::Tool(Tool::Mosaic) => Some(ToolbarIcon::Mosaic),
        OverlayAction::Tool(Tool::Text) => Some(ToolbarIcon::Text),
        OverlayAction::Undo => Some(ToolbarIcon::Undo),
        OverlayAction::ExtractText => Some(ToolbarIcon::ExtractText),
        OverlayAction::ScrollCapture => Some(ToolbarIcon::ScrollCapture),
        OverlayAction::Languages => Some(ToolbarIcon::Languages),
        OverlayAction::Save => Some(ToolbarIcon::Save),
        OverlayAction::Pin => Some(ToolbarIcon::Pin),
        OverlayAction::Confirm => Some(ToolbarIcon::Confirm),
        OverlayAction::Cancel => Some(ToolbarIcon::Cancel),
        OverlayAction::Tool(Tool::Select) => Some(ToolbarIcon::Select),
        OverlayAction::Option(_) => None,
    }
}

impl ToolbarIcon {
    /// Every toolbar glyph in texture-slot order.
    pub fn all() -> (icons: [ToolbarIcon; 16])
        ensures
            icons@ == spec_all_icons(),
    {
        let icons = [
            ToolbarIcon::Rectangle,
            ToolbarIcon::Circle,
            ToolbarIcon::Emotion,
            ToolbarIcon::Arrow,
            ToolbarIcon::Pen,
            ToolbarIcon::Mosaic,
            ToolbarIcon::Text,
            ToolbarIcon::Undo,
            ToolbarIcon::ExtractText,
            ToolbarIcon::ScrollCapture,
            ToolbarIcon::Languages,
            ToolbarIcon::Save,
            ToolbarIcon::Pin,
            ToolbarIcon::Confirm,
            ToolbarIcon::Cancel,
            ToolbarIcon::Select,
        ];
        assert(icons@ =~= spec_all_icons());
        icons
    }

    /// The texture slot that the glyph is uploaded to.
    pub fn slot(self) -> (slot: usize)
        ensures
            slot == spec_slot(self),
            slot < TOOLBAR_ICON_COUNT,
            spec_all_icons()[slot as int] == self,
    {
        match self {
            ToolbarIcon::Rectangle => 0,
            ToolbarIcon::Circle => 1,
            ToolbarIcon::Emotion => 2,
            ToolbarIcon::Arrow => 3,
            ToolbarIcon::Pen => 4,
            ToolbarIcon::Mosaic => 5,
            ToolbarIcon::Text => 6,
            ToolbarIcon::Undo => 7,
            ToolbarIcon::ExtractText => 8,
            ToolbarIcon::ScrollCapture => 9,
            ToolbarIcon::Languages => 10,
            ToolbarIcon::Save => 11,
            ToolbarIcon::Pin => 12,
            ToolbarIcon::Confirm => 13,
            ToolbarIcon::Cancel => 14,
            ToolbarIcon::Select => 15,
        }
    }

    /// The file name of the glyph's SVG asset.
    pub fn asset_name(self) -> (name: &'static str)
        ensures
            name@ == (match self {
                ToolbarIcon::Rectangle => "square.svg"@,
                ToolbarIcon::Circle => "circle.svg"@,
                ToolbarIcon::Emotion => "emotion.svg"@,
                ToolbarIcon::Arrow => "move-up-right.svg"@,
                ToolbarIcon::Pen => "pen.svg"@,
                ToolbarIcon::Mosaic => "mosaic.svg"@,
                ToolbarIcon::Text => "type.svg"@,
                ToolbarIcon::Undo => "undo-2.svg"@,
                ToolbarIcon::ExtractText => "extracttext.svg"@,
                ToolbarIcon::ScrollCapture => "scroll-capture.svg"@,
                ToolbarIcon::Languages => "languages.svg"@,
                ToolbarIcon::Save => "download.svg"@,
                ToolbarIcon::Pin => "pin.svg"@,
                ToolbarIcon::Confirm => "check.svg"@,
                ToolbarIcon::Cancel => "x.svg"@,
                ToolbarIcon::Select => "edit.svg"@,
            }),
    {
        match self {
            ToolbarIcon::Rectangle => "square.svg",
            ToolbarIcon::Circle => "circle.svg",
            ToolbarIcon::Emotion => "emotion.svg",
            ToolbarIcon::Arrow => "move-up-right.svg",
            ToolbarIcon::Pen => "pen.svg",
            ToolbarIcon::Mosaic => "mosaic.svg",
            ToolbarIcon::Text => "type.svg",
            ToolbarIcon::Undo => "undo-2.svg",
            ToolbarIcon::ExtractText => "extracttext.svg",
            ToolbarIcon::ScrollCapture => "scroll-capture.svg",
            ToolbarIcon::Languages => "languages.svg",
            ToolbarIcon::Save => "download.svg",
            ToolbarIcon::Pin => "pin.svg",
            ToolbarIcon::Confirm => "check.svg",
            ToolbarIcon::Cancel => "x.svg",
            ToolbarIcon::Select => "edit.svg",
        }
    }
}

/// The glyph that a toolbar command shows, or `None` for an option-bar entry.
pub fn icon_for_action(action: OverlayAction) -> (icon: Option<ToolbarIcon>)
    ensures
        icon == spec_icon_for_action(action),
{
    match action {
        OverlayAction::Tool(Tool::Rectangle) => Some(ToolbarIcon::Rectangle),
        OverlayAction::Tool(Tool::Circle) => Some(ToolbarIcon::Circle),
        OverlayAction::Tool(Tool::Emotion) => Some(ToolbarIcon::Emotion),
        OverlayAction::Tool(Tool::Arrow) => Some(ToolbarIcon::Arrow),
        OverlayAction::Tool(Tool::Pen) => Some(ToolbarIcon::Pen),
        OverlayAction::Tool(Tool::Mosaic) => Some(ToolbarIcon::Mosaic),
        OverlayAction::Tool(Tool::Text) => Some(ToolbarIcon::Text),
        OverlayAction::Undo => Some(ToolbarIcon::Undo),
        OverlayAction::ExtractText => Some(ToolbarIcon::ExtractText),
        OverlayAction::ScrollCapture => Some(ToolbarIcon::ScrollCapture),
        OverlayAction::Languages => Some(ToolbarIcon::Languages),
        OverlayAction::Save => Some(ToolbarIcon::Save),
        OverlayAction::Pin => Some(ToolbarIcon::Pin),
        OverlayAction::Confirm => Some(ToolbarIcon::Confirm),
        OverlayAction::Cancel => Some(ToolbarIcon::Cancel),
        OverlayAction::Tool(Tool::Select) => Some(ToolbarIcon::Select),
        OverlayAction::Option(_) => None,
    }
}

/// Every glyph has its own texture slot: the slots are distinct and each holds its glyph.
pub proof fn lemma_slots_follow_declaration_order(icon: ToolbarIcon, other: ToolbarIcon)
    ensures
        0 <= spec_slot(icon) < spec_all_icons().len(),
        spec_all_icons()[spec_slot(icon)] == icon,
        icon != other ==> spec_slot(icon) != spec_slot(other),
{
}

/// Every command of the capture toolbar shows a glyph, and no two of them share one.
pub proof fn lemma_capture_actions_have_distinct_icons(i: int, j: int)
    requires
        0 <= i < spec_capture_actions().len(),
        0 <= j < spec_capture_actions().len(),
    ensures
        spec_icon_for_action(spec_capture_actions()[i]) is Some,
        i != j ==> spec_icon_for_action(spec_capture_actions()[i]) != spec_icon_for_action(
            spec_capture_actions()[j],
        ),
{
    assert(spec_capture_actions()[i] != spec_capture_actions()[j] || i == j);
}

} // verus!

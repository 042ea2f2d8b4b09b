use vstd::prelude::*;

use crate::geometry::Handle;
use crate::tool::Tool;

verus! {

/// The pointer shape that a surface asks the platform for.
#[derive(Debug, Clone, Copy, PartialEq, Eq, Structural)]
pub enum PointerCursor {
    Arrow,
    Crosshair,
    Hand,
    IBeam,
    Move,
    ResizeNorthSouth,
    ResizeEastWest,
    ResizeNorthEastSouthWest,
    ResizeNorthWestSouthEast,
    NotAllowed,
    Hidden,
}

/// The cursor for a grip: diagonal for corners and line ends, vertical or horizontal for
/// edges, a move cursor for the body.
pub open spec fn spec_resize_cursor(handle: Handle) -> PointerCursor {
    match handle {
        Handle::TopLeft | Handle::BottomRight | Handle::Start | Handle::End => {
            PointerCursor::ResizeNorthWestSouthEast
        },
        Handle::TopRight | Handle::BottomLeft => PointerCursor::ResizeNorthEastSouthWest,
        Handle::Top | Handle::Bottom => PointerCursor::ResizeNorthSouth,
        Handle::Left | Handle::Right => PointerCursor::ResizeEastWest,
        Handle::Move => PointerCursor::Move,
    }
}

pub fn resize_cursor(handle: Handle) -> (cursor: PointerCursor)
    ensures
        cursor == spec_resize_cursor(handle),
{
    match handle {
        Handle::TopLeft | Handle::BottomRight | Handle::Start | Handle::End => {
            PointerCursor::ResizeNorthWestSouthEast
        },
        Handle::TopRight | Handle::BottomLeft => PointerCursor::ResizeNorthEastSouthWest,
        Handle::Top | Handle::Bottom => PointerCursor::ResizeNorthSouth,
        Handle::Left | Handle::Right => PointerCursor::ResizeEastWest,
        Handle::Move => PointerCursor::Move,
    }
}

/// Opposite grips share a cursor: every resize cursor stands for a line through the box.
pub proof fn lemma_opposite_grips_share_cursor()
    ensures
        spec_resize_cursor(Handle::TopLeft) == spec_resize_cursor(Handle::BottomRight),
        spec_resize_cursor(Handle::TopRight) == spec_resize_cursor(Handle::BottomLeft),
        spec_resize_cursor(Handle::Top) == spec_resize_cursor(Handle::Bottom),
        spec_resize_cursor(Handle::Left) == spec_resize_cursor(Handle::Right),
        spec_resize_cursor(Handle::Start) == spec_resize_cursor(Handle::End),
{
}

/// Where the selection of the capture overlay stands in its gesture.
#[derive(Debug, Clone, Copy, PartialEq, Eq, Structural)]
pub enum Phase {
    Idle,
    Creating,
    Moving,
    Resizing,
    Ready,
}

/// What the capture overlay knows about the pointer's position when it picks a cursor: the
/// results of its hit tests and the state of its selection and editor.
#[derive(Debug, Clone, Copy, PartialEq, Eq, Structural)]
pub struct CursorContext {
    /// The pointer is over a toolbar button.
    pub toolbar_hovered: bool,
    pub phase: Phase,
    /// The grip that the selection is being resized by.
    pub selection_drag_handle: Option<Handle>,
    /// The grip that an annotation is being dragged by.
    pub editor_drag_handle: Option<Handle>,
    pub editing_text: bool,
    /// The grip of the selected annotation under the pointer.
    pub editor_grip: Option<Handle>,
    /// The selection can no longer be moved or resized because a tool is active.
    pub selection_locked: bool,
    /// The grip of the selection under the pointer.
    pub selection_grip: Option<Handle>,
    /// The selected annotation is a text.
    pub text_selected: bool,
    /// The pointer is inside the selection.
    pub inside_selection: bool,
    pub tool: Tool,
}

/// The cursor over the capture overlay. A gesture in progress decides first, then a grip
/// under the pointer (an annotation's while editing text, else the selection's when it is
/// not locked, then the selected annotation's); inside the selection the active tool
/// decides, and outside it a drawing tool shows that it cannot draw there.
pub open spec fn spec_capture_cursor(c: CursorContext) -> PointerCursor {
    if c.toolbar_hovered {
        PointerCursor::Hand
    } else if c.phase == Phase::Creating {
        PointerCursor::Crosshair
    } else if c.phase == Phase::Moving {
        PointerCursor::Move
    } else if c.phase == Phase::Resizing {
        match c.selection_drag_handle {
            Some(handle) => spec_resize_cursor(handle),
            None => PointerCursor::Arrow,
        }
    } else if c.phase == Phase::Idle {
        PointerCursor::Arrow
    } else if c.editor_drag_handle is Some {
        spec_resize_cursor(c.editor_drag_handle->0)
    } else if c.editing_text {
        match c.editor_grip {
            Some(handle) => if handle != Handle::Move {
                spec_resize_cursor(handle)
            } else {
                PointerCursor::IBeam
            },
            None => PointerCursor::IBeam,
        }
    } else if !c.selection_locked && c.selection_grip is Some && c.selection_grip->0
        != Handle::Move {
        spec_resize_cursor(c.selection_grip->0)
    } else if c.editor_grip is Some {
        if c.editor_grip->0 != Handle::Move {
            spec_resize_cursor(c.editor_grip->0)
        } else if c.text_selected {
            PointerCursor::Arrow
        } else {
            PointerCursor::Move
        }
    } else if c.inside_selection {
        match c.tool {
            Tool::Rectangle | Tool::Circle | Tool::Arrow | Tool::Pen => PointerCursor::Crosshair,
            Tool::Text => PointerCursor::IBeam,
            Tool::Mosaic => PointerCursor::Hidden,
            Tool::Emotion | Tool::Select => PointerCursor::Arrow,
        }
    } else {
        match c.tool {
            Tool::Emotion | Tool::Select => PointerCursor::Arrow,
            _ => PointerCursor::NotAllowed,
        }
    }
}

pub fn capture_cursor(context: CursorContext) -> (cursor: PointerCursor)
    ensures
        cursor == spec_capture_cursor(context),
{
    if context.toolbar_hovered {
        return PointerCursor::Hand;
    }
    match context.phase {
        Phase::Creating => {
            return PointerCursor::Crosshair;
        },
        Phase::Moving => {
            return PointerCursor::Move;
        },
        Phase::Resizing => {
            return match context.selection_drag_handle {
                Some(handle) => resize_cursor(handle),
                None => PointerCursor::Arrow,
            };
        },
        Phase::Idle => {
            return PointerCursor::Arrow;
        },
        Phase::Ready => {},
    }
    if let Some(handle) = context.editor_drag_handle {
        return resize_cursor(handle);
    }
    if context.editing_text {
        return match context.editor_grip {
            Some(handle) => {
                if handle != Handle::Move {
                    resize_cursor(handle)
                } else {
                    PointerCursor::IBeam
                }
            },
            None => PointerCursor::IBeam,
        };
    }
    if !context.selection_locked {
        if let Some(handle) = context.selection_grip {
            if handle != Handle::Move {
                return resize_cursor(handle);
            }
        }
    }
    if let Some(handle) = context.editor_grip {
        if handle != Handle::Move {
            return resize_cursor(handle);
        }
        return if context.text_selected {
            PointerCursor::Arrow
        } else {
            PointerCursor::Move
        };
    }
    if context.inside_selection {
        return match context.tool {
            Tool::Rectangle | Tool::Circle | Tool::Arrow | Tool::Pen => PointerCursor::Crosshair,
            Tool::Text => PointerCursor::IBeam,
            Tool::Mosaic => PointerCursor::Hidden,
            Tool::Emotion | Tool::Select => PointerCursor::Arrow,
        };
    }
    match context.tool {
        Tool::Emotion | Tool::Select => PointerCursor::Arrow,
        _ => PointerCursor::NotAllowed,
    }
}

/// The mosaic brush hides the cursor only over the capture: outside it the overlay shows
/// that it cannot draw there.
pub proof fn lemma_mosaic_hides_cursor_only_inside(c: CursorContext)
    requires
        c.tool == Tool::Mosaic,
        !c.toolbar_hovered,
        c.phase == Phase::Ready,
        c.editor_drag_handle is None,
        !c.editing_text,
        c.selection_locked,
        c.editor_grip is None,
    ensures
        c.inside_selection ==> spec_capture_cursor(c) == PointerCursor::Hidden,
        !c.inside_selection ==> spec_capture_cursor(c) == PointerCursor::NotAllowed,
{
}

} // verus!

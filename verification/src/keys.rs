use vstd::prelude::*;

use crate::export::CaptureIntent;

verus! {

/// A key that the annotation editor interprets while it has the keyboard.
#[derive(Debug, Clone, Copy, PartialEq, Eq, Structural)]
pub enum EditorKey {
    Escape,
    Enter,
    Backspace,
    Delete,
    Left,
    Right,
    Up,
    Down,
    Home,
    End,
    Undo,
    Redo,
}

// Virtual-key codes of the keys that the capture overlay listens to.
pub const VK_BACK: u16 = 0x08;
pub const VK_RETURN: u16 = 0x0d;
pub const VK_ESCAPE: u16 = 0x1b;
pub const VK_END: u16 = 0x23;
pub const VK_HOME: u16 = 0x24;
pub const VK_LEFT: u16 = 0x25;
pub const VK_UP: u16 = 0x26;
pub const VK_RIGHT: u16 = 0x27;
pub const VK_DOWN: u16 = 0x28;
pub const VK_DELETE: u16 = 0x2e;
pub const VK_A: u16 = 0x41;
pub const VK_Y: u16 = 0x59;
pub const VK_Z: u16 = 0x5a;

// How far one arrow key moves the selection, with and without Shift.
pub const NUDGE_STEP: i32 = 1;
pub const NUDGE_STEP_SHIFTED: i32 = 10;

/// What the overlay does with a key that the editor did not consume.
#[derive(Debug, Clone, Copy, PartialEq, Eq, Structural)]
pub enum OverlayFallback {
    Nothing,
    /// Close the overlay without a capture.
    Quit,
    /// Confirm the selection with the given intent.
    Finish(CaptureIntent),
    /// Drop the current selection.
    ClearSelection,
    /// Move the selection by the given offset.
    Nudge { dx: i32, dy: i32 },
}

/// What a key press in the capture overlay asks for.
#[derive(Debug, Clone, Copy, PartialEq, Eq, Structural)]
pub enum OverlayKeyAction {
    /// Select the whole desktop.
    SelectAll,
    /// Offer the key to the editor first; if the editor does not consume it, do `otherwise`.
    Editor { key: EditorKey, otherwise: OverlayFallback },
}

/// The offset by which an arrow key nudges the selection.
pub open spec fn nudge_for(key: u16, shift: bool) -> OverlayFallback {
    let step: i32 = if shift {
        NUDGE_STEP_SHIFTED
    } else {
        NUDGE_STEP
    };
    if key == VK_LEFT {
        OverlayFallback::Nudge { dx: (-step) as i32, dy: 0 }
    } else if key == VK_RIGHT {
        OverlayFallback::Nudge { dx: step, dy: 0 }
    } else if key == VK_UP {
        OverlayFallback::Nudge { dx: 0, dy: (-step) as i32 }
    } else {
        OverlayFallback::Nudge { dx: 0, dy: step }
    }
}

/// What the overlay does for a key press, given the state of Ctrl and Shift and whether the
/// selection is locked against changes.
pub open spec fn spec_overlay_key_action(
    key: u16,
    control: bool,
    shift: bool,
    selection_locked: bool,
) -> Option<OverlayKeyAction> {
    let clear = if selection_locked {
        OverlayFallback::Nothing
    } else {
        OverlayFallback::ClearSelection
    };
    if key == VK_ESCAPE {
        Some(OverlayKeyAction::Editor { key: EditorKey::Escape, otherwise: OverlayFallback::Quit })
    } else if key == VK_RETURN {
        Some(
            OverlayKeyAction::Editor {
                key: EditorKey::Enter,
                otherwise: OverlayFallback::Finish(CaptureIntent::Clipboard),
            },
        )
    } else if key == VK_Z && control {
        Some(OverlayKeyAction::Editor { key: EditorKey::Undo, otherwise: OverlayFallback::Nothing })
    } else if key == VK_Y && control {
        Some(OverlayKeyAction::Editor { key: EditorKey::Redo, otherwise: OverlayFallback::Nothing })
    } else if key == VK_A && control && !selection_locked {
        Some(OverlayKeyAction::SelectAll)
    } else if key == VK_BACK {
        Some(OverlayKeyAction::Editor { key: EditorKey::Backspace, otherwise: clear })
    } else if key == VK_DELETE {
        Some(OverlayKeyAction::Editor { key: EditorKey::Delete, otherwise: clear })
    } else if key == VK_HOME {
        Some(OverlayKeyAction::Editor { key: EditorKey::Home, otherwise: OverlayFallback::Nothing })
    } else if key == VK_END {
        Some(OverlayKeyAction::Editor { key: EditorKey::End, otherwise: OverlayFallback::Nothing })
    } else if key == VK_LEFT {
        Some(OverlayKeyAction::Editor { key: EditorKey::Left, otherwise: nudge_for(key, shift) })
    } else if key == VK_RIGHT {
        Some(OverlayKeyAction::Editor { key: EditorKey::Right, otherwise: nudge_for(key, shift) })
    } else if key == VK_UP {
        Some(OverlayKeyAction::Editor { key: EditorKey::Up, otherwise: nudge_for(key, shift) })
    } else if key == VK_DOWN {
        Some(OverlayKeyAction::Editor { key: EditorKey::Down, otherwise: nudge_for(key, shift) })
    } else {
        None
    }
}

fn nudge(key: u16, shift: bool) -> (fallback: OverlayFallback)
    ensures
        fallback == nudge_for(key, shift),
{
    let step: i32 = if shift {
        NUDGE_STEP_SHIFTED
    } else {
        NUDGE_STEP
    };
    if key == VK_LEFT {
        OverlayFallback::Nudge { dx: -step, dy: 0 }
    } else if key == VK_RIGHT {
        OverlayFallback::Nudge { dx: step, dy: 0 }
    } else if key == VK_UP {
        OverlayFallback::Nudge { dx: 0, dy: -step }
    } else {
        OverlayFallback::Nudge { dx: 0, dy: step }
    }
}

/// Decides what a key press in the capture overlay does. `None` means that the key is ignored.
pub fn overlay_key_action(key: u16, control: bool, shift: bool, selection_locked: bool) -> (action:
    Option<OverlayKeyAction>)
    ensures
        action == spec_overlay_key_action(key, control, shift, selection_locked),
{
    let clear = if selection_locked {
        OverlayFallback::Nothing
    } else {
        OverlayFallback::ClearSelection
    };
    if key == VK_ESCAPE {
        Some(OverlayKeyAction::Editor { key: EditorKey::Escape, otherwise: OverlayFallback::Quit })
    } else if key == VK_RETURN {
        Some(
            OverlayKeyAction::Editor {
                key: EditorKey::Enter,
                otherwise: OverlayFallback::Finish(CaptureIntent::Clipboard),
            },
        )
    } else if key == VK_Z && control {
        Some(OverlayKeyAction::Editor { key: EditorKey::Undo, otherwise: OverlayFallback::Nothing })
    } else if key == VK_Y && control {
        Some(OverlayKeyAction::Editor { key: EditorKey::Redo, otherwise: OverlayFallback::Nothing })
    } else if key == VK_A && control && !selection_locked {
        Some(OverlayKeyAction::SelectAll)
    } else if key == VK_BACK {
        Some(OverlayKeyAction::Editor { key: EditorKey::Backspace, otherwise: clear })
    } else if key == VK_DELETE {
        Some(OverlayKeyAction::Editor { key: EditorKey::Delete, otherwise: clear })
    } else if key == VK_HOME {
        Some(OverlayKeyAction::Editor { key: EditorKey::Home, otherwise: OverlayFallback::Nothing })
    } else if key == VK_END {
        Some(OverlayKeyAction::Editor { key: EditorKey::End, otherwise: OverlayFallback::Nothing })
    } else if key == VK_LEFT {
        Some(OverlayKeyAction::Editor { key: EditorKey::Left, otherwise: nudge(key, shift) })
    } else if key == VK_RIGHT {
        Some(OverlayKeyAction::Editor { key: EditorKey::Right, otherwise: nudge(key, shift) })
    } else if key == VK_UP {
        Some(OverlayKeyAction::Editor { key: EditorKey::Up, otherwise: nudge(key, shift) })
    } else if key == VK_DOWN {
        Some(OverlayKeyAction::Editor { key: EditorKey::Down, otherwise: nudge(key, shift) })
    } else {
        None
    }
}

/// A locked selection is never dropped or replaced by a key: with the lock on, no key selects
/// all or clears the selection.
pub proof fn lemma_locked_selection_ignores_selection_keys(key: u16, control: bool, shift: bool)
    ensures
        match spec_overlay_key_action(key, control, shift, true) {
            Some(OverlayKeyAction::SelectAll) => false,
            Some(OverlayKeyAction::Editor { otherwise, .. }) => !(otherwise is ClearSelection),
            None => true,
        },
{
}

/// Opposite arrow keys nudge the selection by opposite offsets, and Shift makes the step ten
/// times longer.
pub proof fn lemma_opposite_arrows_nudge_back(shift: bool)
    ensures
        ({
            let left = nudge_for(VK_LEFT, shift);
            let right = nudge_for(VK_RIGHT, shift);
            let up = nudge_for(VK_UP, shift);
            let down = nudge_for(VK_DOWN, shift);
            &&& left->dx + right->dx == 0 && left->dy + right->dy == 0
            &&& up->dx + down->dx == 0 && up->dy + down->dy == 0
            &&& nudge_for(VK_RIGHT, true)->dx == 10 * nudge_for(VK_RIGHT, false)->dx
        }),
{
}

/// What a key press in the preview window does.
#[derive(Debug, Clone, Copy, PartialEq, Eq, Structural)]
pub enum PreviewKeyCommand {
    Editor(EditorKey),
    Insert(char),
    Ignore,
}

/// The text is the letter `letter` in either case.
pub open spec fn is_letter_key(text: Seq<char>, letter: char) -> bool {
    text.len() == 1 && (text[0] == letter || text[0] as u32 + 32 == letter as u32)
}

/// What the preview window does for a key. `named` is the editor key that the window system's
/// key text denotes (Escape, Return, Backspace, Delete, the arrows, Home, End), if any; `text` is
/// the key's text.
pub open spec fn spec_preview_key_command(
    named: Option<EditorKey>,
    text: Seq<char>,
    control: bool,
    shift: bool,
    alt: bool,
) -> PreviewKeyCommand {
    if control && is_letter_key(text, 'z') {
        PreviewKeyCommand::Editor(
            if shift {
                EditorKey::Redo
            } else {
                EditorKey::Undo
            },
        )
    } else if control && is_letter_key(text, 'y') {
        PreviewKeyCommand::Editor(EditorKey::Redo)
    } else if named is Some {
        PreviewKeyCommand::Editor(named->0)
    } else if control || alt {
        PreviewKeyCommand::Ignore
    } else if text.len() == 1 {
        PreviewKeyCommand::Insert(text[0])
    } else {
        PreviewKeyCommand::Ignore
    }
}

fn letter_key(text: &str, letter: char) -> (is: bool)
    requires
        letter == 'z' || letter == 'y',
    ensures
        is == is_letter_key(text@, letter),
{
    if text.unicode_len() != 1 {
        return false;
    }
    let first = text.get_char(0);
    let code = first as u32;
    let wanted = letter as u32;
    first == letter || code + 32 == wanted
}

/// Decides what a key press in the preview window does: undo and redo shortcuts first, then the
/// editing keys, and otherwise a single typed character, unless Ctrl or Alt is held.
pub fn preview_key_command(
    named: Option<EditorKey>,
    text: &str,
    control: bool,
    shift: bool,
    alt: bool,
) -> (command: PreviewKeyCommand)
    ensures
        command == spec_preview_key_command(named, text@, control, shift, alt),
{
    if control && letter_key(text, 'z') {
        PreviewKeyCommand::Editor(
            if shift {
                EditorKey::Redo
            } else {
                EditorKey::Undo
            },
        )
    } else if control && letter_key(text, 'y') {
        PreviewKeyCommand::Editor(EditorKey::Redo)
    } else if let Some(key) = named {
        PreviewKeyCommand::Editor(key)
    } else if control || alt {
        PreviewKeyCommand::Ignore
    } else if text.unicode_len() == 1 {
        PreviewKeyCommand::Insert(text.get_char(0))
    } else {
        PreviewKeyCommand::Ignore
    }
}

} // verus!

use patrick_star::export::CaptureIntent;
use patrick_star::keys::{
    overlay_key_action, preview_key_command, EditorKey, OverlayFallback, OverlayKeyAction,
    PreviewKeyCommand, VK_A, VK_BACK, VK_DELETE, VK_DOWN, VK_END, VK_ESCAPE, VK_HOME, VK_LEFT,
    VK_RETURN, VK_RIGHT, VK_UP, VK_Y, VK_Z,
};

fn editor(key: EditorKey, otherwise: OverlayFallback) -> Option<OverlayKeyAction> {
    Some(OverlayKeyAction::Editor { key, otherwise })
}

#[test]
fn escape_goes_to_the_editor_then_quits() {
    assert_eq!(
        overlay_key_action(VK_ESCAPE, false, false, false),
        editor(EditorKey::Escape, OverlayFallback::Quit)
    );
}

#[test]
fn return_goes_to_the_editor_then_copies_to_the_clipboard() {
    assert_eq!(
        overlay_key_action(VK_RETURN, false, false, true),
        editor(EditorKey::Enter, OverlayFallback::Finish(CaptureIntent::Clipboard))
    );
}

#[test]
fn undo_and_redo_need_control() {
    assert_eq!(
        overlay_key_action(VK_Z, true, false, true),
        editor(EditorKey::Undo, OverlayFallback::Nothing)
    );
    assert_eq!(
        overlay_key_action(VK_Y, true, false, true),
        editor(EditorKey::Redo, OverlayFallback::Nothing)
    );
    assert_eq!(overlay_key_action(VK_Z, false, false, true), None);
    assert_eq!(overlay_key_action(VK_Y, false, false, true), None);
}

#[test]
fn select_all_needs_control_and_an_unlocked_selection() {
    assert_eq!(overlay_key_action(VK_A, true, false, false), Some(OverlayKeyAction::SelectAll));
    assert_eq!(overlay_key_action(VK_A, true, false, true), None);
    assert_eq!(overlay_key_action(VK_A, false, false, false), None);
}

#[test]
fn backspace_and_delete_clear_only_an_unlocked_selection() {
    assert_eq!(
        overlay_key_action(VK_BACK, false, false, false),
        editor(EditorKey::Backspace, OverlayFallback::ClearSelection)
    );
    assert_eq!(
        overlay_key_action(VK_DELETE, false, false, true),
        editor(EditorKey::Delete, OverlayFallback::Nothing)
    );
}

#[test]
fn home_and_end_only_move_the_caret() {
    assert_eq!(
        overlay_key_action(VK_HOME, false, false, true),
        editor(EditorKey::Home, OverlayFallback::Nothing)
    );
    assert_eq!(
        overlay_key_action(VK_END, false, true, false),
        editor(EditorKey::End, OverlayFallback::Nothing)
    );
}

#[test]
fn arrows_nudge_by_one_or_by_ten_with_shift() {
    assert_eq!(
        overlay_key_action(VK_LEFT, false, false, false),
        editor(EditorKey::Left, OverlayFallback::Nudge { dx: -1, dy: 0 })
    );
    assert_eq!(
        overlay_key_action(VK_RIGHT, false, true, false),
        editor(EditorKey::Right, OverlayFallback::Nudge { dx: 10, dy: 0 })
    );
    assert_eq!(
        overlay_key_action(VK_UP, false, true, false),
        editor(EditorKey::Up, OverlayFallback::Nudge { dx: 0, dy: -10 })
    );
    assert_eq!(
        overlay_key_action(VK_DOWN, false, false, true),
        editor(EditorKey::Down, OverlayFallback::Nudge { dx: 0, dy: 1 })
    );
}

#[test]
fn other_keys_are_ignored_by_the_overlay() {
    assert_eq!(overlay_key_action(0x20, false, false, false), None);
    assert_eq!(overlay_key_action(0x41, false, true, false), None);
}

#[test]
fn preview_control_z_undoes_and_with_shift_redoes() {
    assert_eq!(
        preview_key_command(None, "z", true, false, false),
        PreviewKeyCommand::Editor(EditorKey::Undo)
    );
    assert_eq!(
        preview_key_command(None, "Z", true, true, false),
        PreviewKeyCommand::Editor(EditorKey::Redo)
    );
    assert_eq!(
        preview_key_command(None, "Y", true, false, false),
        PreviewKeyCommand::Editor(EditorKey::Redo)
    );
}

#[test]
fn preview_named_keys_go_to_the_editor() {
    assert_eq!(
        preview_key_command(Some(EditorKey::Home), "\u{F729}", false, false, false),
        PreviewKeyCommand::Editor(EditorKey::Home)
    );
    assert_eq!(
        preview_key_command(Some(EditorKey::Escape), "\u{1b}", true, false, true),
        PreviewKeyCommand::Editor(EditorKey::Escape)
    );
}

#[test]
fn preview_inserts_one_typed_character_without_modifiers() {
    assert_eq!(
        preview_key_command(None, "你", false, true, false),
        PreviewKeyCommand::Insert('你')
    );
    assert_eq!(preview_key_command(None, "a", true, false, false), PreviewKeyCommand::Ignore);
    assert_eq!(preview_key_command(None, "a", false, false, true), PreviewKeyCommand::Ignore);
    assert_eq!(preview_key_command(None, "ab", false, false, false), PreviewKeyCommand::Ignore);
    assert_eq!(preview_key_command(None, "", false, false, false), PreviewKeyCommand::Ignore);
    assert_eq!(preview_key_command(None, "z", false, false, false), PreviewKeyCommand::Insert('z'));
}

use patrick_star::capture::{action_effect, ActionEffect};
use patrick_star::overlay::OverlayAction;
use patrick_star::tool::Tool;

#[test]
fn toolbar_commands_quit_finish_or_reach_the_session() {
    assert_eq!(action_effect(OverlayAction::Cancel), ActionEffect::Quit);
    assert_eq!(action_effect(OverlayAction::Confirm), ActionEffect::Finish(CaptureIntent::Clipboard));
    assert_eq!(action_effect(OverlayAction::Save), ActionEffect::Finish(CaptureIntent::Save));
    assert_eq!(action_effect(OverlayAction::Pin), ActionEffect::Finish(CaptureIntent::Pin));
    assert_eq!(
        action_effect(OverlayAction::ExtractText),
        ActionEffect::Finish(CaptureIntent::ExtractText)
    );
    assert_eq!(
        action_effect(OverlayAction::ScrollCapture),
        ActionEffect::Finish(CaptureIntent::ScrollCapture)
    );
    assert_eq!(action_effect(OverlayAction::Tool(Tool::Pen)), ActionEffect::Session);
    assert_eq!(action_effect(OverlayAction::Undo), ActionEffect::Session);
    assert_eq!(action_effect(OverlayAction::Languages), ActionEffect::Nothing);
}

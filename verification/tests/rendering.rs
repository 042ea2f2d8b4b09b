use patrick_star::cursor::{capture_cursor, CursorContext, PointerCursor, Phase};
use patrick_star::geometry::Handle;
use patrick_star::overlay::{capture_actions, OverlayAction, OverlayOption};
use patrick_star::pixels::flip_rows_in_place;
use patrick_star::tool::{tool_from_index, tool_index, Tool};
use patrick_star::toolbar::{
    icon_for_action, toolbar_visual_state, ToolbarIcon, ToolbarVisualState, TOOLBAR_ICON_COUNT,
};

#[test]
fn readback_rows_are_flipped_without_changing_pixels_inside_rows() {
    let mut pixels = vec![1, 2, 3, 4, 5, 6, 7, 8, 9, 10, 11, 12];
    flip_rows_in_place(&mut pixels, 4, 3);
    assert_eq!(pixels, vec![9, 10, 11, 12, 5, 6, 7, 8, 1, 2, 3, 4]);
}

#[test]
fn bytes_after_the_flipped_rows_stay_in_place() {
    let mut pixels = vec![1, 2, 3, 4, 5, 6, 7];
    flip_rows_in_place(&mut pixels, 2, 2);
    assert_eq!(pixels, vec![3, 4, 1, 2, 5, 6, 7]);
    let mut single = vec![1, 2, 3];
    flip_rows_in_place(&mut single, 8, 1);
    assert_eq!(single, vec![1, 2, 3]);
}

#[test]
fn disabled_toolbar_actions_never_get_interactive_visuals() {
    for (active, hovered, pressed) in [
        (false, false, false),
        (true, false, false),
        (false, true, false),
        (false, false, true),
        (true, true, true),
    ] {
        assert_eq!(
            toolbar_visual_state(false, active, hovered, pressed),
            ToolbarVisualState::Disabled
        );
    }
}

#[test]
fn enabled_toolbar_visual_priority_matches_pointer_state() {
    assert_eq!(
        toolbar_visual_state(true, true, true, true),
        ToolbarVisualState::Pressed
    );
    assert_eq!(
        toolbar_visual_state(true, true, true, false),
        ToolbarVisualState::Hovered
    );
    assert_eq!(
        toolbar_visual_state(true, true, false, false),
        ToolbarVisualState::Active
    );
    assert_eq!(
        toolbar_visual_state(true, false, false, false),
        ToolbarVisualState::Idle
    );
}

#[test]
fn action_to_icon_mapping_names_the_exact_original_asset() {
    let expected = [
        (OverlayAction::Tool(Tool::Rectangle), ToolbarIcon::Rectangle, "square.svg"),
        (OverlayAction::Tool(Tool::Circle), ToolbarIcon::Circle, "circle.svg"),
        (OverlayAction::Tool(Tool::Emotion), ToolbarIcon::Emotion, "emotion.svg"),
        (OverlayAction::Tool(Tool::Arrow), ToolbarIcon::Arrow, "move-up-right.svg"),
        (OverlayAction::Tool(Tool::Pen), ToolbarIcon::Pen, "pen.svg"),
        (OverlayAction::Tool(Tool::Mosaic), ToolbarIcon::Mosaic, "mosaic.svg"),
        (OverlayAction::Tool(Tool::Text), ToolbarIcon::Text, "type.svg"),
        (OverlayAction::Undo, ToolbarIcon::Undo, "undo-2.svg"),
        (OverlayAction::ExtractText, ToolbarIcon::ExtractText, "extracttext.svg"),
        (OverlayAction::ScrollCapture, ToolbarIcon::ScrollCapture, "scroll-capture.svg"),
        (OverlayAction::Languages, ToolbarIcon::Languages, "languages.svg"),
        (OverlayAction::Save, ToolbarIcon::Save, "download.svg"),
        (OverlayAction::Pin, ToolbarIcon::Pin, "pin.svg"),
        (OverlayAction::Confirm, ToolbarIcon::Confirm, "check.svg"),
        (OverlayAction::Cancel, ToolbarIcon::Cancel, "x.svg"),
        (OverlayAction::Tool(Tool::Select), ToolbarIcon::Select, "edit.svg"),
    ];

    for (action, icon, asset_name) in expected {
        assert_eq!(icon_for_action(action), Some(icon), "wrong icon for {action:?}");
        assert_eq!(icon.asset_name(), asset_name, "wrong asset for {action:?}");
    }
    assert_eq!(
        icon_for_action(OverlayAction::Option(OverlayOption::ToggleFill)),
        None
    );
}

#[test]
fn uploaded_texture_slots_follow_the_icon_discriminants() {
    for (slot, icon) in ToolbarIcon::all().into_iter().enumerate() {
        assert_eq!(icon as usize, slot, "wrong upload slot for {icon:?}");
        assert_eq!(icon.slot(), slot, "wrong upload slot for {icon:?}");
    }
    assert_eq!(ToolbarIcon::all().len(), TOOLBAR_ICON_COUNT);
}

#[test]
fn every_capture_toolbar_action_has_exactly_one_icon() {
    let mapped: Vec<ToolbarIcon> = capture_actions()
        .iter()
        .map(|action| icon_for_action(*action).expect("capture action is missing an icon"))
        .collect();
    assert_eq!(mapped.len(), capture_actions().len());
    for (index, icon) in mapped.iter().enumerate() {
        assert!(!mapped[..index].contains(icon), "capture actions share the {icon:?} icon");
    }
}

#[test]
fn tool_list_positions_round_trip() {
    for index in 0..8 {
        let tool = tool_from_index(index).unwrap();
        assert_eq!(tool_index(tool), index);
    }
    assert_eq!(tool_from_index(8), None);
    assert_eq!(tool_from_index(-1), None);
    assert_eq!(tool_from_index(7), Some(Tool::Text));
}

fn ready(tool: Tool, inside: bool) -> CursorContext {
    CursorContext {
        toolbar_hovered: false,
        phase: Phase::Ready,
        selection_drag_handle: None,
        editor_drag_handle: None,
        editing_text: false,
        editor_grip: None,
        selection_locked: true,
        selection_grip: None,
        text_selected: false,
        inside_selection: inside,
        tool,
    }
}

#[test]
fn drawing_tools_and_the_toolbar_use_distinct_cursors() {
    let mut context = ready(Tool::Rectangle, true);
    assert_eq!(capture_cursor(context), PointerCursor::Crosshair);
    context.toolbar_hovered = true;
    assert_eq!(capture_cursor(context), PointerCursor::Hand);
    assert_eq!(capture_cursor(ready(Tool::Rectangle, false)), PointerCursor::NotAllowed);
    assert_eq!(capture_cursor(ready(Tool::Text, true)), PointerCursor::IBeam);
    assert_eq!(capture_cursor(ready(Tool::Select, false)), PointerCursor::Arrow);
}

#[test]
fn mosaic_hides_the_cursor_only_inside_the_capture() {
    assert_eq!(capture_cursor(ready(Tool::Mosaic, true)), PointerCursor::Hidden);
    assert_eq!(capture_cursor(ready(Tool::Mosaic, false)), PointerCursor::NotAllowed);
}

#[test]
fn gestures_and_grips_decide_before_the_tool() {
    let mut context = ready(Tool::Pen, true);
    context.phase = Phase::Resizing;
    context.selection_drag_handle = Some(Handle::Left);
    assert_eq!(capture_cursor(context), PointerCursor::ResizeEastWest);
    let mut context = ready(Tool::Pen, true);
    context.editing_text = true;
    context.editor_grip = Some(Handle::Move);
    assert_eq!(capture_cursor(context), PointerCursor::IBeam);
    let mut context = ready(Tool::Select, true);
    context.selection_locked = false;
    context.selection_grip = Some(Handle::TopRight);
    assert_eq!(capture_cursor(context), PointerCursor::ResizeNorthEastSouthWest);
    let mut context = ready(Tool::Select, true);
    context.editor_grip = Some(Handle::Move);
    assert_eq!(capture_cursor(context), PointerCursor::Move);
    context.text_selected = true;
    assert_eq!(capture_cursor(context), PointerCursor::Arrow);
}

use patrick_star::caret::{
    caret_at_line_column, caret_line_edge, caret_moved_by, caret_vertical,
};
use patrick_star::overlay::clamp_mosaic_block_size;

fn chars(text: &str) -> Vec<char> {
    text.chars().collect()
}

#[test]
fn caret_moves_within_the_text() {
    assert_eq!(caret_moved_by(3, 1, -5), 0);
    assert_eq!(caret_moved_by(3, 1, 1), 2);
    assert_eq!(caret_moved_by(3, 2, 9), 3);
    assert_eq!(caret_moved_by(3, 0, isize::MIN), 0);
}

#[test]
fn home_and_end_stay_on_the_caret_line() {
    let text = chars("ab\ncde\nf");
    assert_eq!(caret_line_edge(&text, 4, false), 3);
    assert_eq!(caret_line_edge(&text, 4, true), 6);
    assert_eq!(caret_line_edge(&text, 8, true), 8);
    assert_eq!(caret_line_edge(&text, 1, false), 0);
}

#[test]
fn vertical_moves_keep_the_column_where_the_line_allows() {
    let text = chars("ab\ncde\nf");
    assert_eq!(caret_vertical(&text, 1, true), Some(4));
    assert_eq!(caret_vertical(&text, 5, true), Some(8));
    assert_eq!(caret_vertical(&text, 8, true), None);
    assert_eq!(caret_vertical(&text, 5, false), Some(2));
    assert_eq!(caret_vertical(&text, 1, false), None);
}

#[test]
fn clicks_map_to_the_nearest_line_and_column() {
    let text = chars("A\u{4F60}B\nxy");
    assert_eq!(caret_at_line_column(&text, 0, 2), 2);
    assert_eq!(caret_at_line_column(&text, 0, 9), 3);
    assert_eq!(caret_at_line_column(&text, 1, 1), 5);
    assert_eq!(caret_at_line_column(&text, 7, 0), 4);
}

#[test]
fn mosaic_block_size_is_kept_between_four_and_sixty_four() {
    assert_eq!(clamp_mosaic_block_size(0), 4);
    assert_eq!(clamp_mosaic_block_size(37), 37);
    assert_eq!(clamp_mosaic_block_size(65), 64);
}

use patrick_star::pixels::{is_whole_rgba_bitmap, white_alpha_mask};
use patrick_star::text::emoji_base_character;

#[test]
fn icon_mask_keeps_alpha_and_whitens_colour() {
    assert_eq!(
        white_alpha_mask(&[10, 20, 30, 40, 0, 0, 0, 255, 9]),
        vec![255, 255, 255, 40, 255, 255, 255, 255]
    );
    assert!(white_alpha_mask(&[]).is_empty());
}

#[test]
fn glyph_bitmaps_must_be_whole_and_non_empty() {
    assert!(is_whole_rgba_bitmap(2, 3, 24));
    assert!(!is_whole_rgba_bitmap(2, 3, 23));
    assert!(!is_whole_rgba_bitmap(0, 3, 0));
    assert!(!is_whole_rgba_bitmap(2, 0, 0));
    assert!(!is_whole_rgba_bitmap(u32::MAX, u32::MAX, usize::MAX));
}

#[test]
fn emoji_base_skips_presentation_selectors() {
    assert_eq!(emoji_base_character("\u{2764}\u{fe0f}"), Some('\u{2764}'));
    assert_eq!(emoji_base_character("\u{fe0f}\u{1f600}"), Some('\u{1f600}'));
    assert_eq!(emoji_base_character("\u{fe0e}\u{fe0f}"), None);
    assert_eq!(emoji_base_character(""), None);
}

use patrick_star::overlay::{option_at, option_grid};

fn option_bar(tool: Tool) -> (usize, Vec<OverlayAction>) {
    let (count, _) = option_grid(tool).expect("tool should have context options");
    let actions = (0..count)
        .map(|index| OverlayAction::Option(option_at(tool, index).expect("option in the bar")))
        .collect();
    (count, actions)
}

#[test]
fn context_options_have_complete_command_order() {
    let colors = || (0..7).map(OverlayOption::Color);
    for tool in [Tool::Rectangle, Tool::Circle] {
        let (count, actual) = option_bar(tool);
        let expected: Vec<_> = (0..3)
            .map(OverlayOption::StrokeWidth)
            .chain(std::iter::once(OverlayOption::ToggleFill))
            .chain(colors())
            .map(OverlayAction::Option)
            .collect();
        assert_eq!(count, 11, "wrong count for {tool:?}");
        assert_eq!(actual, expected, "wrong command order for {tool:?}");
        assert!(option_at(tool, 11).is_none());
    }
    for tool in [Tool::Arrow, Tool::Pen] {
        let (count, actual) = option_bar(tool);
        let expected: Vec<_> =
            (0..3).map(OverlayOption::StrokeWidth).chain(colors()).map(OverlayAction::Option).collect();
        assert_eq!(count, 10, "wrong count for {tool:?}");
        assert_eq!(actual, expected, "wrong command order for {tool:?}");
        assert!(option_at(tool, 10).is_none());
    }
    let (count, actual) = option_bar(Tool::Text);
    let expected: Vec<_> =
        (0..3).map(OverlayOption::TextSize).chain(colors()).map(OverlayAction::Option).collect();
    assert_eq!(count, 10);
    assert_eq!(actual, expected, "wrong command order for Text");
    assert!(option_at(Tool::Text, 10).is_none());

    let (count, actual) = option_bar(Tool::Mosaic);
    let expected: Vec<_> = (0..3).map(OverlayOption::MosaicBlock).map(OverlayAction::Option).collect();
    assert_eq!(count, 3);
    assert_eq!(actual, expected, "wrong command order for Mosaic");
    assert!(option_at(Tool::Mosaic, 3).is_none());

    let (count, actual) = option_bar(Tool::Emotion);
    let expected: Vec<_> = (0..40)
        .map(|index| OverlayAction::Option(OverlayOption::Emotion(index)))
        .collect();
    assert_eq!(count, 40);
    assert_eq!(actual, expected, "wrong command order for Emotion");
    assert!(option_at(Tool::Emotion, 40).is_none());
}

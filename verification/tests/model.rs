use patrick_star::capture::{overlay_features, SCROLL_MATCHER_AVAILABLE};
use patrick_star::cursor::{resize_cursor, PointerCursor};
use patrick_star::export::{ExportError, RgbaFrame};
use patrick_star::geometry::{Handle, RectI};
use patrick_star::history::History;
use patrick_star::overlay::{capture_actions, scroll_actions, OverlayAction, ScrollAction};
use patrick_star::platform::{Availability, Capabilities};
use patrick_star::tool::Tool;

fn capabilities(value: Availability) -> Capabilities {
    Capabilities {
        desktop_capture: value,
        window_detection: value,
        image_clipboard: value,
        text_clipboard: value,
        image_save: value,
        pinned_image: value,
        text_recognition: value,
        scroll_capture_source: value,
        scroll_preview: value,
        global_shortcut: value,
        tray: value,
        capture_exclusion: value,
        window_frame: value,
    }
}

#[test]
fn overlay_commands_follow_composed_platform_capabilities() {
    let features = overlay_features(capabilities(Availability::Native));
    assert!(features.extract_text);
    assert_eq!(features.scroll_capture, SCROLL_MATCHER_AVAILABLE);
    assert!(features.save);
    assert!(features.pin);
    assert!(!features.languages);
}

#[test]
fn composed_commands_are_disabled_when_one_required_capability_is_missing() {
    let mut values = capabilities(Availability::Portal);
    values.text_clipboard = Availability::Unavailable;
    values.scroll_preview = Availability::Unavailable;
    values.image_save = Availability::Unavailable;
    values.pinned_image = Availability::Unavailable;
    let features = overlay_features(values);
    assert!(!features.extract_text);
    assert!(!features.scroll_capture);
    assert!(!features.save);
    assert!(!features.pin);
}

#[test]
fn resize_handles_map_to_native_cursor_semantics() {
    assert_eq!(resize_cursor(Handle::TopLeft), PointerCursor::ResizeNorthWestSouthEast);
    assert_eq!(resize_cursor(Handle::TopRight), PointerCursor::ResizeNorthEastSouthWest);
    assert_eq!(resize_cursor(Handle::Top), PointerCursor::ResizeNorthSouth);
    assert_eq!(resize_cursor(Handle::Right), PointerCursor::ResizeEastWest);
    assert_eq!(resize_cursor(Handle::Start), resize_cursor(Handle::End));
}

#[test]
fn rgba_frame_requires_exact_top_down_storage() {
    let bounds = RectI::new(-10, 20, 2, 2);
    let frame = RgbaFrame::new(bounds, vec![0; 16]).unwrap();
    assert_eq!(frame.bounds(), bounds);
    assert_eq!(frame.width(), 2);
    assert_eq!(frame.height(), 2);
    assert_eq!(frame.pixels().len(), 16);
    assert!(matches!(
        RgbaFrame::new(bounds, vec![0; 15]),
        Err(ExportError::InvalidPixelLength {
            expected: 16,
            actual: 15
        })
    ));
}

#[test]
fn undo_redo_and_branching_are_consistent() {
    let mut history = History::new(0);
    let previous = *history.current();
    *history.edit() = 1;
    assert!(history.commit_from(previous));
    let previous = *history.current();
    *history.edit() = 2;
    assert!(history.commit_from(previous));
    assert!(history.undo());
    assert_eq!(*history.current(), 1);
    assert!(history.redo());
    assert_eq!(*history.current(), 2);
    assert!(history.undo());
    let previous = *history.current();
    *history.edit() = 9;
    assert!(history.commit_from(previous));
    assert!(!history.can_redo());
}

#[test]
fn in_place_gesture_records_its_baseline_once() {
    let mut history = History::new(vec![1]);
    let baseline = history.current().clone();
    history.edit().push(2);
    history.edit().push(3);
    assert!(history.commit_from(baseline));
    assert!(history.undo());
    assert_eq!(history.current(), &vec![1]);
}

#[test]
fn reset_discards_both_directions() {
    let mut history = History::new(0);
    let previous = *history.current();
    *history.edit() = 1;
    history.commit_from(previous);
    history.undo();
    history.reset(7);
    assert_eq!(*history.current(), 7);
    assert!(!history.can_undo());
    assert!(!history.can_redo());
}

#[test]
fn capture_actions_keep_the_original_complete_order() {
    assert_eq!(
        capture_actions(),
        [
            OverlayAction::Tool(Tool::Rectangle),
            OverlayAction::Tool(Tool::Circle),
            OverlayAction::Tool(Tool::Emotion),
            OverlayAction::Tool(Tool::Arrow),
            OverlayAction::Tool(Tool::Pen),
            OverlayAction::Tool(Tool::Mosaic),
            OverlayAction::Tool(Tool::Text),
            OverlayAction::Undo,
            OverlayAction::ExtractText,
            OverlayAction::ScrollCapture,
            OverlayAction::Languages,
            OverlayAction::Save,
            OverlayAction::Pin,
            OverlayAction::Confirm,
            OverlayAction::Cancel,
        ]
    );
}

#[test]
fn scrolling_actions_keep_the_original_complete_order() {
    assert_eq!(
        scroll_actions(),
        [
            ScrollAction::Edit,
            ScrollAction::Save,
            ScrollAction::Cancel,
            ScrollAction::Confirm,
        ]
    );
}

use patrick_star::export::ExportRegion;

#[test]
fn rounded_selection_is_clipped_to_the_desktop() {
    let desktop = RectI::new(-1920, -200, 3840, 1280);
    let region = ExportRegion::from_rounded_selection(true, -10, 20, 121, 81, desktop).unwrap();
    assert_eq!(region.local(), RectI::new(0, 20, 121, 61));
    assert_eq!(region.desktop(), RectI::new(-1920, -180, 121, 61));
}

#[test]
fn negative_desktop_origin_shifts_the_desktop_crop() {
    let desktop = RectI::new(-2560, -1440, 5120, 2880);
    let region = ExportRegion::from_rounded_selection(true, 2500, 1400, 2600, 1500, desktop).unwrap();
    assert_eq!(region.local(), RectI::new(2500, 1400, 100, 100));
    assert_eq!(region.desktop(), RectI::new(-60, -40, 100, 100));
}

#[test]
fn export_errors_come_in_order() {
    let desktop = RectI::new(0, 0, 100, 100);
    assert_eq!(
        ExportRegion::from_rounded_selection(true, 10, 10, 10, 20, desktop),
        Err(ExportError::EmptySelection)
    );
    assert_eq!(
        ExportRegion::from_rounded_selection(false, 0, 0, 10, 10, desktop),
        Err(ExportError::NonFiniteSelection)
    );
    assert_eq!(
        ExportRegion::from_rounded_selection(false, 0, 0, 10, 10, RectI::new(0, 0, 0, 10)),
        Err(ExportError::EmptyDesktop)
    );
    assert_eq!(
        ExportRegion::from_rounded_selection(true, 5, 0, 10, 10, RectI::new(i32::MAX - 2, 0, 100, 100)),
        Err(ExportError::CoordinateOverflow)
    );
}

#[test]
fn length_errors_name_both_lengths_in_decimal() {
    assert_eq!(
        ExportError::InvalidPixelLength { expected: 16, actual: 15 }.message(),
        "invalid RGBA frame length: expected 16, got 15"
    );
    assert_eq!(
        patrick_star::frame::FrameError::InvalidLength { expected: 0, actual: 1_234_567_890 }.message(),
        "invalid desktop frame length: expected 0, got 1234567890"
    );
    let mut text = String::from("n=");
    patrick_star::text::append_decimal(&mut text, usize::MAX);
    assert_eq!(text, format!("n={}", usize::MAX));
}

use patrick_star::capture::{
    check_desktop_capture, check_intent_services, check_shell_services, MissingService,
};
use patrick_star::export::CaptureIntent;

#[test]
fn intents_need_their_platform_services() {
    let mut values = capabilities(Availability::Portal);
    assert_eq!(check_shell_services(values), Ok(()));
    assert_eq!(check_desktop_capture(values), Ok(()));
    values.text_clipboard = Availability::Unavailable;
    assert_eq!(
        check_intent_services(values, CaptureIntent::ExtractText),
        Err(MissingService::TextClipboard)
    );
    values.text_recognition = Availability::Unavailable;
    assert_eq!(
        check_intent_services(values, CaptureIntent::ExtractText),
        Err(MissingService::TextRecognition)
    );
    values.image_clipboard = Availability::Unavailable;
    assert_eq!(
        check_intent_services(values, CaptureIntent::Clipboard),
        Err(MissingService::ImageClipboard)
    );
    assert_eq!(check_intent_services(values, CaptureIntent::ScrollCapture), Ok(()));
    assert_eq!(check_intent_services(values, CaptureIntent::Save), Ok(()));
    let none = capabilities(Availability::Unavailable);
    assert_eq!(check_shell_services(none), Err(MissingService::Tray));
    assert_eq!(
        check_shell_services(Capabilities { tray: Availability::Native, ..none }),
        Err(MissingService::GlobalShortcut)
    );
    assert_eq!(check_desktop_capture(none), Err(MissingService::DesktopCapture));
    assert_eq!(
        MissingService::Tray.message(),
        "the system tray is unavailable on this platform session"
    );
}

use std::collections::HashMap;
use std::time::Instant;

use patrick_star::export::RgbaFrame;
use patrick_star::frame::{DesktopFrame, FrameError};
use patrick_star::geometry::RectI;
use patrick_star::hotkey::{
    map_shortcut, next_registration_id, ShortcutError, MOD_ALT, MOD_CONTROL, MOD_SHIFT, MOD_WIN,
    VK_F1,
};
use patrick_star::ocr::{check_ocr_dimensions, document_text, OcrError};
use patrick_star::pixels::{bgra_to_rgba, write_bgra};
use patrick_star::platform::{
    CapturedScrollFrame, ScrollCaptureIntent, ScrollDirection, Shortcut, ShortcutKey,
    ShortcutModifiers,
};
use patrick_star::save::{default_extension, format_for_extension, save_format};
use patrick_star::platform::ImageFileFormat;
use patrick_star::scroll::placement::{
    preview_bounds_for_document, right_preview_geometry, scaled_preview_height,
};
use patrick_star::scroll::worker::{
    direction_from_wheel_state, finish_code, finish_intent, resolve_direction,
    wheel_state_for_delta, LatestFrameSlot, SpliceGate,
};
use patrick_star::text::unicode_text_payload;
use patrick_star::window::{
    hit_test_region, HTBOTTOMRIGHT, HTCAPTION, HTCLIENT, HTLEFT, HTTOP, HTTOPLEFT,
};

#[test]
fn validates_pixel_length() {
    let bounds = RectI::new(-10, 5, 2, 3);
    assert!(DesktopFrame::new(bounds, vec![0; 24]).is_ok());
    assert!(DesktopFrame::new(bounds, vec![0; 23]).is_err());
}

#[test]
fn reads_top_down_bgra_pixels() {
    let frame = DesktopFrame::new(RectI::new(0, 0, 2, 1), vec![1, 2, 3, 4, 5, 6, 7, 8]).unwrap();
    assert_eq!(frame.pixel_at_local(1, 0), Some([5, 6, 7, 8]));
    assert_eq!(frame.pixel_at_local(-1, 0), None);
}

#[test]
fn desktop_frame_errors_are_checked_in_order() {
    assert_eq!(
        DesktopFrame::new(RectI::new(0, 0, 70_000, 70_000), Vec::new()).unwrap_err(),
        FrameError::DimensionsOverflow
    );
    assert_eq!(
        DesktopFrame::new(RectI::new(0, 0, 0, 3), Vec::new()).unwrap_err(),
        FrameError::Empty
    );
    assert_eq!(
        DesktopFrame::new(RectI::new(0, 0, 2, 2), vec![0; 15]).unwrap_err(),
        FrameError::InvalidLength { expected: 16, actual: 15 }
    );
    assert_eq!(
        FrameError::Empty.message(),
        "desktop frame must not be empty".to_string()
    );
}

#[test]
fn pixels_outside_the_frame_are_none() {
    let frame = DesktopFrame::new(RectI::new(7, 9, 2, 2), (0..16).collect()).unwrap();
    assert_eq!(frame.pixel_at_local(1, 1), Some([12, 13, 14, 15]));
    assert_eq!(frame.pixel_at_local(2, 0), None);
    assert_eq!(frame.pixel_at_local(0, 2), None);
    assert_eq!(frame.pixel_at_local(0, -1), None);
}

#[test]
fn gdi_pixels_are_converted_to_opaque_rgba() {
    let mut pixels = [3, 2, 1, 0, 30, 20, 10, 123];
    bgra_to_rgba(&mut pixels);
    assert_eq!(pixels, [1, 2, 3, 255, 10, 20, 30, 255]);
}

#[test]
fn a_partial_trailing_pixel_is_left_as_it_is() {
    let mut pixels = [3, 2, 1, 0, 9, 8];
    bgra_to_rgba(&mut pixels);
    assert_eq!(pixels, [1, 2, 3, 255, 9, 8]);
}

#[test]
fn rgba_pixels_are_written_as_standard_bgra_dib_pixels() {
    let mut destination = [0; 8];
    write_bgra(&mut destination, &[1, 2, 3, 4, 10, 20, 30, 40]);
    assert_eq!(destination, [3, 2, 1, 4, 30, 20, 10, 40]);
}

#[test]
fn unicode_text_has_one_terminal_nul_and_preserves_non_bmp_characters() {
    let payload = unicode_text_payload("OCR \u{1f680}");
    assert_eq!(payload.last(), Some(&0));
    assert_eq!(payload.iter().filter(|unit| **unit == 0).count(), 1);
    assert_eq!(
        String::from_utf16(&payload[..payload.len() - 1]).unwrap(),
        "OCR \u{1f680}"
    );
}

#[test]
fn surrogate_pairs_follow_the_utf16_formula() {
    assert_eq!(unicode_text_payload("\u{1f680}"), vec![0xD83D, 0xDE80, 0]);
    assert_eq!(unicode_text_payload(""), vec![0]);
    assert_eq!(unicode_text_payload("A\u{4F60}"), vec![0x41, 0x4F60, 0]);
}

fn captured(seed: u8) -> CapturedScrollFrame {
    CapturedScrollFrame {
        frame: RgbaFrame::new(RectI::new(0, 0, 1, 1), vec![seed, seed, seed, 255]).unwrap(),
        captured_at: Instant::now(),
        direction: ScrollDirection::Unknown,
        wheel_sequence: 0,
        native_scroll_position: None,
        discontinuity: false,
    }
}

#[test]
fn latest_frame_slot_overwrites_an_unconsumed_frame() {
    let mut slot: LatestFrameSlot<Result<CapturedScrollFrame, String>> = LatestFrameSlot::new();
    slot.replace(Ok(captured(1))).unwrap();
    slot.replace(Ok(captured(2))).unwrap();
    assert_eq!(slot.take().unwrap().unwrap().frame.pixels()[0], 2);
    assert!(slot.take().is_none());
}

#[test]
fn a_closed_frame_slot_refuses_frames_and_drops_the_pending_one() {
    let mut slot: LatestFrameSlot<u32> = LatestFrameSlot::new();
    slot.replace(5).unwrap();
    slot.close();
    assert!(slot.replace(6).is_err());
    assert_eq!(slot.take(), None);
}

#[test]
fn preview_height_tracks_document_aspect_until_the_screen_limit() {
    assert_eq!(scaled_preview_height(280, 560, 240, 900), 120);
    assert_eq!(scaled_preview_height(280, 560, 960, 900), 480);
    assert_eq!(scaled_preview_height(280, 560, 2400, 900), 900);
}

#[test]
fn preview_height_rounds_up_and_counts_zero_as_one() {
    assert_eq!(scaled_preview_height(280, 600, 400, 588), 187);
    assert_eq!(scaled_preview_height(0, 0, 0, 0), 1);
    assert_eq!(scaled_preview_height(3, 2, 1, 10), 2);
}

#[test]
fn growing_preview_keeps_its_bottom_edge_anchored() {
    let desktop =
        DesktopFrame::new(RectI::new(0, 0, 1920, 1080), vec![0; 1920 * 1080 * 4]).unwrap();
    let initial = RgbaFrame::new(RectI::new(300, 200, 600, 400), vec![0; 600 * 400 * 4]).unwrap();
    let geometry = right_preview_geometry(&desktop, &initial).unwrap();
    assert_eq!(geometry.bounds.bottom(), geometry.bottom_anchor);
    assert_eq!(geometry.bounds.height(), 187);
}

#[test]
fn preview_goes_left_of_a_selection_at_the_right_edge() {
    let desktop = DesktopFrame::new(RectI::new(0, 0, 1000, 800), vec![0; 1000 * 800 * 4]).unwrap();
    let initial = RgbaFrame::new(RectI::new(700, 100, 200, 100), vec![0; 200 * 100 * 4]).unwrap();
    let geometry = right_preview_geometry(&desktop, &initial).unwrap();
    assert_eq!(geometry.bounds.left, 700 - 280 - 12);
    assert_eq!(geometry.bounds.width, 280);
    assert_eq!(geometry.bottom_anchor, 200);
    assert_eq!(geometry.maximum_height, 188);
    assert_eq!(geometry.bounds.height, 140);
    assert_eq!(geometry.bounds.top, 60);
}

#[test]
fn resized_preview_keeps_its_bottom_edge() {
    let bounds = preview_bounds_for_document(912, 280, 600, 588, 600, 800);
    assert_eq!(bounds.height, 374);
    assert_eq!(bounds.bottom(), 600);
    let tallest = preview_bounds_for_document(912, 280, 600, 588, 600, 30_000);
    assert_eq!(tallest.height, 588);
    assert_eq!(tallest.top, 12);
}

#[test]
fn maps_control_alt_s() {
    let shortcut = Shortcut {
        modifiers: ShortcutModifiers {
            control: true,
            alt: true,
            shift: false,
            logo: false,
        },
        key: ShortcutKey::Character('s'),
    };

    let (modifiers, virtual_key) = map_shortcut(shortcut).unwrap();

    assert_eq!(modifiers, MOD_CONTROL | MOD_ALT);
    assert_eq!(virtual_key, u32::from(b'S'));
}

#[test]
fn function_keys_digits_and_unmapped_characters() {
    let all = ShortcutModifiers { control: true, alt: true, shift: true, logo: true };
    assert_eq!(
        map_shortcut(Shortcut { modifiers: all, key: ShortcutKey::Function(24) }),
        Ok((MOD_CONTROL | MOD_ALT | MOD_SHIFT | MOD_WIN, VK_F1 + 23))
    );
    assert_eq!(
        map_shortcut(Shortcut { modifiers: ShortcutModifiers::none(), key: ShortcutKey::Character('7') }),
        Ok((0, u32::from(b'7')))
    );
    assert_eq!(
        map_shortcut(Shortcut { modifiers: all, key: ShortcutKey::Function(0) }),
        Err(ShortcutError::FunctionKeyOutOfRange(0))
    );
    assert_eq!(
        map_shortcut(Shortcut { modifiers: all, key: ShortcutKey::Function(25) }),
        Err(ShortcutError::FunctionKeyOutOfRange(25))
    );
    assert_eq!(
        map_shortcut(Shortcut { modifiers: all, key: ShortcutKey::Character('é') }),
        Err(ShortcutError::LayoutDependentCharacter('é'))
    );
}

fn live(ids: &[i32]) -> HashMap<i32, ()> {
    ids.iter().map(|id| (*id, ())).collect()
}

#[test]
fn registration_ids_skip_live_ones_and_wrap_around() {
    assert_eq!(next_registration_id(1, &live(&[])), Some((1, 2)));
    assert_eq!(next_registration_id(1, &live(&[1, 2])), Some((3, 4)));
    assert_eq!(next_registration_id(0xBFFF, &live(&[])), Some((0xBFFF, 1)));
    assert_eq!(next_registration_id(0xBFFF, &live(&[0xBFFF])), Some((1, 2)));
    let all: Vec<i32> = (1..=0xBFFF).collect();
    assert_eq!(next_registration_id(40, &live(&all)), None);
}

#[test]
fn resize_edges_take_priority_over_custom_titlebar() {
    assert_eq!(hit_test_region(1080, 720, 2, 2, 8, 36, 132), HTTOPLEFT);
    assert_eq!(hit_test_region(1080, 720, 500, 2, 8, 36, 132), HTTOP);
    assert_eq!(hit_test_region(1080, 720, 500, 20, 8, 36, 132), HTCAPTION);
}

#[test]
fn titlebar_buttons_remain_slint_client_area() {
    assert_eq!(hit_test_region(1080, 720, 1000, 20, 8, 36, 132), HTCLIENT);
    assert_eq!(hit_test_region(1080, 720, 500, 100, 8, 36, 132), HTCLIENT);
}

#[test]
fn maximized_window_has_no_resize_edge() {
    assert_eq!(hit_test_region(1080, 720, 2, 2, 0, 36, 132), HTCAPTION);
}

#[test]
fn bottom_right_corner_and_left_edge() {
    assert_eq!(hit_test_region(1080, 720, 1075, 715, 8, 36, 132), HTBOTTOMRIGHT);
    assert_eq!(hit_test_region(1080, 720, 3, 400, 8, 36, 132), HTLEFT);
    assert_eq!(hit_test_region(i32::MIN, 720, 0, 400, i32::MAX, 36, 132), HTTOPLEFT);
}

#[test]
fn native_position_supplies_direction_when_the_platform_has_no_wheel_hint() {
    let mut previous = Some(10);
    let mut frame = captured(0);
    frame.native_scroll_position = Some(12);
    assert_eq!(resolve_direction(&frame, &mut previous), ScrollDirection::Down);
}

#[test]
fn wheel_hint_wins_and_positions_are_remembered() {
    let mut previous = Some(10);
    let mut frame = captured(0);
    frame.direction = ScrollDirection::Up;
    frame.native_scroll_position = Some(40);
    assert_eq!(resolve_direction(&frame, &mut previous), ScrollDirection::Up);
    assert_eq!(previous, Some(40));
    frame.direction = ScrollDirection::Unknown;
    frame.native_scroll_position = None;
    assert_eq!(resolve_direction(&frame, &mut previous), ScrollDirection::Unknown);
    assert_eq!(previous, Some(40));
}

#[test]
fn stale_splice_ids_are_refused() {
    let mut gate = SpliceGate::new();
    assert!(gate.accept(2));
    assert!(!gate.accept(2));
    assert!(!gate.accept(1));
    assert!(gate.accept(5));
}

#[test]
fn wheel_notches_and_finish_requests_round_trip() {
    assert_eq!(wheel_state_for_delta(-120), Some(1));
    assert_eq!(wheel_state_for_delta(120), Some(-1));
    assert_eq!(wheel_state_for_delta(0), None);
    assert_eq!(direction_from_wheel_state(1), ScrollDirection::Down);
    assert_eq!(direction_from_wheel_state(-1), ScrollDirection::Up);
    assert_eq!(direction_from_wheel_state(0), ScrollDirection::Unknown);
    for intent in [ScrollCaptureIntent::Edit, ScrollCaptureIntent::Save, ScrollCaptureIntent::Clipboard] {
        assert_eq!(finish_intent(finish_code(intent)), Some(intent));
    }
    assert_eq!(finish_intent(0), None);
    assert_eq!(finish_intent(4), None);
}

#[test]
fn document_text_preserves_line_boundaries_without_trailing_newline() {
    let lines = vec!["first".to_owned(), "second".to_owned()];
    assert_eq!(document_text(&lines), "first\nsecond");
}

#[test]
fn empty_document_produces_empty_text() {
    let lines: Vec<String> = Vec::new();
    assert!(document_text(&lines).is_empty());
}

#[test]
fn ocr_images_larger_than_the_limit_are_refused() {
    let image = RgbaFrame::new(RectI::new(0, 0, 3, 2), vec![0; 24]).unwrap();
    assert_eq!(check_ocr_dimensions(&image, 3), Ok(()));
    assert_eq!(
        check_ocr_dimensions(&image, 2),
        Err(OcrError::ImageTooLarge { width: 3, height: 2, maximum: 2 })
    );
}

#[test]
fn recognized_extensions_decide_the_saved_format() {
    assert_eq!(format_for_extension(Some("JPEG")), Some(ImageFileFormat::Jpeg));
    assert_eq!(format_for_extension(Some("Png")), Some(ImageFileFormat::Png));
    assert_eq!(format_for_extension(Some("data")), None);
    assert_eq!(format_for_extension(None), None);
    assert_eq!(save_format(Some("jpeg"), ImageFileFormat::Png), (ImageFileFormat::Jpeg, None));
    assert_eq!(save_format(None, ImageFileFormat::Png), (ImageFileFormat::Png, Some("png")));
    assert_eq!(save_format(Some("data"), ImageFileFormat::Jpeg), (ImageFileFormat::Jpeg, Some("jpg")));
    assert_eq!(default_extension(ImageFileFormat::Jpeg), "jpg");
}

use patrick_star::capture::{DetectedTarget, TargetKind};
use patrick_star::geometry::PointI;
use patrick_star::locator::{
    detected_target, rect_area, rect_from_edges, smallest_control_at, window_at,
};
use patrick_star::text::Utf16Decoder;

#[test]
fn window_edges_become_rectangles_only_with_an_area() {
    assert_eq!(rect_from_edges(-10, 5, 30, 25), Some(RectI::new(-10, 5, 40, 20)));
    assert_eq!(rect_from_edges(10, 5, 10, 25), None);
    assert_eq!(rect_from_edges(i32::MIN, 0, i32::MAX, 1), Some(RectI::new(i32::MIN, 0, u32::MAX, 1)));
    assert_eq!(rect_area(RectI::new(0, 0, u32::MAX, u32::MAX)), u32::MAX as u64 * u32::MAX as u64);
}

#[test]
fn the_frontmost_window_and_the_smallest_control_are_found() {
    let windows = [RectI::new(0, 0, 100, 100), RectI::new(0, 0, 500, 500)];
    assert_eq!(window_at(&windows, PointI::new(50, 50)), Some(0));
    assert_eq!(window_at(&windows, PointI::new(200, 200)), Some(1));
    assert_eq!(window_at(&windows, PointI::new(600, 0)), None);
    let controls = [
        RectI::new(0, 0, 80, 80),
        RectI::new(10, 10, 20, 20),
        RectI::new(10, 10, 20, 20),
        RectI::new(60, 60, 5, 5),
    ];
    assert_eq!(smallest_control_at(&controls, PointI::new(15, 15)), Some(1));
    assert_eq!(smallest_control_at(&controls, PointI::new(70, 10)), Some(0));
    assert_eq!(smallest_control_at(&controls, PointI::new(90, 90)), None);
    assert_eq!(
        detected_target(windows[0], Some(controls[1])),
        DetectedTarget { bounds: controls[1], kind: TargetKind::Control }
    );
    assert_eq!(
        detected_target(windows[0], None),
        DetectedTarget { bounds: windows[0], kind: TargetKind::Window }
    );
}

#[test]
fn surrogate_pairs_from_character_messages_are_joined() {
    let mut decoder = Utf16Decoder::new();
    assert_eq!(decoder.push(0xD83D), None);
    assert_eq!(decoder.push(0xDE80), Some('\u{1f680}'));
    assert_eq!(decoder.push(0xDE80), None);
    assert_eq!(decoder.push(0x41), Some('A'));
    assert_eq!(decoder.push(0xD83D), None);
    assert_eq!(decoder.push(0x42), Some('B'));
    assert_eq!(decoder.push(0xDE80), None);
}

use patrick_star::text::byte_index;

#[test]
fn byte_index_counts_utf8_widths_and_clamps_past_the_end() {
    let content = "A你B";
    assert_eq!(byte_index(content, 0), 0);
    assert_eq!(byte_index(content, 1), 1);
    assert_eq!(byte_index(content, 2), 4);
    assert_eq!(byte_index(content, 3), 5);
    assert_eq!(byte_index(content, 9), 5);
    assert_eq!(byte_index("", 3), 0);
}

use patrick_star::ocr::{language_label, report_recognition_failure, report_recognized_text, OcrLanguage};
use patrick_star::text::is_blank;

#[test]
fn blank_means_only_unicode_white_space() {
    assert!(is_blank(""));
    assert!(is_blank(" \t\r\n\u{3000}\u{a0}\u{2028}"));
    assert!(!is_blank(" a "));
    assert!(!is_blank("\u{200b}"));
}

#[test]
fn recognized_text_is_copied_unless_blank() {
    let report = report_recognized_text("hello\nworld".to_string());
    assert!(report.copy_to_clipboard);
    assert_eq!(report.shown, "hello\nworld");
    let blank = report_recognized_text(" \n ".to_string());
    assert!(!blank.copy_to_clipboard);
    assert_eq!(blank.shown, "未识别到文字内容。");
    assert_eq!(report_recognition_failure("engine busy"), "OCR 识别失败：engine busy");
}

#[test]
fn language_label_prefers_the_native_name() {
    let language = |native: &str| OcrLanguage {
        tag: "zh-Hans-CN".to_string(),
        display_name: "Chinese (Simplified)".to_string(),
        native_name: native.to_string(),
    };
    assert_eq!(language_label(&language("中文(简体)")), "中文(简体)");
    assert_eq!(language_label(&language("  ")), "Chinese (Simplified)");
    assert_eq!(language_label(&language("")), "Chinese (Simplified)");
}

use patrick_star::window::{client_cursor, ClientCursor, ClientLayout, WindowContentKind};

fn physical(length: f32, scale_factor: f32) -> i32 {
    (length.max(1.0) * scale_factor).round().clamp(1.0, i32::MAX as f32) as i32
}

fn cursor_at(
    kind: WindowContentKind,
    width: i32,
    height: i32,
    x: i32,
    y: i32,
    scale_factor: f32,
) -> ClientCursor {
    let logical_width = width as f32 / scale_factor.max(0.01);
    let panel = (logical_width * 0.3).clamp(280.0, 360.0);
    let layout = ClientLayout {
        titlebar_height: physical(36.0, scale_factor),
        titlebar_buttons_width: physical(132.0, scale_factor),
        header_height: physical(86.0, scale_factor),
        status_height: physical(28.0, scale_factor),
        text_panel_width: physical(panel, scale_factor),
    };
    client_cursor(kind, width, height, x, y, layout)
}

#[test]
fn ocr_preview_uses_native_cursors_for_commands_canvas_and_text() {
    let kind = WindowContentKind::OcrPreview;
    assert_eq!(cursor_at(kind, 1080, 720, 1000, 20, 1.0), ClientCursor::Hand);
    assert_eq!(cursor_at(kind, 1080, 720, 200, 60, 1.0), ClientCursor::Hand);
    assert_eq!(cursor_at(kind, 1080, 720, 400, 300, 1.0), ClientCursor::Crosshair);
    assert_eq!(cursor_at(kind, 1080, 720, 900, 300, 1.0), ClientCursor::Text);
    assert_eq!(cursor_at(kind, 1080, 720, 900, 710, 1.0), ClientCursor::Arrow);
}

#[test]
fn ocr_cursor_regions_scale_with_window_dpi() {
    let kind = WindowContentKind::OcrPreview;
    assert_eq!(cursor_at(kind, 1620, 1080, 300, 90, 1.5), ClientCursor::Hand);
    assert_eq!(cursor_at(kind, 1620, 1080, 1350, 450, 1.5), ClientCursor::Text);
}

#[test]
fn other_windows_show_an_arrow_outside_the_caption_buttons() {
    let kind = WindowContentKind::Other;
    assert_eq!(cursor_at(kind, 1080, 720, 1000, 20, 1.0), ClientCursor::Hand);
    assert_eq!(cursor_at(kind, 1080, 720, 400, 300, 1.0), ClientCursor::Arrow);
    assert_eq!(cursor_at(kind, 1080, 720, -1, 300, 1.0), ClientCursor::Arrow);
    assert_eq!(cursor_at(WindowContentKind::Preview, 1080, 720, 900, 300, 1.0), ClientCursor::Crosshair);
}

#[test]
fn window_kind_follows_the_title() {
    assert_eq!(WindowContentKind::from_title("Patrick Star"), WindowContentKind::Preview);
    assert_eq!(WindowContentKind::from_title("截图预览"), WindowContentKind::OcrPreview);
    assert_eq!(WindowContentKind::from_title("Patrick"), WindowContentKind::Other);
    assert_eq!(WindowContentKind::from_title(""), WindowContentKind::Other);
}

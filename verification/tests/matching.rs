use patrick_star::export::RgbaFrame;
use patrick_star::geometry::RectI;
use patrick_star::output::{encode_image, encode_jpeg, encode_png, OutputError};
use patrick_star::platform::ImageFileFormat;
use patrick_star::scroll::fingerprint::{rgb_luminance, sample_coordinate, FrameFingerprint};
use patrick_star::scroll::matching::{
    bgra_window, matcher_window, select_shift, shift_from_matches, KeyMatch, MatcherWindow,
};

#[test]
fn tied_candidates_choose_the_later_offset() {
    let result = select_shift(&[3, 3, 7, 7], &[(0, 3), (0, 3), (0, 7), (0, 7)], 100);
    assert_eq!(result.shift, 7);
}

#[test]
fn offsets_beyond_sixty_percent_are_rejected() {
    let result = select_shift(&[61], &[(0, 61)], 100);
    assert!(result.rejected);
    assert_eq!(result.raw_shift, 61);
    assert_eq!(result.shift, 0);
}

fn key(distance: u32, from: (i32, i32), to: (i32, i32)) -> KeyMatch {
    KeyMatch {
        distance,
        query_x: from.0,
        query_y: from.1,
        train_x: to.0,
        train_y: to.1,
    }
}

#[test]
fn clear_matches_vote_for_their_vertical_offset() {
    let groups = vec![
        vec![key(5, (10, 20), (10, 30)), key(10, (50, 40), (50, 50))],
        vec![key(8, (1, 1), (1, 90)), key(9, (2, 2), (2, 3))],
    ];
    let result = shift_from_matches(&groups, 100);
    assert_eq!(result.shift, 10);
    assert_eq!(result.raw_shift, 10);
    assert!(!result.rejected);
}

#[test]
fn without_trusted_votes_nothing_moved() {
    let groups = vec![vec![key(30, (10, 20), (10, 30)), key(40, (50, 40), (50, 50))]];
    let result = shift_from_matches(&groups, 100);
    assert_eq!((result.shift, result.raw_shift, result.rejected), (0, 0, false));
    let empty: Vec<Vec<KeyMatch>> = Vec::new();
    assert_eq!(shift_from_matches(&empty, 100).raw_shift, 0);
}

fn gray_frame(width: u32, height: u32, value: u8) -> RgbaFrame {
    let mut pixels = vec![value; width as usize * height as usize * 4];
    for alpha in pixels.iter_mut().skip(3).step_by(4) {
        *alpha = 255;
    }
    RgbaFrame::new(RectI::new(0, 0, width, height), pixels).unwrap()
}

fn difference(left: &FrameFingerprint, right: &FrameFingerprint) -> Option<f32> {
    left.total_difference(right)
        .map(|total| total as f32 / left.sample_count() as f32)
}

#[test]
fn identical_frames_have_zero_difference() {
    let left = FrameFingerprint::from_frame(&gray_frame(80, 50, 42));
    let right = FrameFingerprint::from_frame(&gray_frame(80, 50, 42));
    assert_eq!(difference(&left, &right), Some(0.0));
}

#[test]
fn dimensions_must_match() {
    let left = FrameFingerprint::from_frame(&gray_frame(80, 50, 42));
    let right = FrameFingerprint::from_frame(&gray_frame(81, 50, 42));
    assert_eq!(difference(&left, &right), None);
}

#[test]
fn luminance_difference_is_measured_in_pixel_units() {
    let left = FrameFingerprint::from_frame(&gray_frame(80, 50, 10));
    let right = FrameFingerprint::from_frame(&gray_frame(80, 50, 30));
    assert!((difference(&left, &right).unwrap() - 20.0).abs() < f32::EPSILON);
}

#[test]
fn samples_sit_in_the_middle_of_their_share() {
    assert_eq!(sample_coordinate(0, 32, 64), 1);
    assert_eq!(sample_coordinate(31, 32, 64), 63);
    assert_eq!(sample_coordinate(5, 32, 1), 0);
    assert_eq!(sample_coordinate(3, 32, 0), 0);
    assert_eq!(rgb_luminance(255, 255, 255), 255);
    assert_eq!(rgb_luminance(255, 0, 0), 77);
    assert_eq!(rgb_luminance(0, 0, 0), 0);
}

#[test]
fn the_matcher_window_is_copied_in_bgra_order() {
    let pixels: Vec<u8> = (0..24).collect();
    let image = RgbaFrame::new(RectI::new(0, 0, 3, 2), pixels).unwrap();
    let window = bgra_window(&image, 1, 0, 2, 2);
    assert_eq!(
        window,
        vec![6, 5, 4, 7, 10, 9, 8, 11, 18, 17, 16, 19, 22, 21, 20, 23]
    );
    assert!(bgra_window(&image, 3, 2, 0, 0).is_empty());
}

#[test]
fn identical_frames_need_no_matching() {
    let previous = gray_frame(10, 10, 7);
    let next = gray_frame(10, 10, 7);
    assert_eq!(matcher_window(&previous, &next), Ok(MatcherWindow::NoMovement));
}

fn image() -> RgbaFrame {
    RgbaFrame::new(
        RectI::new(-10, 20, 2, 2),
        vec![
            255, 0, 0, 255, 0, 255, 0, 255, 0, 0, 255, 255, 255, 255, 255, 255,
        ],
    )
    .unwrap()
}

#[test]
fn png_encoder_writes_a_complete_png_stream() {
    let encoded = encode_png(&image()).unwrap();
    assert!(encoded.starts_with(b"\x89PNG\r\n\x1a\n"));
    assert!(encoded.windows(4).any(|chunk| chunk == b"IEND"));
}

#[test]
fn jpeg_encoder_writes_a_complete_jfif_stream() {
    let encoded = encode_jpeg(&image()).unwrap();
    assert!(encoded.starts_with(&[0xff, 0xd8]));
    assert!(encoded.ends_with(&[0xff, 0xd9]));
}

#[test]
fn the_png_stream_ends_with_its_iend_chunk() {
    let encoded = encode_image(&image(), ImageFileFormat::Png).unwrap();
    assert!(encoded.ends_with(&[0, 0, 0, 0, 73, 69, 78, 68, 0xAE, 0x42, 0x60, 0x82]));
    assert_ne!(encoded, encode_image(&image(), ImageFileFormat::Jpeg).unwrap());
}

#[test]
fn images_wider_than_a_jpeg_allows_are_refused() {
    let wide = gray_frame(70_000, 1, 0);
    assert_eq!(encode_jpeg(&wide), Err(OutputError::JpegWidthTooLarge(70_000)));
    let tall = gray_frame(1, 70_000, 0);
    assert_eq!(encode_jpeg(&tall), Err(OutputError::JpegHeightTooLarge(70_000)));
}

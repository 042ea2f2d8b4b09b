use patrick_star::export::RgbaFrame;
use patrick_star::geometry::RectI;
use patrick_star::scroll::session::{visible_pixels_identical, MatchedFrame, ScrollCaptureSession};
use patrick_star::scroll::tiled::TiledImage;

fn rows(values: &[u8]) -> Vec<u8> {
    values
        .iter()
        .flat_map(|value| [*value, *value, *value, 255])
        .collect()
}

fn frame(values: &[u8]) -> RgbaFrame {
    RgbaFrame::new(RectI::new(0, 0, 1, values.len() as u32), rows(values)).unwrap()
}

fn matched(id: u64, frame: RgbaFrame, shift: i32) -> MatchedFrame {
    MatchedFrame::new(id, frame, shift)
}

#[test]
fn overlapping_append_and_prepend_keep_row_order() {
    let mut image = TiledImage::new(1, 4, rows(&[3, 4, 5, 6]));
    image.append_overlapping(rows(&[5, 6, 7, 8]), 4, 2);
    image.prepend_overlapping(rows(&[1, 2, 3, 4]), 4, 2);
    let values = image
        .into_pixels()
        .chunks_exact(4)
        .map(|pixel| pixel[0])
        .collect::<Vec<_>>();
    assert_eq!(values, [1, 2, 3, 4, 5, 6, 7, 8]);
}

#[test]
fn scrolling_back_over_captured_rows_does_not_duplicate_them() {
    let mut session = ScrollCaptureSession::new(frame(&[1, 2, 3, 4]));
    for (id, shift, values) in [
        (1, -2, &[3, 4, 5, 6][..]),
        (2, 2, &[1, 2, 3, 4][..]),
        (3, -2, &[3, 4, 5, 6][..]),
    ] {
        let mut next = matched(id, frame(values), shift);
        session.plan_matched_frame(&mut next).unwrap();
        session.commit_matched_frame(next).unwrap();
    }
    assert_eq!(session.finish().height(), 6);
}

#[test]
fn scrolling_above_the_first_frame_prepends_new_rows() {
    let mut session = ScrollCaptureSession::new(frame(&[3, 4, 5, 6]));
    let mut next = matched(1, frame(&[1, 2, 3, 4]), 2);
    session.plan_matched_frame(&mut next).unwrap();
    session.commit_matched_frame(next).unwrap();
    let output = session.finish();
    let values = output
        .pixels()
        .chunks_exact(4)
        .map(|pixel| pixel[0])
        .collect::<Vec<_>>();
    assert_eq!(values, [1, 2, 3, 4, 5, 6]);
}

#[test]
fn discontinuity_can_replace_the_matcher_baseline_without_growing() {
    let mut session = ScrollCaptureSession::new(frame(&[1, 2, 3, 4]));
    let replacement = frame(&[9, 8, 7, 6]);
    session.reset_baseline(replacement.clone());
    assert!(visible_pixels_identical(session.previous(), &replacement));
}

use patrick_star::scroll::worker::MatchGate;

#[test]
fn match_gate_passes_one_frame_at_a_time_and_numbers_them() {
    let mut gate = MatchGate::new();
    assert_eq!(gate.try_enter(), Some(1));
    assert_eq!(gate.try_enter(), None);
    assert_eq!(gate.try_enter(), None);
    gate.release();
    assert_eq!(gate.try_enter(), Some(2));
    gate.release();
    assert_eq!(gate.try_enter(), Some(3));
}

use patrick_star::scroll::matching::FrameMatch;
use patrick_star::scroll::session::ScrollError;

#[test]
fn frames_need_matching_only_when_their_pixels_changed() {
    let session = ScrollCaptureSession::new(frame(&[1, 2, 3, 4]));
    assert_eq!(session.needs_match(&frame(&[1, 2, 3, 4])), Ok(false));
    assert_eq!(session.needs_match(&frame(&[1, 2, 3, 5])), Ok(true));
    assert_eq!(session.needs_match(&frame(&[1, 2, 3])), Err(ScrollError::DimensionsChanged));
}

#[test]
fn matcher_verdicts_become_splices_or_nothing() {
    let mut session = ScrollCaptureSession::new(frame(&[1, 2, 3, 4]));
    let accepted = session
        .accept_match(7, frame(&[3, 4, 5, 6]), Ok(FrameMatch { shift: -2, raw_shift: -2, rejected: false }))
        .unwrap()
        .expect("an accepted offset is spliced");
    assert_eq!(accepted.splice_id, 7);
    assert_eq!(accepted.shift, -2);
    assert!(accepted.growth.is_none());
    assert_eq!(session.previous().pixels(), frame(&[3, 4, 5, 6]).pixels());

    let rejected = session
        .accept_match(8, frame(&[9, 9, 9, 9]), Ok(FrameMatch { shift: 3, raw_shift: 3, rejected: true }))
        .unwrap();
    assert!(rejected.is_none());
    assert_eq!(session.previous().pixels(), frame(&[9, 9, 9, 9]).pixels());

    let failed = session.accept_match(9, frame(&[1, 1, 1, 1]), Err(ScrollError::DimensionsChanged));
    assert!(matches!(failed, Err(ScrollError::DimensionsChanged)));
}

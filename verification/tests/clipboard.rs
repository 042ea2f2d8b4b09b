use patrick_star::clipboard::{dib_v5_payload, ClipboardError, DIB_V5_HEADER_BYTES};
use patrick_star::export::RgbaFrame;
use patrick_star::geometry::RectI;

fn le32(bytes: &[u8], offset: usize) -> u32 {
    u32::from_le_bytes([bytes[offset], bytes[offset + 1], bytes[offset + 2], bytes[offset + 3]])
}

#[test]
fn one_pixel_dib_has_a_top_down_v5_header_and_bgra_pixels() {
    let image = RgbaFrame::new(RectI::new(5, 7, 1, 1), vec![1, 2, 3, 4]).unwrap();
    let bytes = dib_v5_payload(&image).unwrap();
    assert_eq!(bytes.len(), DIB_V5_HEADER_BYTES + 4);
    assert_eq!(le32(&bytes, 0), 124);
    assert_eq!(le32(&bytes, 4), 1);
    assert_eq!(le32(&bytes, 8) as i32, -1);
    assert_eq!(&bytes[12..16], &[1, 0, 32, 0]);
    assert_eq!(le32(&bytes, 16), 3);
    assert_eq!(le32(&bytes, 20), 4);
    assert!(bytes[24..40].iter().all(|byte| *byte == 0));
    assert_eq!(le32(&bytes, 40), 0x00ff_0000);
    assert_eq!(le32(&bytes, 44), 0x0000_ff00);
    assert_eq!(le32(&bytes, 48), 0x0000_00ff);
    assert_eq!(le32(&bytes, 52), 0xff00_0000);
    assert_eq!(&bytes[56..60], b"BGRs");
    assert!(bytes[60..108].iter().all(|byte| *byte == 0));
    assert_eq!(le32(&bytes, 108), 4);
    assert!(bytes[112..124].iter().all(|byte| *byte == 0));
    assert_eq!(&bytes[124..], &[3, 2, 1, 4]);
}

#[test]
fn dib_height_is_negative_and_pixels_keep_their_row_order() {
    let pixels: Vec<u8> = (0..24).collect();
    let image = RgbaFrame::new(RectI::new(0, 0, 2, 3), pixels).unwrap();
    let bytes = dib_v5_payload(&image).unwrap();
    assert_eq!(le32(&bytes, 4), 2);
    assert_eq!(le32(&bytes, 8) as i32, -3);
    assert_eq!(le32(&bytes, 20), 24);
    let body = &bytes[124..];
    for pixel in 0..6 {
        let at = pixel * 4;
        let expected = [at as u8 + 2, at as u8 + 1, at as u8, at as u8 + 3];
        assert_eq!(&body[at..at + 4], &expected);
    }
}

#[test]
fn clipboard_errors_have_messages() {
    assert_eq!(ClipboardError::WidthTooLarge.message(), "clipboard image width exceeds i32");
    assert_eq!(ClipboardError::HeightTooLarge.message(), "clipboard image height exceeds i32");
    assert_eq!(
        ClipboardError::ImageTooLarge.message(),
        "clipboard image byte length exceeds DIBV5"
    );
    assert_eq!(ClipboardError::AllocationOverflow.message(), "clipboard image allocation overflow");
}

#[test]
fn dibv5_header_describes_top_down_bgra_with_alpha() {
    let image = RgbaFrame::new(RectI::new(-10, 20, 2, 3), vec![0; 24]).unwrap();
    let header = dib_v5_payload(&image).unwrap();

    assert_eq!(le32(&header, 0) as usize, DIB_V5_HEADER_BYTES);
    assert_eq!(le32(&header, 4) as i32, 2);
    assert_eq!(le32(&header, 8) as i32, -3);
    assert_eq!(u16::from_le_bytes([header[14], header[15]]), 32);
    assert_eq!(le32(&header, 16), patrick_star::clipboard::BI_BITFIELDS);
    assert_eq!(le32(&header, 20), 24);
    assert_eq!(le32(&header, 40), 0x00ff_0000);
    assert_eq!(le32(&header, 52), 0xff00_0000);
}

use base64::Engine;
use mathimage::capture::{
    capture_event_of, check_file_size, check_region, data_url, interactive_capture,
};
use mathimage::{CaptureError, DispatchEvent, ImageKind};

#[test]
fn an_image_becomes_a_data_url() {
    assert_eq!(data_url(ImageKind::Png, b""), Some("data:image/png;base64,".to_string()));
    assert_eq!(data_url(ImageKind::Png, b"f"), Some("data:image/png;base64,Zg==".to_string()));
    assert_eq!(data_url(ImageKind::Png, b"fo"), Some("data:image/png;base64,Zm8=".to_string()));
    assert_eq!(data_url(ImageKind::Jpeg, b"foo"), Some("data:image/jpeg;base64,Zm9v".to_string()));
    assert_eq!(
        data_url(ImageKind::Jpeg, b"foobar"),
        Some("data:image/jpeg;base64,Zm9vYmFy".to_string())
    );
    assert_eq!(
        data_url(ImageKind::Png, &[0xfb, 0xff, 0xfe, 0x00, 0x3e]),
        Some("data:image/png;base64,+//+AD4=".to_string())
    );
}

#[test]
fn every_byte_value_is_written_as_the_engine_writes_it() {
    let bytes: Vec<u8> = (0..=255u8).chain((0..=255u8).rev()).collect();
    for len in 0..bytes.len() {
        let expected = format!(
            "data:image/png;base64,{}",
            base64::engine::general_purpose::STANDARD.encode(&bytes[..len])
        );
        assert_eq!(data_url(ImageKind::Png, &bytes[..len]), Some(expected));
    }
}

#[test]
fn the_size_of_a_file_is_checked() {
    assert_eq!(check_file_size(0), Err(CaptureError::UserCancelled));
    assert_eq!(check_file_size(1), Ok(()));
    assert_eq!(check_file_size(10 * 1024 * 1024), Ok(()));
    assert_eq!(check_file_size(10 * 1024 * 1024 + 1), Err(CaptureError::TooLarge));
    assert_eq!(check_file_size(u64::MAX), Err(CaptureError::TooLarge));
}

#[test]
fn a_region_is_checked() {
    assert_eq!(check_region(0, 0), Ok(()));
    assert_eq!(check_region(4096, 4096), Ok(()));
    assert_eq!(check_region(4097, 1), Err(CaptureError::RegionTooLarge));
    assert_eq!(check_region(1, 4097), Err(CaptureError::RegionTooLarge));
    assert_eq!(check_region(u32::MAX, u32::MAX), Err(CaptureError::RegionTooLarge));
}

#[test]
fn an_interactive_capture_gives_an_image_or_was_given_up() {
    assert_eq!(interactive_capture(false, Some(b"png")), Err(CaptureError::UserCancelled));
    assert_eq!(interactive_capture(true, None), Err(CaptureError::UserCancelled));
    assert_eq!(interactive_capture(true, Some(b"")), Err(CaptureError::UserCancelled));
    assert_eq!(
        interactive_capture(true, Some(b"foo")),
        Ok("data:image/png;base64,Zm9v".to_string())
    );
    let large = vec![0u8; 10 * 1024 * 1024 + 1];
    assert_eq!(interactive_capture(true, Some(&large)), Err(CaptureError::TooLarge));
}

#[test]
fn a_capture_is_an_event_of_a_run() {
    assert_eq!(capture_event_of(Ok("img".to_string())), DispatchEvent::Captured("img".to_string()));
    assert_eq!(capture_event_of(Err(CaptureError::UserCancelled)), DispatchEvent::CaptureCancelled);
    assert_eq!(
        capture_event_of(Err(CaptureError::TooLarge)),
        DispatchEvent::CaptureFailed("Screenshot file too large".to_string())
    );
    assert_eq!(
        capture_event_of(Err(CaptureError::Failed("no screen".to_string()))),
        DispatchEvent::CaptureFailed("no screen".to_string())
    );
    assert_eq!(CaptureError::UserCancelled.message(), "Screenshot was cancelled");
    assert_eq!(CaptureError::RegionTooLarge.message(), "Screenshot region too large");
}

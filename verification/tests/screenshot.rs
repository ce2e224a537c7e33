use base64::Engine;
use intero::screenshot::{
    base64_text, capture, capture_old, frame_of_png, frames_of, CaptureError, Screenshot,
};

fn two_by_one() -> Vec<u8> {
    vec![255, 0, 0, 255, 0, 128, 255, 64]
}

#[test]
fn capture_of_nothing_is_no_frame() {
    assert_eq!(capture(None), Vec::<String>::new());
}

#[test]
fn capture_is_the_base64_text_of_the_frame() {
    assert_eq!(capture(Some(b"hello world~".to_vec())), vec!["aGVsbG8gd29ybGR+".to_string()]);
    assert_eq!(capture(Some(vec![0xfb, 0xff])), vec!["+/8=".to_string()]);
    assert_eq!(capture(Some(Vec::new())), vec![String::new()]);
}

#[test]
fn base64_text_pads_to_whole_groups() {
    assert_eq!(base64_text(&b"".to_vec()), Some("".to_string()));
    assert_eq!(base64_text(&b"f".to_vec()), Some("Zg==".to_string()));
    assert_eq!(base64_text(&b"fo".to_vec()), Some("Zm8=".to_string()));
    assert_eq!(base64_text(&b"foo".to_vec()), Some("Zm9v".to_string()));
    assert_eq!(base64_text(&b"foob".to_vec()), Some("Zm9vYg==".to_string()));
    assert_eq!(base64_text(&b"fooba".to_vec()), Some("Zm9vYmE=".to_string()));
    assert_eq!(base64_text(&b"foobar".to_vec()), Some("Zm9vYmFy".to_string()));
}

#[test]
fn frames_of_wraps_the_one_frame() {
    assert_eq!(frames_of(Some("Zg==".to_string())), vec!["Zg==".to_string()]);
    assert_eq!(frames_of(None), Vec::<String>::new());
}

#[test]
fn screenshot_needs_pixels_that_fill_it() {
    assert!(Screenshot::new(2, 1, two_by_one()).is_some());
    assert!(Screenshot::new(1, 2, two_by_one()).is_some());
    assert!(Screenshot::new(2, 2, two_by_one()).is_none());
    assert!(Screenshot::new(1, 1, two_by_one()).is_none());
    assert!(Screenshot::new(0, 0, two_by_one()).is_none());
    assert!(Screenshot::new(0, 7, Vec::new()).is_some());
    assert!(Screenshot::new(u32::MAX, u32::MAX, two_by_one()).is_none());
    let shot = Screenshot::new(2, 1, two_by_one()).unwrap();
    assert_eq!(shot.width(), 2);
    assert_eq!(shot.height(), 1);
    assert_eq!(shot.pixels(), &two_by_one());
}

#[test]
fn capture_old_frames_each_screen_as_base64_of_png() {
    let shots = vec![
        Screenshot::new(2, 1, two_by_one()).unwrap(),
        Screenshot::new(1, 2, two_by_one()).unwrap(),
    ];
    let frames = capture_old(&shots).unwrap();
    assert_eq!(frames.len(), 2);
    let sizes: [(u32, u32); 2] = [(2, 1), (1, 2)];
    for (frame, (width, height)) in frames.iter().zip(sizes) {
        let png = base64::prelude::BASE64_STANDARD.decode(frame).unwrap();
        assert_eq!(&png[..8], &[0x89, b'P', b'N', b'G', 0x0d, 0x0a, 0x1a, 0x0a]);
        let image = image::load_from_memory_with_format(&png, image::ImageFormat::Png)
            .unwrap()
            .into_rgba8();
        assert_eq!(image.dimensions(), (width, height));
        assert_eq!(image.into_raw(), two_by_one());
    }
    assert_ne!(frames[0], frames[1]);
}

#[test]
fn capture_old_of_no_screen_is_no_frame() {
    assert_eq!(capture_old(&Vec::new()), Ok(Vec::new()));
}

#[test]
fn capture_old_stops_at_the_first_screen_without_pixels() {
    let shots = vec![Screenshot::new(0, 0, Vec::new()).unwrap()];
    assert_eq!(capture_old(&shots), Err(CaptureError::Encoding { index: 0 }));
    let shots = vec![
        Screenshot::new(2, 1, two_by_one()).unwrap(),
        Screenshot::new(0, 3, Vec::new()).unwrap(),
        Screenshot::new(3, 0, Vec::new()).unwrap(),
    ];
    assert_eq!(capture_old(&shots), Err(CaptureError::Encoding { index: 1 }));
}

#[test]
fn frame_of_png_is_the_text_or_the_reason() {
    assert_eq!(frame_of_png(None, 3), Err(CaptureError::Encoding { index: 3 }));
    assert_eq!(frame_of_png(Some(b"foobar".to_vec()), 3), Ok("Zm9vYmFy".to_string()));
    assert_ne!(CaptureError::TooLarge { index: 3 }, CaptureError::Encoding { index: 3 });
}

#[test]
fn screenshot_path_names_screen_and_time() {
    assert_eq!(
        intero::screenshot::screenshot_path("/tmp/cache", 7, 1700000000),
        "/tmp/cache/screenshot-7-1700000000.png"
    );
    assert_eq!(intero::screenshot::screenshot_path("", 0, 0), "/screenshot-0-0.png");
    assert_eq!(
        intero::screenshot::screenshot_path("C:\\cache dir", u32::MAX, u64::MAX),
        "C:\\cache dir/screenshot-4294967295-18446744073709551615.png"
    );
}

#[test]
fn encodable_len_is_short_of_the_end_of_usize() {
    assert!(intero::screenshot::encodable_len(0));
    assert!(intero::screenshot::encodable_len(1 << 20));
    let most: usize = (usize::MAX - 4) / 4 * 3 + 2;
    assert!(intero::screenshot::encodable_len(most));
    assert!(!intero::screenshot::encodable_len(most + 1));
    assert!(!intero::screenshot::encodable_len(usize::MAX));
}

use neen_desktop_agent::screen_capture::{CaptureError, DisplayGeometry, RgbaFrame, ScreenCapture};

fn frame(width: u32, height: u32) -> RgbaFrame {
    let mut pixels = Vec::new();
    for i in 0..(width * height) {
        pixels.extend_from_slice(&[i as u8, 1, 2, 255]);
    }
    RgbaFrame { width, height, pixels }
}

#[test]
fn capture_schedule() {
    let mut s = ScreenCapture::new();
    assert!(s.capture_due(0));
    s.record_capture(1000);
    assert!(!s.capture_due(5999));
    assert!(s.capture_due(6000));
    assert!(!s.capture_due(500));
    s.set_capture_interval(100);
    assert!(s.capture_due(1100));
    assert!(!s.capture_due(1099));
}

#[test]
fn change_detection() {
    let s = ScreenCapture::new();
    let a = vec![0u8; 100];
    assert!(!s.detect_changes(&a, &a));
    assert!(s.detect_changes(&a, &vec![0u8; 99]));
    let mut b = a.clone();
    for i in 0..10 {
        b[i] = 1;
    }
    assert!(!s.detect_changes(&a, &b));
    b[50] = 1;
    assert!(s.detect_changes(&a, &b));
    let big = vec![0u8; 30000];
    let mut big2 = big.clone();
    for i in 0..30 {
        big2[i * 3 + 1] = 9;
    }
    assert!(!s.detect_changes(&big, &big2));
    for i in 0..11 {
        big2[i * 3] = 9;
    }
    assert!(s.detect_changes(&big, &big2));
}

#[test]
fn crop_inside_and_clipped() {
    let s = ScreenCapture::new();
    let f = frame(4, 3);
    let c = s.crop_frame(&f, 1, 1, 2, 1).unwrap();
    assert_eq!((c.width, c.height), (2, 1));
    assert_eq!(c.pixels, vec![5, 1, 2, 255, 6, 1, 2, 255]);
    let c2 = s.crop_frame(&f, -5, 2, 100, 100).unwrap();
    assert_eq!((c2.width, c2.height), (4, 1));
    assert_eq!(c2.pixels[0], 8);
    assert_eq!(s.crop_frame(&f, 4, 0, 1, 1).unwrap_err(), CaptureError::InvalidCropDimensions);
    assert_eq!(s.crop_frame(&f, 0, 0, 0, 1).unwrap_err(), CaptureError::InvalidCropDimensions);
}

#[test]
fn crop_of_short_buffer_pads_with_zeros() {
    let s = ScreenCapture::new();
    let f = RgbaFrame { width: 2, height: 1, pixels: vec![7, 7, 7, 7] };
    let c = s.crop_frame(&f, 0, 0, 2, 1).unwrap();
    assert_eq!(c.pixels, vec![7, 7, 7, 7, 0, 0, 0, 0]);
}

#[test]
fn png_encoding() {
    let s = ScreenCapture::new();
    let png = s.encode_frame_png(&frame(3, 2)).unwrap();
    assert_eq!(&png[..8], &[0x89, b'P', b'N', b'G', 0x0d, 0x0a, 0x1a, 0x0a]);
    let region = s.region_png(&frame(3, 2), 1, 0, 5, 5).unwrap();
    assert_eq!(&region[..8], &png[..8]);
    assert_ne!(region, png);
    assert_eq!(s.region_png(&frame(3, 2), 3, 0, 1, 1).unwrap_err(), CaptureError::InvalidCropDimensions);
}

#[test]
fn screen_info_marks_first_primary() {
    let s = ScreenCapture::new();
    let infos = s.get_screen_info(&vec![
        DisplayGeometry { width: 1920, height: 1080, x: 0, y: 0 },
        DisplayGeometry { width: 1280, height: 1024, x: 1920, y: -10 },
    ]);
    assert_eq!(infos.len(), 2);
    assert!(infos[0].is_primary);
    assert!(!infos[1].is_primary);
    assert_eq!(infos[1].index, 1);
    assert_eq!(infos[1].y, -10);
    assert!(s.get_screen_info(&vec![]).is_empty());
}

#[test]
fn element_search_finds_nothing() {
    let s = ScreenCapture::new();
    assert_eq!(s.find_element_by_text("OK"), None);
    assert_eq!(s.find_element_by_image(&[1, 2, 3]), None);
}

#[test]
fn continuous_captures_are_spaced() {
    let mut s = ScreenCapture::new();
    s.set_capture_interval(1000);
    let ticks = [(0u64, false), (100, true), (600, true), (1099, true), (1100, true), (1500, false), (2100, true), (2200, true)];
    let mut taken = Vec::new();
    for (t, ok) in ticks {
        if s.capture_due(t) && ok {
            s.record_capture(t);
            taken.push(t);
        }
    }
    assert_eq!(taken, vec![100, 1100, 2100]);
    for w in taken.windows(2) {
        assert!(w[1] - w[0] >= 1000);
    }
    assert!(!s.capture_due(3099));
    assert!(s.capture_due(3100));
}

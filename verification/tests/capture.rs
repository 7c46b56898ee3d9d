use phantom_server::capture::gdi::{GdiCapture, GdiError};
use phantom_server::capture::pipewire::{
    check_response, default_session_path, is_response, parse_streams, request_token, response_wait,
    session_token, start_wait, stream_frame, PixelFormat, PortalError, PortalStream, PortalValue,
};
use phantom_server::capture::rows::pack_rows;
use phantom_server::capture::scrap::{
    unpack_frame, DisplayError, DisplayInfo,
    FrameSource, ScrapCapture,
};
use phantom_server::capture::stats::{
    frame_is_mostly_black, frame_probe_stats, frame_sample_stats, FrameProbeStats,
};
use phantom_server::capture::x11::{
    capture_size, find_desktop_drawable, raw_len, unpack_image, WindowAttributes, XImageError,
};
use phantom_server::clock::SEC;

#[test]
fn gdi_needs_a_screen() {
    assert_eq!(GdiCapture::new(0, 600).unwrap_err(), GdiError::NoScreen);
    let mut gdi = GdiCapture::new(800, 600).unwrap();
    assert_eq!(gdi.data_size(), 1_920_000);
    gdi.reset(0, 0);
    assert_eq!(gdi.resolution(), (800, 600));
    gdi.reset(640, 480);
    assert_eq!(gdi.resolution(), (640, 480));
    assert_eq!(GdiCapture::check_lines(0), Err(GdiError::NoLines));
    assert_eq!(GdiCapture::check_lines(480), Ok(()));
}

#[test]
fn padding_between_rows_goes() {
    assert_eq!(pack_rows(&[1, 2, 9, 3, 4, 9], 3, 2, 2), vec![1, 2, 3, 4]);
    assert_eq!(pack_rows(&[1, 2, 9, 3, 4], 3, 2, 2), vec![1, 2, 3, 4]);
    assert!(pack_rows(&[], 3, 2, 0).is_empty());
}

#[test]
fn black_pictures_are_told_from_others() {
    let black = vec![0u8; 400];
    let white = vec![255u8; 400];
    assert!(frame_is_mostly_black(&black));
    assert!(!frame_is_mostly_black(&white));
    assert_eq!(frame_sample_stats(&white), (0, 255, 255, 255));
    let stats = frame_probe_stats(&black);
    assert_eq!(stats.black_pct, 100);
    assert!(stats.is_mostly_black());
    let one_white: Vec<u8> = (0..100usize)
        .flat_map(|i| if i < 2 { [255, 0, 0, 0] } else { [0; 4] })
        .collect();
    let stats = frame_probe_stats(&one_white);
    assert_eq!(stats.black_pct, 98);
    assert_eq!((stats.mean_r, stats.mean_g, stats.mean_b), (0, 0, 5));
    assert!(!stats.is_mostly_black());
    assert_eq!(frame_probe_stats(&[1, 2, 3]).black_pct, 100);
    assert!(FrameProbeStats {
        black_pct: 99,
        mean_r: 7,
        mean_g: 7,
        mean_b: 7
    }
    .is_mostly_black());
}

#[test]
fn displays_are_listed_with_the_first_as_primary() {
    let displays = ScrapCapture::list_displays(&[(1920, 1080), (800, 600)]);
    assert_eq!(displays[0].to_text(), "Display 0: 1920x1080 (primary)");
    assert_eq!(displays[1].to_text(), "Display 1: 800x600");
}

#[test]
fn displays_are_found_by_name() {
    let names = vec![r"\\.\DISPLAY1".to_string(), r"\\.\DISPLAY2".to_string()];
    assert_eq!(ScrapCapture::windows_display_index_for_device_name(&names, r"\\.\display2"), Some(1));
    assert_eq!(ScrapCapture::windows_display_index_for_device_name(&names, r"\\.\DISPLAY3"), None);
}

fn two_displays() -> Vec<DisplayInfo> {
    ScrapCapture::list_displays(&[(1920, 1080), (800, 600)])
}

#[test]
fn scrap_captures_a_display_that_is_there() {
    assert_eq!(
        ScrapCapture::with_display(0, &[], false).unwrap_err(),
        DisplayError::NoDisplays
    );
    assert_eq!(
        ScrapCapture::with_display(2, &two_displays(), false).unwrap_err(),
        DisplayError::OutOfRange { index: 2, count: 2 }
    );
    let mut capture = ScrapCapture::with_display(1, &two_displays(), false).unwrap();
    assert_eq!(capture.resolution(), (800, 600));
    assert_eq!(capture.source(), FrameSource::Capturer);
    capture.reset(&two_displays()[..1], false).unwrap();
    assert_eq!(capture.display_index(), 0);
    assert_eq!(capture.resolution(), (1920, 1080));
    assert_eq!(capture.reset(&[], false), Err(DisplayError::Disappeared));
}

#[test]
fn fallback_takes_over_when_it_shows_something() {
    let mut capture = ScrapCapture::with_display(0, &two_displays(), true).unwrap();
    assert_eq!(capture.source(), FrameSource::Fallback);
    capture.fallback_active = false;
    assert!(capture.should_try_fallback(&[0; 64]));
    assert!(!capture.should_try_fallback(&[200; 64]));
    assert!(!capture.on_fallback_frame(&[0; 64]));
    assert_eq!(capture.source(), FrameSource::Capturer);
    assert!(capture.on_fallback_frame(&[200; 64]));
    assert_eq!(capture.source(), FrameSource::Fallback);
}

#[test]
fn scrap_rows_are_packed() {
    let padded = vec![1, 1, 1, 1, 9, 9, 9, 9, 2, 2, 2, 2, 9, 9, 9, 9];
    assert_eq!(
        unpack_frame(&padded, 1, 2),
        Some(vec![1, 1, 1, 1, 2, 2, 2, 2])
    );
    assert_eq!(unpack_frame(&[1; 8], 1, 2), Some(vec![1; 8]));
}

#[test]
fn x_images_have_three_bytes_or_four() {
    assert_eq!(raw_len(8, 2), Ok(16));
    assert_eq!(raw_len(-1, 2), Ok(0));
    assert_eq!(
        unpack_image(&[1, 2, 3, 4, 5, 6, 0, 0], 8, 24, 2, 1),
        Ok(vec![1, 2, 3, 0, 4, 5, 6, 0])
    );
    assert_eq!(
        unpack_image(&[1, 2, 3, 4, 9, 9, 9, 9], 8, 32, 1, 1),
        Ok(vec![1, 2, 3, 4])
    );
    assert_eq!(
        unpack_image(&[], 0, 16, 1, 1),
        Err(XImageError::UnsupportedDepth { bits_per_pixel: 16 })
    );
}

fn window(window: u64, width: i32, height: i32) -> WindowAttributes {
    WindowAttributes {
        window,
        viewable: true,
        x: 0,
        y: 0,
        width,
        height,
    }
}

#[test]
fn largest_window_stands_for_the_desktop() {
    let small = window(1, 100, 100);
    let big = window(2, 800, 600);
    let mut hidden = window(3, 900, 700);
    hidden.viewable = false;
    assert_eq!(find_desktop_drawable(&[small, big, hidden], 800, 600), Some(2));
    assert_eq!(find_desktop_drawable(&[small], 800, 600), None);
    assert_eq!(capture_size(800, 600, 1024, 500), (800, 500));
    assert_eq!(capture_size(800, 600, 0, -1), (1, 1));
}

fn number(n: u64) -> PortalValue {
    PortalValue {
        number: Some(n),
        text: None,
        items: None,
    }
}

fn list(items: Vec<PortalValue>) -> PortalValue {
    PortalValue {
        number: None,
        text: None,
        items: Some(items),
    }
}

#[test]
fn portal_names_the_stream() {
    let stream = list(vec![number(42), list(vec![])]);
    let found = parse_streams(&list(vec![stream])).unwrap();
    assert_eq!(found.node_id, 42);
    assert!(matches!(
        parse_streams(&list(vec![])),
        Err(PortalError::NoNode)
    ));
    assert!(matches!(
        parse_streams(&number(1)),
        Err(PortalError::NoStreams)
    ));
    let _: PortalStream = found;
}

#[test]
fn portal_tokens_and_paths() {
    assert_eq!(request_token(7), "phantom_7");
    assert_eq!(session_token(7), "phantom_session_7");
    assert_eq!(
        default_session_path(":1.42", "tok"),
        "/org/freedesktop/portal/desktop/session/1_42/tok"
    );
    assert!(is_response("org.freedesktop.portal.Request", "Response"));
    assert!(!is_response("org.freedesktop.portal.Request", "Close"));
    assert_eq!(check_response(0), Ok(()));
    assert_eq!(check_response(1), Err(PortalError::Refused { code: 1 }));
    assert_eq!(response_wait(0, 59 * SEC), Ok(()));
    assert_eq!(response_wait(0, 61 * SEC), Err(PortalError::Timeout));
    assert_eq!(start_wait(true, 0, 0), Some(Ok(())));
    assert_eq!(start_wait(false, 0, SEC), None);
    assert_eq!(
        start_wait(false, 0, 6 * SEC),
        Some(Err(PortalError::NotStarted))
    );
}

#[test]
fn stream_pictures_take_their_size_from_the_stride() {
    let blue = PixelFormat::Bgrx;
    let frame = stream_frame(&[5; 16], 16, 8, blue).unwrap();
    assert_eq!((frame.width, frame.height), (2, 2));
    assert_eq!(frame.data, vec![5; 16]);
    assert!(stream_frame(&[5; 16], 0, 8, blue).is_none());
    assert!(stream_frame(&[5; 16], 16, 3, blue).is_none());
    let below = stream_frame(&[5; 16], 16, -7, blue).unwrap();
    assert_eq!(below.width, ((-7i32 as usize) / 4) as u32);
    assert_eq!(below.height, 0);
    assert!(below.data.is_empty());
    let odd = stream_frame(&[1, 1, 1, 1, 9, 2, 2, 2, 2, 9], 10, 5, blue).unwrap();
    assert_eq!((odd.width, odd.height), (1, 2));
    assert_eq!(odd.data, vec![1, 1, 1, 1, 2, 2, 2, 2]);
}

#[test]
fn stream_pictures_come_out_blue_first() {
    let pixels = [1, 2, 3, 4, 5, 6, 7, 8];
    for format in [PixelFormat::Bgrx, PixelFormat::Bgra] {
        assert_eq!(stream_frame(&pixels, 8, 8, format).unwrap().data, pixels);
    }
    for format in [PixelFormat::Rgbx, PixelFormat::Rgba] {
        let frame = stream_frame(&pixels, 8, 8, format).unwrap();
        assert_eq!(frame.data, [3, 2, 1, 4, 7, 6, 5, 8]);
    }
    let short = stream_frame(&pixels[..7], 8, 8, PixelFormat::Rgbx).unwrap();
    assert_eq!(short.data, [3, 2, 1, 4, 5, 6, 7]);
    let odd = stream_frame(&[1, 2, 3, 4, 9, 5, 6, 7, 8, 9], 10, 5, PixelFormat::Rgba).unwrap();
    assert_eq!(odd.data, [3, 2, 1, 4, 7, 6, 5, 8]);
}

use rs_board::capture::{
    capture_deadline, expected_capture_pixel_size, map_xcap_error, monitor_under_cursor,
    planned_pixel_size,
    primary_monitor, request_screen_recording_permission, validate_pixel_dimensions,
    validate_scale_factor, CaptureError, CaptureFrame, CaptureOptions, NativeCaptureImage,
    PermissionStep,
    CAPTURE_DEADLINE, MAX_CAPTURE_DIMENSION_PX,
};
use rs_board::capture_surface::DisplaySnapshot;
use rs_board::screen_stream::{
    bgra_rows_to_rgba, captured_image, capture_error_from_ns_error, capture_error_from_optional_ns_error,
    check_pixel_buffer, completion_result, ensure_bgra_pixel_format, excluded_applications,
    find_display, finish_stop_attempt, is_complete_frame, receive_result, sample_buffer_to_rgba, PixelBuffer,
    RgbaPixels, StartState, StopStep, StreamErrorKind, SystemError, Waited, MAX_STOP_ATTEMPTS,
    PIXEL_FORMAT_BGRA,
};

fn system_error(is_stream_error: bool, kind: StreamErrorKind) -> SystemError {
    SystemError {
        is_stream_error,
        kind,
        domain: "SCStreamErrorDomain".to_owned(),
        code: -3801,
        description: "declined".to_owned(),
    }
}

#[test]
fn accepts_dimensions_at_8k_limit() {
    assert!(
        validate_pixel_dimensions([MAX_CAPTURE_DIMENSION_PX, MAX_CAPTURE_DIMENSION_PX]).is_ok()
    );
}

#[test]
fn rejects_either_dimension_over_8k_limit() {
    for pixel_size in [[MAX_CAPTURE_DIMENSION_PX + 1, 1], [1, MAX_CAPTURE_DIMENSION_PX + 1]] {
        assert!(matches!(
            validate_pixel_dimensions(pixel_size),
            Err(CaptureError::TooLarge { .. })
        ));
    }
}

#[test]
fn computes_retina_capture_size_from_logical_bounds() {
    match expected_capture_pixel_size(1_728, 1_117, 2.0f32.to_bits()) {
        Ok(size) => assert_eq!(size, [3_456, 2_234]),
        Err(_) => panic!("the size fits"),
    }
}

#[test]
fn rounds_scale_factor_noise_to_physical_pixels() {
    match expected_capture_pixel_size(1_920, 1_080, 1.999_999_9f32.to_bits()) {
        Ok(size) => assert_eq!(size, [3_840, 2_160]),
        Err(_) => panic!("the size fits"),
    }
}

#[test]
fn rejects_expected_retina_size_over_8k_limit() {
    assert!(matches!(
        expected_capture_pixel_size(4_097, 2_160, 2.0f32.to_bits()),
        Err(CaptureError::TooLarge { .. })
    ));
}

#[test]
fn materializes_unpremultiplied_rgba_only_on_demand() {
    let native =
        NativeCaptureImage::from_cg_image(2, 1, vec![128, 0, 0, 128, 0, 255, 0, 255]).ok().unwrap();
    assert_eq!(native.to_rgba8(), vec![255, 0, 0, 128, 0, 255, 0, 255]);
    assert_eq!(native.pixels, vec![128, 0, 0, 128, 0, 255, 0, 255]);
}

#[test]
fn sizes_match_the_arithmetic_of_the_machine() {
    for (length, scale) in [
        (1_728u32, 1.25f32),
        (1_117, 1.5),
        (333, 1.1),
        (4_000, 2.04),
        (1, 0.4),
        (8_191, 1.000_01),
        (777, 3.333_333),
    ] {
        let width = (f64::from(length) * f64::from(scale)).round() as u32;
        let height = (f64::from(100u32) * f64::from(scale)).round() as u32;
        match expected_capture_pixel_size(length, 100, scale.to_bits()) {
            Ok(size) => assert_eq!(size, [width, height]),
            Err(CaptureError::TooLarge { width_px, height_px, .. }) => {
                assert_eq!([width_px, height_px], [width, height]);
                assert!(width > MAX_CAPTURE_DIMENSION_PX);
            },
            Err(_) => assert_eq!(width, 0),
        }
    }
}

#[test]
fn a_scale_factor_is_a_finite_number_above_zero() {
    assert!(validate_scale_factor(1.0f32.to_bits()).is_ok());
    for scale in [0.0f32, -1.0, f32::NAN, f32::INFINITY] {
        assert!(validate_scale_factor(scale.to_bits()).is_err());
    }
}

#[test]
fn an_error_that_speaks_of_permission_is_one() {
    assert!(matches!(
        map_xcap_error("Screen PERMISSION missing".to_owned()),
        CaptureError::PermissionDenied
    ));
    assert!(matches!(
        map_xcap_error("no monitor".to_owned()),
        CaptureError::CaptureFailed(_)
    ));
}

#[test]
fn permission_may_be_granted_on_request() {
    assert!(matches!(
        request_screen_recording_permission(true, None),
        PermissionStep::Answered(Ok(()))
    ));
    for _ in 0..2 {
        assert!(matches!(request_screen_recording_permission(false, None), PermissionStep::Ask));
        assert!(matches!(
            request_screen_recording_permission(false, Some(false)),
            PermissionStep::Answered(Err(CaptureError::PermissionDenied))
        ));
    }
    assert!(matches!(
        request_screen_recording_permission(false, Some(true)),
        PermissionStep::Answered(Ok(()))
    ));
}

#[test]
fn the_primary_monitor_is_found_among_all() {
    assert!(matches!(primary_monitor(Ok(vec![Some(false), None, Some(true)])), Ok(2)));
    assert!(matches!(primary_monitor(Ok(vec![None, Some(false)])), Ok(0)));
    assert!(matches!(primary_monitor(Ok(Vec::new())), Err(CaptureError::NoDisplay)));
    assert!(matches!(
        primary_monitor(Err("permission".to_owned())),
        Err(CaptureError::PermissionDenied)
    ));
    assert!(matches!(
        monitor_under_cursor(Ok(()), Some(1), Ok(vec![Some(true), None])),
        Ok(1)
    ));
    assert!(matches!(monitor_under_cursor(Ok(()), None, Ok(vec![None, Some(true)])), Ok(1)));
    assert!(matches!(
        monitor_under_cursor(Err(CaptureError::PermissionDenied), Some(0), Ok(vec![None])),
        Err(CaptureError::PermissionDenied)
    ));
}

#[test]
fn a_frame_must_fit_its_display() {
    let display = DisplaySnapshot {
        display_id: 3,
        bounds_global: [0, 0, 2, 1],
        scale_factor: 1.0f32.to_bits(),
    };
    let image = NativeCaptureImage::from_rgba([2, 1], vec![0; 8]).ok().unwrap();
    match CaptureFrame::new(1, 2, display, image, 5) {
        Ok(frame) => {
            assert_eq!(frame.display_id, 3);
            assert_eq!(frame.pixel_size, [2, 1]);
            assert!(frame.validate().is_ok());
        },
        Err(_) => panic!("the frame fits"),
    }
    let image = NativeCaptureImage::from_rgba([1, 1], vec![0; 4]).ok().unwrap();
    assert!(CaptureFrame::new(1, 2, display, image, 5).is_ok());
    assert!(NativeCaptureImage::from_rgba([9_000, 1], Vec::new()).is_err());
    assert!(NativeCaptureImage::from_cg_image(1, 0, Vec::new()).is_err());
    assert!(NativeCaptureImage::from_cg_image(1 << 40, 1, Vec::new()).is_err());
}

#[test]
fn a_capture_has_half_a_second() {
    assert_eq!(capture_deadline(7), 7 + CAPTURE_DEADLINE);
    assert_eq!(CAPTURE_DEADLINE, 500_000_000);
    assert!(!CaptureOptions::default().include_cursor);
}

#[test]
fn errors_of_a_capture_say_what_failed() {
    assert!(!CaptureError::PermissionDenied.to_message().is_empty());
    assert!(!CaptureError::NoDisplay.to_message().is_empty());
    assert!(CaptureError::CaptureFailed("x7".to_owned()).to_message().contains("x7"));
    let too_large =
        CaptureError::TooLarge { width_px: 9_000, height_px: 10, max_dimension_px: 8_192 };
    assert!(too_large.to_message().contains("9000"));
    assert!(too_large.to_message().contains("8192"));
}

#[test]
fn converts_bgra_rows_to_rgba_without_copying_padding() {
    let bytes = vec![
        3, 2, 1, 4, 7, 6, 5, 8, 99, 99, 99, 99, 13, 12, 11, 14, 17, 16, 15, 18, 88, 88, 88, 88,
    ];
    match bgra_rows_to_rgba(2, 2, 12, &bytes) {
        Ok(image) => assert_eq!(
            image.pixels,
            vec![1, 2, 3, 4, 5, 6, 7, 8, 11, 12, 13, 14, 15, 16, 17, 18]
        ),
        Err(_) => panic!("the rows are complete"),
    }
}

#[test]
fn rejects_bgra_row_stride_smaller_than_pixel_width() {
    match bgra_rows_to_rgba(2, 1, 7, &vec![0; 8]) {
        Err(error) => assert!(error.to_message().contains("row stride")),
        Ok(_) => panic!("the rows are too short"),
    }
}

#[test]
fn rejects_short_bgra_buffer() {
    match bgra_rows_to_rgba(1, 2, 4, &vec![0; 7]) {
        Err(error) => assert!(error.to_message().contains("expected at least 8")),
        Ok(_) => panic!("the buffer is too short"),
    }
}

#[test]
fn rejects_non_bgra_pixel_format() {
    assert!(ensure_bgra_pixel_format(PIXEL_FORMAT_BGRA).is_ok());
    assert!(ensure_bgra_pixel_format(0).is_err());
}

#[test]
fn maps_screen_capture_kit_user_declined_to_permission_denied() {
    let error = system_error(true, StreamErrorKind::UserDeclined);
    assert!(matches!(
        capture_error_from_ns_error(&error, "testing"),
        CaptureError::PermissionDenied
    ));
}

#[test]
fn does_not_interpret_error_codes_from_another_domain() {
    let error = system_error(false, StreamErrorKind::UserDeclined);
    assert!(matches!(
        capture_error_from_ns_error(&error, "testing"),
        CaptureError::CaptureFailed(_)
    ));
}

#[test]
fn missing_displays_are_told_from_other_faults() {
    for kind in [StreamErrorKind::NoDisplayList, StreamErrorKind::NoCaptureSource] {
        assert!(matches!(
            capture_error_from_ns_error(&system_error(true, kind), "testing"),
            CaptureError::NoDisplay
        ));
    }
    assert!(matches!(
        capture_error_from_ns_error(&system_error(true, StreamErrorKind::Other), "testing"),
        CaptureError::CaptureFailed(_)
    ));
    assert!(matches!(
        capture_error_from_optional_ns_error(&None, "testing"),
        CaptureError::CaptureFailed(_)
    ));
    assert!(completion_result(&None, "testing").is_ok());
    assert!(completion_result(&Some(system_error(true, StreamErrorKind::Other)), "x").is_err());
}

#[test]
fn a_pixel_buffer_must_hold_what_it_says() {
    let buffer = PixelBuffer {
        width: 2,
        height: 2,
        bytes_per_row: 8,
        data_size: 16,
        has_base_address: true,
    };
    assert!(matches!(check_pixel_buffer(buffer), Ok(16)));
    assert!(check_pixel_buffer(PixelBuffer { data_size: 15, ..buffer }).is_err());
    assert!(check_pixel_buffer(PixelBuffer { has_base_address: false, ..buffer }).is_err());
}

#[test]
fn a_locked_buffer_must_be_unlocked_again() {
    let image = || RgbaPixels { width: 1, height: 1, pixels: vec![1, 2, 3, 4] };
    assert!(sample_buffer_to_rgba(0, Ok(image()), 0).is_ok());
    assert!(sample_buffer_to_rgba(-1, Ok(image()), 0).is_err());
    assert!(sample_buffer_to_rgba(0, Ok(image()), -1).is_err());
}

#[test]
fn a_wait_that_ends_without_a_result_is_a_fault() {
    assert!(matches!(receive_result(Waited::Result(Ok(5)), "waiting"), Ok(5)));
    assert!(receive_result::<u32>(Waited::Timeout, "waiting").is_err());
    assert!(receive_result::<u32>(Waited::Disconnected, "waiting").is_err());
}

#[test]
fn a_stream_that_starts_too_late_is_stopped() {
    let mut state = StartState::new(4);
    assert_eq!(state.timed_out(), Some(4));
    assert_eq!(state.completed(false), Some(4));
    assert_eq!(state.completed(false), None);

    let mut in_time = StartState::new(5);
    assert_eq!(in_time.completed(false), None);
    assert!(matches!(in_time.started(), Ok(5)));
}

#[test]
fn stopping_is_tried_a_few_times() {
    let failed = || Err(CaptureError::NoDisplay);
    assert!(matches!(finish_stop_attempt(Ok(()), Ok(()), 0), StopStep::Release(Ok(()))));
    assert!(matches!(finish_stop_attempt(failed(), Ok(()), 0), StopStep::Release(Err(_))));
    assert!(matches!(finish_stop_attempt(failed(), failed(), 0), StopStep::Retry(1)));
    assert!(matches!(
        finish_stop_attempt(failed(), failed(), MAX_STOP_ATTEMPTS - 1),
        StopStep::Keep(Err(_))
    ));
    assert!(matches!(finish_stop_attempt(failed(), failed(), 200), StopStep::Keep(Err(_))));
}

#[test]
fn only_whole_pictures_are_taken() {
    assert!(is_complete_frame(true, Some(0), 0));
    assert!(!is_complete_frame(false, Some(0), 0));
    assert!(!is_complete_frame(true, Some(1), 0));
    assert!(!is_complete_frame(true, None, 0));
}

#[test]
fn the_program_itself_is_not_captured() {
    assert!(matches!(find_display(&vec![4, 9], 9), Ok(1)));
    assert!(find_display(&vec![4], 9).is_err());
    match excluded_applications(&vec![10, 20, 10], 10) {
        Ok(excluded) => assert_eq!(excluded, vec![0, 2]),
        Err(_) => panic!("the program is among the applications"),
    }
}

#[test]
fn a_capture_has_the_size_that_was_planned() {
    let display = DisplaySnapshot {
        display_id: 3,
        bounds_global: [0, 0, 1_728, 1_117],
        scale_factor: 2.0f32.to_bits(),
    };
    assert_eq!(planned_pixel_size(display).ok().unwrap(), [3_456, 2_234]);
    let negative = DisplaySnapshot { bounds_global: [0, 0, -1, 1], ..display };
    assert!(planned_pixel_size(negative).is_err());
    let unscaled = DisplaySnapshot { scale_factor: 0.0f32.to_bits(), ..display };
    assert!(planned_pixel_size(unscaled).is_err());

    let picture = || RgbaPixels { width: 2, height: 1, pixels: vec![0; 8] };
    assert!(captured_image(Ok(picture()), Ok(()), [2, 1]).is_ok());
    match captured_image(Ok(picture()), Ok(()), [2, 2]) {
        Err(error) => assert!(!error.to_message().is_empty()),
        Ok(_) => panic!("the picture has another size"),
    }
    assert!(captured_image(Ok(picture()), Err(CaptureError::NoDisplay), [2, 1]).is_err());
    assert!(captured_image(Err(CaptureError::NoDisplay), Ok(()), [2, 1]).is_err());
}

use rs_board::export::{
    encode_png, encode_tiff, make_preview, pasteboard_result, temporary_name, AtomicWrite,
    ExportError, WriteStep,
};
use rs_board::instance::{
    can_listen, files_from_message, forward_to_primary, instance_duty, message_for_primary,
    socket_file_name, ForwardStep, InstanceDuty, InstanceError, Removal, FORWARD_ATTEMPTS,
};
use rs_board::screen_stream::RgbaPixels;
use rs_board::startup::{is_rsboard_file, native_options, StartupArguments};

fn blank(width: u32, height: u32) -> RgbaPixels {
    RgbaPixels { width, height, pixels: vec![0; width as usize * height as usize * 4] }
}

#[test]
fn preview_uses_a_480px_long_edge_without_cropping() {
    let image = blank(3_840, 2_160);
    let preview = make_preview(&image, 480);
    assert_eq!((preview.width, preview.height), (480, 270));
    assert_eq!(preview.pixels.len(), 480 * 270 * 4);
}

#[test]
fn smaller_preview_is_not_upscaled() {
    let image = blank(320, 200);
    let preview = make_preview(&image, 480);
    assert_eq!((preview.width, preview.height), (320, 200));
}

#[test]
fn a_small_preview_is_the_picture_itself() {
    let image = RgbaPixels { width: 2, height: 1, pixels: vec![1, 2, 3, 4, 5, 6, 7, 8] };
    assert_eq!(make_preview(&image, 480).pixels, vec![1, 2, 3, 4, 5, 6, 7, 8]);
}

#[test]
fn encodes_png_and_tiff_clipboard_representations() {
    let image =
        RgbaPixels { width: 2, height: 1, pixels: vec![255, 0, 0, 255, 255, 0, 0, 255] };
    let png = encode_png(&image).ok().unwrap();
    let tiff = encode_tiff(&image).ok().unwrap();
    let decoded_png =
        image::load_from_memory_with_format(&png, image::ImageFormat::Png).unwrap();
    let decoded_tiff =
        image::load_from_memory_with_format(&tiff, image::ImageFormat::Tiff).unwrap();
    assert_eq!((decoded_png.width(), decoded_png.height()), (2, 1));
    assert_eq!((decoded_tiff.width(), decoded_tiff.height()), (2, 1));
    assert_eq!(decoded_png.to_rgba8().into_raw(), image.pixels);
    assert_eq!(decoded_tiff.to_rgba8().into_raw(), image.pixels);
}

#[test]
fn a_picture_without_pixels_cannot_be_encoded() {
    match encode_png(&blank(0, 0)) {
        Err(error) => {
            assert!(matches!(error, ExportError::Image(_)));
            assert!(!error.to_message().is_empty());
        },
        Ok(_) => panic!("there is nothing to encode"),
    }
}

#[test]
fn the_pasteboard_needs_one_representation() {
    assert!(pasteboard_result(true, true).is_ok());
    assert!(pasteboard_result(false, false).is_err());
}

#[test]
fn a_file_is_replaced_only_once_it_is_whole() {
    assert!(temporary_name("board.png").contains("board.png"));
    let mut write = AtomicWrite::new();
    assert!(matches!(write.step(true), WriteStep::Write));
    assert!(matches!(write.step(true), WriteStep::SyncFile));
    assert!(matches!(write.step(true), WriteStep::Rename));
    assert!(matches!(write.step(true), WriteStep::SyncParent));
    assert!(matches!(write.step(true), WriteStep::Finish(true)));

    let mut torn = AtomicWrite::new();
    assert!(matches!(torn.step(true), WriteStep::Write));
    assert!(matches!(torn.step(false), WriteStep::RemoveTemporary));
    assert!(matches!(torn.step(true), WriteStep::Finish(false)));
}

#[test]
fn export_errors_are_told_in_words() {
    assert!(!ExportError::InvalidDestination.to_message().is_empty());
    assert!(ExportError::Io("full".to_owned()).to_message().contains("full"));
    assert!(ExportError::Clipboard("busy".to_owned()).to_message().contains("busy"));
    assert!(ExportError::Pasteboard("none".to_owned()).to_message().contains("none"));
}

#[test]
fn listener_receives_a_file_group() {
    let expected = vec!["one.rsboard".to_owned(), "two.rsboard".to_owned()];
    let message = message_for_primary(&expected).ok().unwrap();
    let actual = files_from_message(&message).unwrap();
    assert_eq!(actual, expected);
    assert_eq!(message, b"[\"one.rsboard\",\"two.rsboard\"]".to_vec());
}

#[test]
fn a_message_that_is_no_list_of_files_is_ignored() {
    assert!(files_from_message(&b"not json".to_vec()).is_none());
    assert!(files_from_message(&b"[1]".to_vec()).is_none());
    assert_eq!(files_from_message(&b"[]".to_vec()), Some(Vec::new()));
}

#[test]
fn socket_path_stays_below_the_macos_unix_limit() {
    let name = socket_file_name(u64::MAX);
    assert_eq!(name, "rs-board-ffffffffffffffff.sock");
    assert_eq!(socket_file_name(0x2a), "rs-board-000000000000002a.sock");
    assert!("/var/folders/zz/zyxvpxvq6csfxvn_n0000000000000/T/".len() + name.len() < 104);
}

#[test]
fn the_first_instance_listens() {
    assert!(matches!(instance_duty(true), InstanceDuty::Listen));
    assert!(matches!(instance_duty(false), InstanceDuty::Forward));
    assert!(can_listen(Removal::Removed));
    assert!(can_listen(Removal::NotFound));
    assert!(!can_listen(Removal::Failed));
    assert!(InstanceError::Lock("taken".to_owned()).to_message().contains("taken"));
    assert!(InstanceError::Io("broken".to_owned()).to_message().contains("broken"));
}

#[test]
fn forwarding_is_tried_again_for_a_while() {
    assert!(matches!(forward_to_primary(0, true), ForwardStep::Send));
    assert!(matches!(forward_to_primary(0, false), ForwardStep::Retry(1)));
    assert!(matches!(
        forward_to_primary(FORWARD_ATTEMPTS - 1, false),
        ForwardStep::Fail
    ));
}

#[test]
fn recognizes_rsboard_extension_only() {
    assert!(is_rsboard_file("lesson.rsboard"));
    assert!(!is_rsboard_file("lesson.png"));
    assert!(!is_rsboard_file("lesson.RSBOARD"));
}

#[test]
fn a_name_that_is_only_an_extension_has_none() {
    assert!(!is_rsboard_file(".rsboard"));
    assert!(!is_rsboard_file("rsboard"));
    assert!(is_rsboard_file("/boards/one.two.rsboard"));
    assert!(!is_rsboard_file("/boards.rsboard/one"));
}

#[test]
fn slashes_after_the_name_do_not_count() {
    assert!(is_rsboard_file("lesson.rsboard/"));
    assert!(is_rsboard_file("/boards/lesson.rsboard//./"));
    assert!(is_rsboard_file("lesson.rsboard/."));
    assert!(!is_rsboard_file("lesson.rsboard/.."));
    assert!(!is_rsboard_file("lesson.rsboard./"));
    assert!(!is_rsboard_file("/"));
    assert!(!is_rsboard_file("./."));
    assert!(!is_rsboard_file(""));
}

#[test]
fn root_viewport_negotiates_transparency_for_capture_overlays() {
    assert!(native_options(true).transparent);
}

#[test]
fn tray_mode_keeps_a_transparent_mouse_passthrough_viewport_renderable() {
    let viewport = native_options(false);
    assert!(viewport.visible);
    assert!(viewport.transparent);
    assert!(!viewport.decorations);
    assert!(viewport.mouse_passthrough);
}

#[test]
fn arguments_name_documents_and_the_first_screen() {
    let startup = StartupArguments::from_arguments(&vec![
        "a.rsboard".to_owned(),
        "b.txt".to_owned(),
        "c.rsboard".to_owned(),
    ]);
    assert_eq!(startup.files, vec!["a.rsboard".to_owned(), "c.rsboard".to_owned()]);
    assert!(startup.initially_visible());
    assert!(!StartupArguments::from_arguments(&Vec::new()).initially_visible());
}

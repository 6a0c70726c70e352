use quillspeak::recording::RecordingPhase;
use quillspeak::tray::{
    icon_color, is_microphone_pixel, recording_menu_entry, tray_icon_pixmap, tray_title,
    write_argb_pixel, TRAY_ICON_SIZE, TRAY_IDLE_COLOR, TRAY_PROCESSING_COLOR, TRAY_RECORDING_COLOR,
};

#[test]
fn tray_icon_color_tracks_recording_phase() {
    assert_eq!(icon_color(RecordingPhase::Idle), TRAY_IDLE_COLOR);
    assert_eq!(icon_color(RecordingPhase::Arming), TRAY_RECORDING_COLOR);
    assert_eq!(icon_color(RecordingPhase::Recording), TRAY_RECORDING_COLOR);
    assert_eq!(icon_color(RecordingPhase::Processing), TRAY_PROCESSING_COLOR);
}

#[test]
fn tray_icon_pixmap_writes_argb_pixels() {
    let icon = tray_icon_pixmap(TRAY_RECORDING_COLOR);
    let offset = ((5 * TRAY_ICON_SIZE + 8) * 4) as usize;

    assert_eq!(icon.data[offset], TRAY_RECORDING_COLOR[3]);
    assert_eq!(icon.data[offset + 1], TRAY_RECORDING_COLOR[0]);
    assert_eq!(icon.data[offset + 2], TRAY_RECORDING_COLOR[1]);
    assert_eq!(icon.data[offset + 3], TRAY_RECORDING_COLOR[2]);
}

#[test]
fn tray_icon_is_transparent_outside_the_microphone() {
    let icon = tray_icon_pixmap(TRAY_IDLE_COLOR);
    assert_eq!(icon.width, 22);
    assert_eq!(icon.height, 22);
    assert_eq!(icon.data.len(), 22 * 22 * 4);
    assert!(!is_microphone_pixel(0, 0));
    assert!(icon.data[0..4].iter().all(|byte| *byte == 0));
    let lit = (0..22)
        .flat_map(|y| (0..22).map(move |x| (x, y)))
        .filter(|(x, y)| is_microphone_pixel(*x, *y))
        .count();
    let opaque = icon.data.chunks(4).filter(|pixel| pixel[0] == 255).count();
    assert_eq!(lit, opaque);
    assert!(is_microphone_pixel(10, 18));
    assert!(is_microphone_pixel(16, 10));
    assert!(!is_microphone_pixel(10, 21));
}

#[test]
fn single_pixel_write_touches_four_bytes() {
    let mut data = vec![0u8; 22 * 22 * 4];
    write_argb_pixel(&mut data, 1, 2, [1, 2, 3, 4]);
    let offset = (2 * 22 + 1) * 4;
    assert_eq!(&data[offset..offset + 4], &[4, 1, 2, 3]);
    assert_eq!(data.iter().filter(|byte| **byte != 0).count(), 4);
}

#[test]
fn tray_title_and_menu_follow_phase() {
    assert_eq!(tray_title(RecordingPhase::Idle), "MyApp");
    assert_eq!(tray_title(RecordingPhase::Arming), "MyApp - Recording");
    assert_eq!(tray_title(RecordingPhase::Processing), "MyApp - Processing");
    assert_eq!(
        recording_menu_entry(RecordingPhase::Idle),
        ("Start Recording", "media-record", true)
    );
    assert_eq!(
        recording_menu_entry(RecordingPhase::Recording),
        ("Stop Recording", "media-playback-stop", true)
    );
    assert_eq!(
        recording_menu_entry(RecordingPhase::Processing),
        ("Processing...", "media-playback-pause", false)
    );
}

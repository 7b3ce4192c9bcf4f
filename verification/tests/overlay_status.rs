use motsdits::overlay::{
    cursor_visible, glitch_active, glitch_cycle, glitch_row, label_with_dots, matrix_glyph,
    matrix_phase, matrix_rain_clock, matrix_seed, overlay_scene, overlay_visible,
    status_dot_count, status_label, status_text, OverlayMode, OverlayScene, StatusKind,
    BOTTOM_MARGIN, LEVEL_CHANNELS, MATRIX_GLYPHS, OVERLAY_HEIGHT, OVERLAY_WIDTH,
};

#[test]
fn overlay_visibility_and_scene() {
    assert!(!overlay_visible(OverlayMode::Hidden));
    assert!(overlay_visible(OverlayMode::Recording));
    assert!(overlay_visible(OverlayMode::Transcribing));
    assert!(overlay_visible(OverlayMode::Processing));
    assert_eq!(overlay_scene(OverlayMode::Hidden), OverlayScene::Cleared);
    assert_eq!(overlay_scene(OverlayMode::Recording), OverlayScene::Recording);
    assert_eq!(
        overlay_scene(OverlayMode::Transcribing),
        OverlayScene::Status(StatusKind::Transcribing)
    );
    assert_eq!(
        overlay_scene(OverlayMode::Processing),
        OverlayScene::Status(StatusKind::Processing)
    );
    for m in [
        OverlayMode::Hidden,
        OverlayMode::Recording,
        OverlayMode::Transcribing,
        OverlayMode::Processing,
    ] {
        assert_eq!(overlay_scene(m) == OverlayScene::Cleared, !overlay_visible(m));
    }
}

#[test]
fn overlay_geometry() {
    assert_eq!((OVERLAY_WIDTH, OVERLAY_HEIGHT, BOTTOM_MARGIN), (260, 52, 30));
    assert_eq!(LEVEL_CHANNELS, 16);
}

#[test]
fn status_words() {
    assert_eq!(status_text(StatusKind::Transcribing), "Transcribing");
    assert_eq!(status_text(StatusKind::Processing), "Processing");
}

#[test]
fn dots_advance_every_350_ms() {
    assert_eq!(status_dot_count(0), 0);
    assert_eq!(status_dot_count(349), 0);
    assert_eq!(status_dot_count(350), 1);
    assert_eq!(status_dot_count(1050), 3);
    assert_eq!(status_dot_count(1400), 0);
    for t in [0u128, 17, 999, 123_456_789] {
        assert_eq!(status_dot_count(t + 1400), status_dot_count(t));
    }
}

#[test]
fn status_labels() {
    assert_eq!(status_label("Transcribing", false, 0), "Transcribing");
    assert_eq!(status_label("Transcribing", false, 700), "Transcribing..");
    assert_eq!(status_label("Processing", true, 1050), "> PROCESSING...");
    assert_eq!(status_label("Transcribing", true, 350), "> TRANSCRIBING.");
    assert_eq!(label_with_dots("abc", true, 2), "> abc..");
    assert_eq!(label_with_dots("", false, 0), "");
}

#[test]
fn cursor_blinks_every_500_ms() {
    assert!(cursor_visible(true, 0));
    assert!(cursor_visible(true, 499));
    assert!(!cursor_visible(true, 500));
    assert!(cursor_visible(true, 1000));
    assert!(!cursor_visible(false, 0));
    for t in [0u128, 250, 777, 98_765] {
        assert_eq!(cursor_visible(true, t + 1000), cursor_visible(true, t));
    }
}

#[test]
fn glitch_three_slots_of_47() {
    assert_eq!(glitch_cycle(0), 0);
    assert!(glitch_active(0));
    assert!(glitch_active(359));
    assert!(!glitch_active(360));
    assert_eq!(glitch_cycle(120 * 46), 46);
    assert!(glitch_active(120 * 47));
    for t in [0u128, 1234, 99_999] {
        assert_eq!(glitch_active(t + 5640), glitch_active(t));
    }
    assert_eq!(glitch_row(600, 52), 10);
    assert_eq!(glitch_row(600, 0), 0);
    assert_eq!(glitch_row(600, 1), 0);
}

#[test]
fn matrix_rain_values() {
    assert_eq!(matrix_seed(0), 31);
    assert_eq!(matrix_seed(1), (7919 + 31) % 997);
    assert_eq!(matrix_phase(1, 0), (7919 + 31) % 997);
    assert_eq!(matrix_phase(2, 3), ((2 * 7919 + 31) % 997 * 4) % 1000);
    assert_eq!(matrix_rain_clock(1000, 0, 0), 1000 + 31 * 7);
    // column 0: seed 31, row 0: phase 31; at 0 ms index 31 % 25 = 6
    assert_eq!(matrix_glyph(0, 0, 0), '<');
    // at 111 ms one step has passed: index 32 % 25 = 7
    assert_eq!(matrix_glyph(111, 0, 0), '>');
    for col in 0..18u32 {
        for row in 0..4u32 {
            assert!(MATRIX_GLYPHS.contains(matrix_glyph(1_725_000_000_000, col, row)));
        }
    }
}

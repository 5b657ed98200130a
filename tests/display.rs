use microbit_thingy::display::{level_frame, lit_rows, scroll_text, FULL_ROW};

#[test]
fn display_thresholds() {
    assert_eq!(lit_rows(850), 3);
    assert_eq!(lit_rows(399), 0);
    assert_eq!(lit_rows(1400), 5);
    assert_eq!(lit_rows(400), 1);
    assert_eq!(lit_rows(1200), 5);
    assert_eq!(lit_rows(1199), 4);
    assert_eq!(lit_rows(0), 0);
    assert_eq!(lit_rows(u16::MAX), 5);
}

#[test]
fn level_frame_lights_from_bottom() {
    assert_eq!(level_frame(850), [0, 0, FULL_ROW, FULL_ROW, FULL_ROW]);
    assert_eq!(level_frame(399), [0; 5]);
    assert_eq!(level_frame(1400), [FULL_ROW; 5]);
}

#[test]
fn scroll_text_is_space_and_decimal() {
    assert_eq!(scroll_text(842), b" 842".to_vec());
    assert_eq!(scroll_text(0), b" 0".to_vec());
    assert_eq!(scroll_text(65535), b" 65535".to_vec());
}

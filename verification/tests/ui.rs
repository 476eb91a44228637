use nes::controller::buttons;
use nes::ui::{render_status, BAR_BYTES, BAR_H, BAR_W, VOLUME_X};

/// Red, green and blue of pixel (x, y).
fn rgb(buf: &[u8], x: usize, y: usize) -> (u8, u8, u8) {
    let o = (y * BAR_W + x) * 4;
    (buf[o + 2], buf[o + 1], buf[o])
}

fn bar(held: u8, fps: u32, volume: u8) -> Vec<u8> {
    let mut buf = vec![0u8; BAR_BYTES];
    render_status(&mut buf, held, fps, volume);
    buf
}

#[test]
fn bar_size_constants() {
    assert_eq!(BAR_BYTES, BAR_W * BAR_H * 4);
    assert_eq!(BAR_W, 292);
    assert_eq!(BAR_H, 18);
}

#[test]
fn background_separator_and_alpha() {
    let buf = bar(0, 60, 0);
    assert_eq!(rgb(&buf, 100, 0), (80, 60, 60));
    assert_eq!(rgb(&buf, 100, 17), (16, 16, 22));
    assert!(buf.chunks(4).all(|p| p[3] == 255));
}

#[test]
fn dpad_indicators_follow_buttons() {
    let buf = bar(buttons::UP | buttons::RIGHT, 60, 0);
    assert_eq!(rgb(&buf, 8, 5), (80, 110, 220));
    assert_eq!(rgb(&buf, 11, 8), (80, 110, 220));
    assert_eq!(rgb(&buf, 8, 11), (13, 18, 36));
    assert_eq!(rgb(&buf, 5, 8), (13, 18, 36));
    // Highlight at the top-left corner of a lit indicator.
    assert_eq!(rgb(&buf, 7, 4), (140, 170, 255));
    // Centre pip is always dim.
    assert_eq!(rgb(&buf, 8, 8), (45, 45, 70));
}

#[test]
fn select_start_pads_and_label_dots() {
    let buf = bar(buttons::START, 60, 0);
    assert_eq!(rgb(&buf, 21, 9), (25, 25, 25));
    assert_eq!(rgb(&buf, 31, 9), (230, 210, 120));
    assert_eq!(rgb(&buf, 20, 6), (40, 40, 40));
    assert_eq!(rgb(&buf, 30, 6), (255, 240, 140));
    assert_eq!(rgb(&buf, 32, 6), (255, 240, 140));
}

#[test]
fn a_and_b_buttons_are_round() {
    let buf = bar(buttons::A, 60, 0);
    assert_eq!(rgb(&buf, 284, 7), (220, 60, 60));
    assert_eq!(rgb(&buf, 284, 5), (255, 110, 110));
    // Trimmed corner keeps the background.
    assert_eq!(rgb(&buf, 282, 5), (16, 16, 22));
    assert_eq!(rgb(&buf, 275, 7), (10, 33, 16));
}

#[test]
fn fps_digits_and_colours() {
    let good = bar(0, 60, 0);
    // Ones digit 0 at x = 148: top row fully lit, green.
    assert_eq!(rgb(&good, 148, 7), (100, 210, 80));
    assert_eq!(rgb(&good, 150, 7), (100, 210, 80));
    // Tens digit 6 at x = 144: top row is .##
    assert_eq!(rgb(&good, 144, 7), (16, 16, 22));
    assert_eq!(rgb(&good, 145, 7), (100, 210, 80));
    // No hundreds digit.
    assert_eq!(rgb(&good, 141, 7), (16, 16, 22));
    // Tick mark.
    assert_eq!(rgb(&good, 153, 11), (90, 130, 60));

    let ok = bar(0, 50, 0);
    assert_eq!(rgb(&ok, 148, 7), (220, 180, 60));
    let slow = bar(0, 30, 0);
    assert_eq!(rgb(&slow, 148, 7), (220, 70, 70));
}

#[test]
fn fps_is_capped_at_999() {
    let buf = bar(0, 12345, 0);
    // 9 has a full top row in every cell.
    for x in [140usize, 144, 148] {
        assert_eq!(rgb(&buf, x, 7), (100, 210, 80));
    }
}

#[test]
fn volume_bar_lights_one_segment_per_tenth() {
    let buf = bar(0, 60, 3);
    for k in 0..10usize {
        let expected = if k < 3 { (40, 190, 180) } else { (6, 31, 30) };
        assert_eq!(rgb(&buf, VOLUME_X + 5 * k + 1, 8), expected);
    }
}

#[test]
fn longer_buffer_tail_is_untouched() {
    let mut buf = vec![7u8; BAR_BYTES + 8];
    render_status(&mut buf, 0xFF, 60, 10);
    assert_eq!(&buf[BAR_BYTES..], &[7u8; 8]);
}

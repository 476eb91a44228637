use nes::controller::buttons;
use nes::controller::Controller;

#[test]
fn strobe_high_reads_a_button_repeatedly() {
    let mut c = Controller::new();
    c.buttons = buttons::A;
    c.write(1);
    assert_eq!(c.read(), 1);
    assert_eq!(c.read(), 1);
    c.buttons = 0;
    assert_eq!(c.read(), 0);
}

#[test]
fn falling_strobe_latches_and_shifts_out_all_buttons() {
    let mut c = Controller::new();
    c.buttons = buttons::B | buttons::SELECT | buttons::UP | buttons::LEFT;
    c.write(1);
    c.write(0);
    // Changes after the latch are not seen until the next strobe.
    c.buttons = 0xFF;
    let bits: Vec<u8> = (0..8).map(|_| c.read()).collect();
    assert_eq!(bits, vec![0, 1, 1, 0, 1, 0, 1, 0]);
    assert_eq!(c.read(), 1);
    assert_eq!(c.read(), 1);
}

#[test]
fn new_controller_reports_ones_after_empty_latch() {
    let mut c = Controller::new();
    for _ in 0..8 {
        assert_eq!(c.read(), 1);
    }
    c.write(1);
    c.write(0);
    for _ in 0..8 {
        assert_eq!(c.read(), 0);
    }
    assert_eq!(c.read(), 1);
}

use sen_core::controller::ControllerButtons;
use sen_core::controller::ControllerPort;


#[test]
fn controller_port_separates_live_buttons_from_latched_state() {
    let released = ControllerButtons::default();
    let a_pressed = ControllerButtons::from_bits(0x01);
    let mut port = ControllerPort::default();

    port.write_strobe(1, released);

    // High strobe reads the current host observation directly
    assert_eq!(port.read(a_pressed), 1);

    // Falling edge captures the latest observation
    port.write_strobe(0, a_pressed);

    // Once low, reads use the captured shift register rather than live input
    assert_eq!(port.read(released), 1);
    assert_eq!(port.read(a_pressed), 0);
}

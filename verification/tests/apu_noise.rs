use sen_core::apu::noise::Noise;

#[test]
fn shift_register_starts_at_one() {
    let noise = Noise::new();
    assert_eq!(noise.shift_register, 1);
}

#[test]
fn mode_clear_uses_bit_1_for_feedback() {
    let mut noise = Noise::new();
    noise.shift_register = 0b0000_0000_0000_0011;
    noise.write_period(0x00);
    noise.clock_shift_register();

    assert_eq!(noise.shift_register & (1 << 14), 0);
}

#[test]
fn mode_set_uses_bit_6_for_feedback() {
    let mut noise = Noise::new();
    noise.shift_register = 0b0000_0000_0100_0001;
    noise.write_period(0x80);
    noise.clock_shift_register();

    assert_eq!(noise.shift_register & (1 << 14), 0);
}

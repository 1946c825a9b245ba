use sen_core::mapper::ChrState;
use sen_core::mapper::mmc1::Mmc1;


#[test]
fn cloneable_state_contains_ram_registers_and_serial_timing() {
    let prg_rom = vec![0; 0x8000];
    let mut mmc1 = Mmc1::new(&prg_rom, &[]).unwrap();

    mmc1.cpu_write(0x6000, 0xAB, 0);
    mmc1.ppu_write(0x0123, 0xBC);
    mmc1.cpu_write(0xE000, 1, 10);
    mmc1.cpu_write(0xE000, 0, 11); // Suppressed consecutive-cycle write
    mmc1.cpu_write(0xE000, 0, 13);

    let captured = mmc1.state.clone();

    mmc1.cpu_write(0x6000, 0xCD, 14);
    mmc1.ppu_write(0x0123, 0xDE);
    mmc1.cpu_write(0xE000, 1, 15);

    assert_eq!(captured.prg_ram[0], 0xAB);
    assert_eq!(captured.shift, 0b0000_0001);
    assert_eq!(captured.shift_count, 2);
    assert_eq!(captured.last_write_cycle, Some(13));
    let ChrState::Ram(captured_chr_ram) = captured.chr else {
        panic!("expected CHR RAM");
    };
    assert_eq!(captured_chr_ram[0x0123], 0xBC);

    assert_eq!(mmc1.cpu_read(0x6000), Some(0xCD));
    assert_eq!(mmc1.ppu_read(0x0123), Some(0xDE));
}

#[test]
fn chr_rom_bytes_are_an_immutable_resource_outside_mmc1_state() {
    let prg_rom = vec![0; 0x8000];
    let mut chr_rom = vec![0; 0x2000];
    chr_rom[0x0123] = 0x5A;
    let mut mmc1 = Mmc1::new(&prg_rom, &chr_rom).unwrap();

    assert!(matches!(&mmc1.state.chr, ChrState::Rom));
    assert!(mmc1.resources.chr_rom.is_some());

    mmc1.ppu_write(0x0123, 0xA5);
    assert_eq!(mmc1.ppu_read(0x0123), Some(0x5A));
}

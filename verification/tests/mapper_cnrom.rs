use sen_core::mapper::Mirroring;
use sen_core::mapper::cnrom::Cnrom;


#[test]
fn cloneable_bank_state_is_independent_of_the_live_board() {
    let prg_rom = vec![0xFF; 0x4000];
    let mut chr_rom = vec![0; 0x4000];
    chr_rom[0x0000] = 0x11;
    chr_rom[0x2000] = 0x22;
    let mut cnrom = Cnrom::new(&prg_rom, &chr_rom, Mirroring::Vertical).unwrap();

    cnrom.cpu_write(0x8000, 1, 0);
    let captured = cnrom.state.clone();

    cnrom.cpu_write(0x8000, 0, 1);

    assert_eq!(captured.chr_bank, 1);
    assert_eq!(cnrom.state.chr_bank, 0);
    assert_eq!(cnrom.ppu_read(0x0000), Some(0x11));
    assert_eq!(cnrom.mirroring(), Mirroring::Vertical);
}

#[test]
fn bank_select_still_observes_prg_rom_bus_conflicts() {
    let mut prg_rom = vec![0xFF; 0x4000];
    prg_rom[0] = 0b0000_0010;
    let mut chr_rom = vec![0; 0x8000];
    for bank in 0..4 {
        chr_rom[bank * 0x2000] = bank as u8;
    }
    let mut cnrom = Cnrom::new(&prg_rom, &chr_rom, Mirroring::Horizontal).unwrap();

    cnrom.cpu_write(0x8000, 0b0000_0011, 0);

    assert_eq!(cnrom.state.chr_bank, 0b0000_0010);
    assert_eq!(cnrom.ppu_read(0x0000), Some(2));
}

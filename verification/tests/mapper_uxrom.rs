use sen_core::mapper::ChrState;
use sen_core::mapper::Mirroring;
use sen_core::mapper::uxrom::Uxrom;


#[test]
fn complete_state_is_cloneable_independently_of_the_live_board() {
    let prg_rom = vec![0; 0x8000];
    let mut uxrom = Uxrom::new(&prg_rom, &[], Mirroring::Horizontal).unwrap();

    uxrom.cpu_write(0x8000, 1, 0);
    uxrom.ppu_write(0x0123, 0xAB);

    let captured = uxrom.state.clone();

    uxrom.cpu_write(0x8000, 0, 1);
    uxrom.ppu_write(0x0123, 0xCD);

    assert_eq!(captured.bank_select, 1);
    let ChrState::Ram(captured_chr_ram) = captured.chr else {
        panic!("expected CHR RAM");
    };
    assert_eq!(captured_chr_ram[0x0123], 0xAB);
    assert_eq!(uxrom.state.bank_select, 0);
    assert_eq!(uxrom.ppu_read(0x0123), Some(0xCD));
}

#[test]
fn chr_rom_bytes_are_an_immutable_resource_outside_uxrom_state() {
    let prg_rom = vec![0; 0x8000];
    let mut chr_rom = vec![0; 0x2000];
    chr_rom[0x0123] = 0x5A;
    let mut uxrom = Uxrom::new(&prg_rom, &chr_rom, Mirroring::Vertical).unwrap();

    assert!(matches!(&uxrom.state.chr, ChrState::Rom));
    assert!(uxrom.resources.chr_rom.is_some());

    uxrom.ppu_write(0x0123, 0xA5);
    assert_eq!(uxrom.ppu_read(0x0123), Some(0x5A));
}

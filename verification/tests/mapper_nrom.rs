use sen_core::mapper::Mirroring;
use sen_core::mapper::nrom::Nrom;
use sen_core::mapper::nrom::NromChr;


#[test]
fn nrom_chr_ram_is_cloneable_state_independent_of_the_live_board() {
    let prg_rom = vec![0; 0x4000];
    let mut nrom = Nrom::new(&prg_rom, &[], Mirroring::Horizontal).unwrap();

    nrom.ppu_write(0x0123, 0xAB);

    let captured = match &nrom.chr {
        NromChr::Ram(state) => state.clone(),
        NromChr::Rom(_) => panic!("expected CHR RAM"),
    };

    nrom.ppu_write(0x0123, 0xCD);

    assert_eq!(captured.chr_ram[0x0123], 0xAB);
    assert_eq!(nrom.ppu_read(0x0123), Some(0xCD));
}

#[test]
fn chr_rom_is_an_immutable_resource_without_nrom_state() {
    let prg_rom = vec![0; 0x4000];
    let mut chr_rom = vec![0; 0x2000];
    chr_rom[0x0123] = 0x5A;

    let mut nrom = Nrom::new(&prg_rom, &chr_rom, Mirroring::Horizontal).unwrap();
    assert!(matches!(&nrom.chr, NromChr::Rom(_)));

    nrom.ppu_write(0x0123, 0xA5);
    assert_eq!(nrom.ppu_read(0x0123), Some(0x5A));
}
